//! The execution mode of the engine, and how it is chosen.

use vstd::prelude::*;

verus! {

/// How the engine is run.
#[derive(Clone, Copy, Debug, PartialEq, Eq, Structural)]
pub enum RunType {
    /// As a child process that the supervisor owns.
    Normal,
    /// By the privileged service, reached over a local channel.
    Service,
    /// As an elevated process. Reserved: it has no behaviour yet.
    Elevated,
}

impl RunType {
    /// The mode that a setting and a connectivity probe select.
    pub open spec fn spec_resolve(enable_service_mode: Option<bool>, service_connected: bool) -> RunType {
        if enable_service_mode == Some(true) && service_connected {
            RunType::Service
        } else {
            RunType::Normal
        }
    }

    /// Chooses the mode for the next start of the engine. The service is used
    /// only where the setting asks for it and the service answers; a setting
    /// that is absent counts as off, and a service that cannot be reached is
    /// no error. The reserved mode is never chosen.
    pub fn resolve(enable_service_mode: Option<bool>, service_connected: bool) -> (mode: RunType)
        ensures
            mode == Self::spec_resolve(enable_service_mode, service_connected),
            mode == RunType::Service <==> enable_service_mode == Some(true) && service_connected,
            mode != RunType::Elevated,
    {
        let enabled = match enable_service_mode {
            Some(on) => on,
            None => false,
        };
        if enabled && service_connected {
            RunType::Service
        } else {
            RunType::Normal
        }
    }

    /// Whether the connectivity probe has any say: it is consulted only where
    /// the setting is on.
    pub fn needs_probe(enable_service_mode: Option<bool>) -> (needed: bool)
        ensures
            needed <==> enable_service_mode == Some(true),
            !needed ==> forall|c: bool| Self::spec_resolve(enable_service_mode, c) == RunType::Normal,
    {
        match enable_service_mode {
            Some(on) => on,
            None => false,
        }
    }
}

} // verus!
