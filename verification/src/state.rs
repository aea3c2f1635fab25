//! What is known of the engine: its variant, and whether it runs.

use vstd::prelude::*;

verus! {

/// The engine's variant: which executable is run, and how its output reads.
#[derive(Clone, Copy, Debug, PartialEq, Eq, Structural)]
pub enum CoreType {
    ClashPremium,
    ClashRust,
    Mihomo,
    MihomoAlpha,
}

impl CoreType {
    /// The variant that is used where the settings name none.
    pub fn or_default(configured: Option<CoreType>) -> (variant: CoreType)
        ensures
            variant == Self::spec_or_default(configured),
    {
        match configured {
            Some(variant) => variant,
            None => CoreType::ClashPremium,
        }
    }

    pub open spec fn spec_or_default(configured: Option<CoreType>) -> CoreType {
        match configured {
            Some(variant) => variant,
            None => CoreType::ClashPremium,
        }
    }

    /// Whether the variant's output lines carry a severity level that is
    /// extracted before a line is forwarded.
    pub fn is_premium(&self) -> (premium: bool)
        ensures
            premium <==> *self == CoreType::ClashPremium,
    {
        match self {
            CoreType::ClashPremium => true,
            _ => false,
        }
    }
}

/// Whether the engine runs. A stopped engine may come with a detail of its
/// exit; the supervisor itself reports none.
#[derive(Debug, PartialEq, Eq)]
pub enum CoreState {
    Running,
    Stopped(Option<String>),
}

impl CoreState {
    pub fn is_running(&self) -> (running: bool)
        ensures
            running <==> *self is Running,
    {
        match self {
            CoreState::Running => true,
            CoreState::Stopped(_) => false,
        }
    }

    /// The state without the detail of the exit.
    pub open spec fn bare(self) -> CoreState {
        match self {
            CoreState::Running => CoreState::Running,
            CoreState::Stopped(_) => CoreState::Stopped(None),
        }
    }
}

/// What the privileged service answers when asked for the engine's status.
#[derive(Debug, PartialEq, Eq)]
pub struct ServiceStatus {
    pub state: CoreState,
    pub state_changed_at: i64,
}

} // verus!
