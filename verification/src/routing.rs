//! The reports of child processes, brought to the instance that they
//! belong to.

use vstd::prelude::*;
use crate::drain::text_outcome;
use crate::event::{CommandEvent, CommandEventView, DrainStep, DrainStepView, LogLine, LogLineView};
use crate::instance::{Instance, InstanceView};
use crate::manager::{CoreManager, ManagerView};

verus! {

/// Whether the instance is the child process of this number.
pub open spec fn is_child(instance: Option<InstanceView>, id: u64) -> bool {
    instance matches Some(InstanceView::Child(child)) && child.id == id
}

/// What follows from the report of a process that the supervisor no longer
/// holds: its lines still go to the log, nothing is answered, nothing is
/// recovered, and the reading ends.
pub open spec fn stale_step(event: CommandEventView) -> DrainStepView {
    DrainStepView {
        log: match event {
            CommandEventView::Stdout(line) => Some(LogLineView { text: line, extract_level: false }),
            CommandEventView::Stderr(line) => Some(LogLineView { text: line, extract_level: false }),
            CommandEventView::Error(why) => Some(LogLineView { text: why, extract_level: false }),
            _ => None,
        },
        reply: None,
        recover: false,
        finished: true,
    }
}

impl ManagerView {
    /// The launch of the process of this number was attempted.
    pub open spec fn spawned(self, id: u64, result: Result<(), Seq<char>>) -> (
        ManagerView,
        DrainStepView,
    ) {
        if is_child(self.instance, id) {
            (
                ManagerView { instance: Some(self.instance->0.spawned(result).0), ..self },
                self.instance->0.spawned(result).1,
            )
        } else if is_child(self.taken, id) {
            (
                ManagerView { taken: Some(self.taken->0.spawned(result).0), ..self },
                self.taken->0.spawned(result).1,
            )
        } else {
            (self, DrainStepView { finished: true, ..DrainStepView::idle() })
        }
    }

    /// One report of the process of this number. It goes to the current
    /// engine, or to the one that a recovery is stopping, if it is theirs.
    pub open spec fn on_process_event(self, id: u64, event: CommandEventView, now: i64) -> (
        ManagerView,
        DrainStepView,
    ) {
        if is_child(self.instance, id) {
            (
                ManagerView { instance: Some(self.instance->0.on_event(event, now).0), ..self },
                self.instance->0.on_event(event, now).1,
            )
        } else if is_child(self.taken, id) {
            (
                ManagerView { taken: Some(self.taken->0.on_event(event, now).0), ..self },
                self.taken->0.on_event(event, now).1,
            )
        } else {
            (self, stale_step(event))
        }
    }
}

/// Whether the instance is the child process of this number.
fn holds_child(instance: &Option<Instance>, id: u64) -> (held: bool)
    ensures
        held == is_child(crate::manager::instance_view(*instance), id),
{
    match instance {
        Some(Instance::Child(child)) => child.id == id,
        _ => false,
    }
}

impl CoreManager {
    /// Takes note of the attempt to launch the process of this number.
    pub fn spawned(&mut self, id: u64, result: Result<(), String>) -> (step: DrainStep)
        ensures
            (final(self)@, step@) == old(self)@.spawned(id, text_outcome(result)),
    {
        if holds_child(&self.instance, id) {
            match self.instance.take() {
                Some(mut instance) => {
                    let step = instance.spawned(result);
                    self.instance = Some(instance);
                    step
                },
                None => DrainStep { log: None, reply: None, recover: false, finished: true },
            }
        } else if holds_child(&self.taken, id) {
            match self.taken.take() {
                Some(mut instance) => {
                    let step = instance.spawned(result);
                    self.taken = Some(instance);
                    step
                },
                None => DrainStep { log: None, reply: None, recover: false, finished: true },
            }
        } else {
            DrainStep { log: None, reply: None, recover: false, finished: true }
        }
    }

    /// Takes one report of the process of this number; `now` is the time
    /// of the call.
    pub fn on_process_event(&mut self, id: u64, event: CommandEvent, now: i64) -> (step: DrainStep)
        ensures
            (final(self)@, step@) == old(self)@.on_process_event(id, event@, now),
    {
        if holds_child(&self.instance, id) {
            match self.instance.take() {
                Some(mut instance) => {
                    let step = instance.on_event(event, now);
                    self.instance = Some(instance);
                    step
                },
                None => DrainStep { log: None, reply: None, recover: false, finished: true },
            }
        } else if holds_child(&self.taken, id) {
            match self.taken.take() {
                Some(mut instance) => {
                    let step = instance.on_event(event, now);
                    self.taken = Some(instance);
                    step
                },
                None => DrainStep { log: None, reply: None, recover: false, finished: true },
            }
        } else {
            let log = match event {
                CommandEvent::Stdout(line) => Some(LogLine { text: line, extract_level: false }),
                CommandEvent::Stderr(line) => Some(LogLine { text: line, extract_level: false }),
                CommandEvent::Error(why) => Some(LogLine { text: why, extract_level: false }),
                _ => None,
            };
            DrainStep { log, reply: None, recover: false, finished: true }
        }
    }
}

} // verus!
