//! The reading of a child's output: what each report does to the instance,
//! what is answered to the caller of the start, and when the engine is to be
//! recovered.

use vstd::prelude::*;
use vstd::string::StringExecFns;
use crate::error::{CoreError, CoreErrorView, ErrorKind};
use crate::event::{CommandEvent, CommandEventView, DrainStep, DrainStepView, LogLine, LogLineView};
use crate::instance::{Child, ChildView, ERR_LINES};
use crate::state::CoreType;
use crate::text::{headed, last_of, lemma_lines_of_bounded, lines_of, push_bounded, with_lines};

verus! {

/// The text of a launch that could not be made.
pub open spec fn text_outcome(r: Result<(), String>) -> Result<(), Seq<char>> {
    match r {
        Ok(()) => Ok(()),
        Err(why) => Err(why@),
    }
}

impl ChildView {
    /// The answer for the caller of the start: it is given once.
    pub open spec fn reply(self, answer: Result<(), CoreErrorView>) -> Option<Result<(), CoreErrorView>> {
        if self.answered {
            None
        } else {
            Some(answer)
        }
    }

    /// The failure that is reported for a report of the process: its
    /// headline, then the diagnostic lines that are kept.
    pub open spec fn failure(self, kind: ErrorKind, headline: Seq<char>) -> CoreErrorView {
        CoreErrorView { kind, message: headed(headline, self.err_buf) }
    }

    /// The launch was attempted. A process that is up is read from, with an
    /// empty buffer and the kill flag cleared; a launch that failed is
    /// answered to the caller of the start.
    pub open spec fn spawned(self, result: Result<(), Seq<char>>) -> (ChildView, DrainStepView) {
        match result {
            Ok(()) => (
                ChildView {
                    running: true,
                    draining: true,
                    kill_flag: false,
                    err_buf: Seq::empty(),
                    ..self
                },
                DrainStepView::idle(),
            ),
            Err(why) => (
                ChildView { answered: true, ..self },
                DrainStepView {
                    log: None,
                    reply: self.reply(
                        Err(CoreErrorView { kind: ErrorKind::SpawnFailure, message: why }),
                    ),
                    recover: false,
                    finished: true,
                },
            ),
        }
    }

    /// One report of the process. Reports of a process that is not read
    /// from change nothing.
    pub open spec fn on_event(self, event: CommandEventView, now: i64) -> (ChildView, DrainStepView) {
        if !self.draining {
            (self, DrainStepView { finished: true, ..DrainStepView::idle() })
        } else {
            match event {
                CommandEventView::Stdout(line) => (
                    self,
                    DrainStepView {
                        log: Some(
                            LogLineView {
                                text: line,
                                extract_level: self.launch.core_type == CoreType::ClashPremium,
                            },
                        ),
                        ..DrainStepView::idle()
                    },
                ),
                CommandEventView::Stderr(line) => (
                    ChildView {
                        err_buf: last_of(self.err_buf.push(line), ERR_LINES as nat),
                        ..self
                    },
                    DrainStepView {
                        log: Some(LogLineView { text: line, extract_level: false }),
                        ..DrainStepView::idle()
                    },
                ),
                CommandEventView::Error(why) => (
                    ChildView {
                        running: false,
                        draining: false,
                        stated_changed_at: now,
                        answered: true,
                        ..self
                    },
                    DrainStepView {
                        log: Some(LogLineView { text: why, extract_level: false }),
                        reply: self.reply(Err(self.failure(ErrorKind::SpawnFailure, why))),
                        recover: false,
                        finished: true,
                    },
                ),
                CommandEventView::Terminated { status, detail } => if status.spec_is_graceful() {
                    (
                        ChildView {
                            running: false,
                            draining: false,
                            stated_changed_at: now,
                            ..self
                        },
                        DrainStepView { finished: true, ..DrainStepView::idle() },
                    )
                } else {
                    (
                        ChildView {
                            running: false,
                            draining: false,
                            stated_changed_at: now,
                            answered: true,
                            ..self
                        },
                        DrainStepView {
                            log: None,
                            reply: self.reply(
                                Err(
                                    self.failure(
                                        ErrorKind::AbnormalTermination,
                                        "core terminated with status: "@ + detail,
                                    ),
                                ),
                            ),
                            recover: !self.kill_flag,
                            finished: true,
                        },
                    )
                },
                CommandEventView::DelayCheckpointPass => (
                    ChildView { stated_changed_at: now, answered: true, ..self },
                    DrainStepView { reply: self.reply(Ok(())), ..DrainStepView::idle() },
                ),
            }
        }
    }
}

impl Child {
    /// The answer for the caller of the start, if it has had none yet.
    fn reply(&self, answer: Result<(), CoreError>) -> (reply: Option<Result<(), CoreError>>)
        ensures
            (match reply {
                Some(r) => Some(crate::error::result_view(r)),
                None => None,
            }) == self@.reply(crate::error::result_view(answer)),
    {
        if self.answered {
            None
        } else {
            Some(answer)
        }
    }

    /// Takes note of the attempt to launch the process.
    pub fn spawned(&mut self, result: Result<(), String>) -> (step: DrainStep)
        ensures
            (final(self)@, step@) == old(self)@.spawned(text_outcome(result)),
    {
        match result {
            Ok(()) => {
                self.running = true;
                self.draining = true;
                self.kill_flag = false;
                self.err_buf = Vec::new();
                assert(lines_of(self.err_buf@) =~= Seq::<Seq<char>>::empty());
                DrainStep { log: None, reply: None, recover: false, finished: false }
            },
            Err(why) => {
                let reply = self.reply(Err(CoreError::new(ErrorKind::SpawnFailure, why)));
                self.answered = true;
                DrainStep { log: None, reply, recover: false, finished: true }
            },
        }
    }

    /// Takes one report of the process.
    pub fn on_event(&mut self, event: CommandEvent, now: i64) -> (step: DrainStep)
        ensures
            (final(self)@, step@) == old(self)@.on_event(event@, now),
    {
        if !self.draining {
            return DrainStep { log: None, reply: None, recover: false, finished: true };
        }
        match event {
            CommandEvent::Stdout(line) => {
                let extract_level = self.launch.core_type.is_premium();
                DrainStep {
                    log: Some(LogLine { text: line, extract_level }),
                    reply: None,
                    recover: false,
                    finished: false,
                }
            },
            CommandEvent::Stderr(line) => {
                proof {
                    lemma_lines_of_bounded(self.err_buf@, line, ERR_LINES as nat);
                }
                push_bounded(&mut self.err_buf, line.clone(), ERR_LINES);
                DrainStep {
                    log: Some(LogLine { text: line, extract_level: false }),
                    reply: None,
                    recover: false,
                    finished: false,
                }
            },
            CommandEvent::Error(why) => {
                let message = with_lines(why.as_str(), &self.err_buf);
                let reply = self.reply(Err(CoreError::new(ErrorKind::SpawnFailure, message)));
                self.running = false;
                self.draining = false;
                self.stated_changed_at = now;
                self.answered = true;
                DrainStep {
                    log: Some(LogLine { text: why, extract_level: false }),
                    reply,
                    recover: false,
                    finished: true,
                }
            },
            CommandEvent::Terminated { status, detail } => {
                if status.is_graceful() {
                    self.running = false;
                    self.draining = false;
                    self.stated_changed_at = now;
                    DrainStep { log: None, reply: None, recover: false, finished: true }
                } else {
                    let headline = String::from_str("core terminated with status: ").concat(
                        detail.as_str(),
                    );
                    let message = with_lines(headline.as_str(), &self.err_buf);
                    let reply = self.reply(
                        Err(CoreError::new(ErrorKind::AbnormalTermination, message)),
                    );
                    let recover = !self.kill_flag;
                    self.running = false;
                    self.draining = false;
                    self.stated_changed_at = now;
                    self.answered = true;
                    DrainStep { log: None, reply, recover, finished: true }
                }
            },
            CommandEvent::DelayCheckpointPass => {
                let reply = self.reply(Ok(()));
                self.stated_changed_at = now;
                self.answered = true;
                DrainStep { log: None, reply, recover: false, finished: false }
            },
        }
    }
}

} // verus!
