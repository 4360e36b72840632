//! The output monitor: a state machine over one spawned process's event
//! stream.
//!
//! The host shell drains the child's event channel and feeds each event to
//! [`Monitor::handle_event`]; the returned [`StepEffects`] tell it what to
//! do: which decoded text to forward to the diagnostic sinks, which
//! notification to deliver to the caller, whether to clear the registry,
//! and whether the session is over. Readiness is a one-way latch: the first
//! output line that shows a readiness banner yields the ready notice, and
//! no later line yields another within the same session.

use vstd::prelude::*;
use crate::decode::decode_lossy;
use crate::decode::lossy_text_of;
use crate::readiness::is_ready_line;
use crate::readiness::line_signals_ready;

verus! {

/// One event from the child process's stream: an output line from either
/// standard stream, termination with the optional exit code (absent when
/// the process was killed by a signal), or an event kind the monitor
/// ignores.
pub enum ProcessEvent {
    Stdout(Vec<u8>),
    Stderr(Vec<u8>),
    Terminated(Option<i32>),
    Other,
}

/// A lifecycle notification for the caller: the server became ready, or it
/// terminated with the given exit code.
#[derive(Clone, Copy, Debug, PartialEq, Eq)]
pub enum Notice {
    Ready,
    Terminated(Option<i32>),
}

/// Everything one monitor step asks the host shell to do.
pub struct StepEffects {
    /// Decoded text of a standard-output line, to forward as a diagnostic.
    pub stdout_text: Option<String>,
    /// Decoded text of a standard-error line, to forward as an error-level
    /// diagnostic.
    pub stderr_text: Option<String>,
    /// A lifecycle notification to deliver, best-effort.
    pub notice: Option<Notice>,
    /// The registry must be cleared: the process is gone.
    pub clear_registry: bool,
    /// The session is over; the monitor loop should end.
    pub finished: bool,
}

/// An event that shows a readiness banner: a standard-output line whose
/// bytes contain one.
pub open spec fn is_ready_event(event: ProcessEvent) -> bool {
    event matches ProcessEvent::Stdout(line) && is_ready_line(line@)
}

/// The monitor's readiness latch after one event.
pub open spec fn ready_after(was_ready: bool, event: ProcessEvent) -> bool {
    was_ready || is_ready_event(event)
}

/// The notification one event yields, given the latch before it.
pub open spec fn notice_for(was_ready: bool, event: ProcessEvent) -> Option<Notice> {
    match event {
        ProcessEvent::Stdout(line) => if !was_ready && is_ready_line(line@) {
            Some(Notice::Ready)
        } else {
            None
        },
        ProcessEvent::Stderr(_) => None,
        ProcessEvent::Terminated(code) => Some(Notice::Terminated(code)),
        ProcessEvent::Other => None,
    }
}

/// One monitoring session's state: whether the readiness banner has been
/// seen yet.
pub struct Monitor {
    ready: bool,
}

impl Monitor {
    /// Whether the readiness latch is set.
    pub closed spec fn is_ready(&self) -> bool {
        self.ready
    }

    /// A fresh session starts with the latch unset.
    pub fn new() -> (monitor: Monitor)
        ensures
            !monitor.is_ready(),
    {
        Monitor { ready: false }
    }

    /// Consumes one event of the session and returns what the host shell
    /// must do for it.
    pub fn handle_event(&mut self, event: ProcessEvent) -> (effects: StepEffects)
        ensures
            final(self).is_ready() == ready_after(old(self).is_ready(), event),
            effects.notice == notice_for(old(self).is_ready(), event),
            event matches ProcessEvent::Stdout(line) ==> (effects.stdout_text matches Some(text)
                && text@ == lossy_text_of(line@)),
            !(event is Stdout) ==> effects.stdout_text is None,
            event matches ProcessEvent::Stderr(line) ==> (effects.stderr_text matches Some(text)
                && text@ == lossy_text_of(line@)),
            !(event is Stderr) ==> effects.stderr_text is None,
            effects.clear_registry == (event is Terminated),
            effects.finished == (event is Terminated),
    {
        match event {
            ProcessEvent::Stdout(line) => {
                let text = decode_lossy(line.as_slice());
                let newly_ready = if self.ready {
                    false
                } else {
                    line_signals_ready(line.as_slice())
                };
                if newly_ready {
                    self.ready = true;
                }
                StepEffects {
                    stdout_text: Some(text),
                    stderr_text: None,
                    notice: if newly_ready {
                        Some(Notice::Ready)
                    } else {
                        None
                    },
                    clear_registry: false,
                    finished: false,
                }
            },
            ProcessEvent::Stderr(line) => {
                let text = decode_lossy(line.as_slice());
                StepEffects {
                    stdout_text: None,
                    stderr_text: Some(text),
                    notice: None,
                    clear_registry: false,
                    finished: false,
                }
            },
            ProcessEvent::Terminated(code) => StepEffects {
                stdout_text: None,
                stderr_text: None,
                notice: Some(Notice::Terminated(code)),
                clear_registry: true,
                finished: true,
            },
            ProcessEvent::Other => StepEffects {
                stdout_text: None,
                stderr_text: None,
                notice: None,
                clear_registry: false,
                finished: false,
            },
        }
    }
}

} // verus!
