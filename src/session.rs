use vstd::prelude::*;

use crate::config::{config_file_path, config_path, resolve_config, resolved};
use crate::text::{from_chars, to_chars};

verus! {

/// What the driver of a conversion does next with the engine.
#[derive(Debug)]
pub enum SessionAction {
    /// Open an engine handle on the configuration resource at this path.
    Open(String),
    /// Convert the input with the open handle.
    Convert,
    /// Convert the input with the open handle into a buffer of this many bytes.
    ConvertToBuffer(usize),
    /// Read the engine's last error message.
    FetchError,
    /// Close the open handle.
    Close,
    /// Hand this text to the caller; the session is over.
    Finish(String),
}

/// What the engine did with the last action.
pub enum SessionEvent {
    /// The handle is open.
    Opened,
    /// The conversion succeeded with this text.
    Converted(String),
    /// The conversion failed (no output, or no length).
    ConvertFailed,
    /// The engine's last error message.
    ErrorMessage(String),
    /// The handle is closed.
    Closed,
}

/// Where a session stands.
#[derive(Clone, Copy, Debug, PartialEq, Eq, Structural)]
pub enum SessionPhase {
    /// The open action has been handed out.
    Opening,
    /// The handle is open and a conversion has been asked for.
    Converting,
    /// The conversion failed and the error message has been asked for.
    AwaitingError,
    /// The close action has been handed out; the result is known.
    Closing,
    /// The result has been handed out.
    Finished,
}

/// One open/convert/close cycle of the engine, driven by events.
pub struct ConversionSession {
    pub phase: SessionPhase,
    pub bounded: bool,
    pub capacity: usize,
    pub result: String,
}

/// The text a failed conversion yields, with the engine's message.
pub open spec fn error_text(message: Seq<char>) -> Seq<char> {
    seq!['E', 'r', 'r', 'o', 'r', ' ', 'c', 'o', 'n', 'v', 'e', 'r', 't', ' ', 'U', 'T', 'F', '-', '8',
        ' ', 's', 't', 'r', 'i', 'n', 'g', ':', ' '] + message
}

/// Whether `ev` is an answer to the action that a session in phase `p`
/// handed out last.
pub open spec fn answers(p: SessionPhase, ev: SessionEvent) -> bool {
    match p {
        SessionPhase::Opening => ev is Opened,
        SessionPhase::Converting => ev is Converted || ev is ConvertFailed,
        SessionPhase::AwaitingError => ev is ErrorMessage,
        SessionPhase::Closing => ev is Closed,
        SessionPhase::Finished => false,
    }
}

/// Position of a phase in the only order a session goes through.
pub open spec fn phase_rank(p: SessionPhase) -> int {
    match p {
        SessionPhase::Opening => 0,
        SessionPhase::Converting => 1,
        SessionPhase::AwaitingError => 2,
        SessionPhase::Closing => 3,
        SessionPhase::Finished => 4,
    }
}

/// Whether the engine handle is open while a session is in phase `p`.
pub open spec fn handle_open(p: SessionPhase) -> bool {
    p == SessionPhase::Converting || p == SessionPhase::AwaitingError || p == SessionPhase::Closing
}

impl SessionEvent {
    /// Whether this event answers the last action of a session in `phase`.
    pub fn answers(&self, phase: SessionPhase) -> (r: bool)
        ensures
            r == answers(phase, *self),
    {
        match phase {
            SessionPhase::Opening => matches!(self, SessionEvent::Opened),
            SessionPhase::Converting => matches!(self, SessionEvent::Converted(_))
                || matches!(self, SessionEvent::ConvertFailed),
            SessionPhase::AwaitingError => matches!(self, SessionEvent::ErrorMessage(_)),
            SessionPhase::Closing => matches!(self, SessionEvent::Closed),
            SessionPhase::Finished => false,
        }
    }
}

impl ConversionSession {
    /// Starts a conversion under the configuration that `config` selects
    /// (the default one when it names none), with configuration resources
    /// under `base`. When `bounded`, the engine writes into a buffer of
    /// `input_bytes + 1` bytes. The first action opens the handle.
    pub fn start(base: &str, config: &str, bounded: bool, input_bytes: usize) -> (r: (
        ConversionSession,
        SessionAction,
    ))
        requires
            input_bytes < usize::MAX,
        ensures
            r.0.phase == SessionPhase::Opening,
            r.0.bounded == bounded,
            r.0.capacity == input_bytes + 1,
            r.1 matches SessionAction::Open(path) && path@ == config_path(base@, resolved(config@)),
    {
        let c = resolve_config(config);
        let path = config_file_path(base, c);
        let s = ConversionSession {
            phase: SessionPhase::Opening,
            bounded,
            capacity: input_bytes + 1,
            result: String::new(),
        };
        (s, SessionAction::Open(path))
    }

    /// Takes the engine's answer to the last action and returns the next
    /// one. A handle that was opened is closed before the result is handed
    /// out, on success and on failure alike. Phases only move forward and
    /// `Close` is returned only on entering `Closing`, so it comes once.
    pub fn step(&mut self, ev: SessionEvent) -> (a: SessionAction)
        requires
            answers(old(self).phase, ev),
        ensures
            phase_rank(final(self).phase) > phase_rank(old(self).phase),
            final(self).bounded == old(self).bounded,
            final(self).capacity == old(self).capacity,
            (a is Close) <==> (handle_open(old(self).phase) && old(self).phase
                != SessionPhase::Closing && final(self).phase == SessionPhase::Closing),
            (a is Finish) <==> final(self).phase == SessionPhase::Finished,
            match (old(self).phase, ev) {
                (SessionPhase::Opening, SessionEvent::Opened) => {
                    &&& final(self).phase == SessionPhase::Converting
                    &&& if old(self).bounded {
                        a matches SessionAction::ConvertToBuffer(n) && n == old(self).capacity
                    } else {
                        a is Convert
                    }
                },
                (SessionPhase::Converting, SessionEvent::Converted(t)) => {
                    &&& final(self).phase == SessionPhase::Closing
                    &&& final(self).result@ == t@
                    &&& a is Close
                },
                (SessionPhase::Converting, SessionEvent::ConvertFailed) => {
                    &&& final(self).phase == SessionPhase::AwaitingError
                    &&& a is FetchError
                },
                (SessionPhase::AwaitingError, SessionEvent::ErrorMessage(m)) => {
                    &&& final(self).phase == SessionPhase::Closing
                    &&& final(self).result@ == error_text(m@)
                    &&& a is Close
                },
                (SessionPhase::Closing, SessionEvent::Closed) => {
                    &&& final(self).phase == SessionPhase::Finished
                    &&& a matches SessionAction::Finish(t) && t@ == old(self).result@
                },
                _ => false,
            },
    {
        match ev {
            SessionEvent::Opened => {
                self.phase = SessionPhase::Converting;
                if self.bounded {
                    SessionAction::ConvertToBuffer(self.capacity)
                } else {
                    SessionAction::Convert
                }
            },
            SessionEvent::Converted(t) => {
                self.phase = SessionPhase::Closing;
                self.result = t;
                SessionAction::Close
            },
            SessionEvent::ConvertFailed => {
                self.phase = SessionPhase::AwaitingError;
                SessionAction::FetchError
            },
            SessionEvent::ErrorMessage(m) => {
                let mut out = vec![
                    'E', 'r', 'r', 'o', 'r', ' ', 'c', 'o', 'n', 'v', 'e', 'r', 't', ' ', 'U',
                    'T', 'F', '-', '8', ' ', 's', 't', 'r', 'i', 'n', 'g', ':', ' ',
                ];
                let mut msg = to_chars(m.as_str());
                out.append(&mut msg);
                proof {
                    assert(out@ =~= error_text(m@));
                }
                self.phase = SessionPhase::Closing;
                self.result = from_chars(&out);
                SessionAction::Close
            },
            SessionEvent::Closed => {
                self.phase = SessionPhase::Finished;
                let t = self.result.clone();
                SessionAction::Finish(t)
            },
        }
    }
}

} // verus!
