use vstd::prelude::*;

use crate::error::ClientError;
use crate::protocol::{check_reply, encode_line, is_ack, line_text, views};

verus! {

/// Where a session with the converter stands.
#[derive(Debug, Clone, Copy, PartialEq, Eq, Structural)]
pub enum Phase {
    /// Reading the status dump that the device sends on connect.
    Draining,
    /// Sending the lines of the command, one at a time.
    Sending,
    /// Waiting for the one reply to the command.
    AwaitingReply,
    /// The session is over; its last action said how.
    Finished,
}

/// What the driver of a session saw after doing the last action.
#[derive(Debug, PartialEq, Eq)]
pub enum Event {
    /// A burst read ended: the reply text, or why there is none.
    Burst(Result<String, ClientError>),
    /// A line was written, or the write failed for the given reason.
    Sent(Result<(), String>),
}

/// What the driver of a session has to do next.
#[derive(Debug, PartialEq, Eq)]
pub enum Action {
    /// Do one burst read and report it as `Event::Burst`.
    Read,
    /// Write this text and report it as `Event::Sent`.
    Write(String),
    /// The device acknowledged the command.
    Succeed,
    /// The session failed with this error.
    Fail(ClientError),
}

/// One command sent to the converter: drain the startup dump, send each line
/// and the empty terminator line, then read exactly one reply.
pub struct Session {
    pub phase: Phase,
    /// The command's lines followed by the empty terminator line.
    pub lines: Vec<String>,
    /// How many of `lines` have been written.
    pub sent: usize,
}

impl Session {
    /// The lines are terminated by an empty line, and the count of those sent
    /// is in range.
    pub open spec fn wf(&self) -> bool {
        &&& self.lines@.len() >= 1
        &&& self.lines@.last()@ == Seq::<char>::empty()
        &&& self.sent <= self.lines@.len()
        &&& self.phase == Phase::Sending ==> self.sent < self.lines@.len()
    }

    /// Whether `e` is the kind of event that the session waits for.
    pub open spec fn accepts(&self, e: Event) -> bool {
        match self.phase {
            Phase::Draining | Phase::AwaitingReply => e is Burst,
            Phase::Sending => e is Sent,
            Phase::Finished => false,
        }
    }

    /// Starts a session for a command; the first action is the read that
    /// drains the startup dump.
    pub fn new(command: Vec<String>) -> (r: (Session, Action))
        ensures
            r.0.wf(),
            r.0.phase == Phase::Draining,
            r.0.sent == 0,
            views(r.0.lines@) == views(command@).push(Seq::<char>::empty()),
            r.1 == Action::Read,
    {
        let mut lines = command;
        let ghost before = lines@;
        lines.push(String::new());
        assert(views(lines@) =~= views(before).push(Seq::<char>::empty()));
        (Session { phase: Phase::Draining, lines, sent: 0 }, Action::Read)
    }

    /// Takes the outcome of the last action and decides the next one.
    pub fn step(&mut self, event: Event) -> (a: Action)
        requires
            old(self).wf(),
            old(self).accepts(event),
        ensures
            final(self).wf(),
            final(self).lines == old(self).lines,
            match (old(self).phase, event) {
                (Phase::Draining, Event::Burst(Ok(_))) => {
                    &&& final(self).phase == Phase::Sending
                    &&& final(self).sent == 0
                    &&& a matches Action::Write(t) && t@ == line_text(old(self).lines@[0]@)
                },
                (Phase::Sending, Event::Sent(Ok(_))) => {
                    &&& final(self).sent == old(self).sent + 1
                    &&& final(self).sent < old(self).lines@.len() ==> {
                        &&& final(self).phase == Phase::Sending
                        &&& a matches Action::Write(t) && t@ == line_text(
                            old(self).lines@[final(self).sent as int]@,
                        )
                    }
                    &&& final(self).sent == old(self).lines@.len() ==> {
                        &&& final(self).phase == Phase::AwaitingReply
                        &&& a == Action::Read
                    }
                },
                (Phase::Sending, Event::Sent(Err(m))) => {
                    &&& final(self).phase == Phase::Finished
                    &&& a == Action::Fail(ClientError::WriteFailed(m))
                },
                (Phase::AwaitingReply, Event::Burst(Ok(t))) => {
                    &&& final(self).phase == Phase::Finished
                    &&& a == if is_ack(t@) {
                        Action::Succeed
                    } else {
                        Action::Fail(ClientError::RequestFailed)
                    }
                },
                (_, Event::Burst(Err(e))) => {
                    &&& final(self).phase == Phase::Finished
                    &&& a == Action::Fail(e)
                },
                _ => false,
            },
    {
        match event {
            Event::Burst(Err(e)) => {
                self.phase = Phase::Finished;
                Action::Fail(e)
            },
            Event::Burst(Ok(text)) => {
                if self.phase == Phase::Draining {
                    self.phase = Phase::Sending;
                    self.sent = 0;
                    Action::Write(encode_line(self.lines[0].as_str()))
                } else {
                    self.phase = Phase::Finished;
                    match check_reply(text.as_str()) {
                        Ok(()) => Action::Succeed,
                        Err(e) => Action::Fail(e),
                    }
                }
            },
            Event::Sent(Err(m)) => {
                self.phase = Phase::Finished;
                Action::Fail(ClientError::WriteFailed(m))
            },
            Event::Sent(Ok(())) => {
                let n = self.lines.len();
                self.sent = self.sent + 1;
                if self.sent < n {
                    Action::Write(encode_line(self.lines[self.sent].as_str()))
                } else {
                    self.phase = Phase::AwaitingReply;
                    Action::Read
                }
            },
        }
    }
}

} // verus!
