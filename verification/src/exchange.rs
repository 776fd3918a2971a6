//! One exchange with the chip, as the decisions between the steps on the
//! bus: write the command, wait, read the answer, and try a failed step
//! once more after a pause. Whoever owns the bus carries out each action and
//! reports how it went.
use crate::command::{Command, CommandView, ResponseKind, MAX_DATA};
use crate::errors::ErrorKind;
use vstd::prelude::*;

verus! {

/// The pause before a failed write or read is tried again, in milliseconds.
pub const RETRY_DELAY: u64 = 300;

/// How far an exchange has come.
#[derive(Copy, Clone, Eq, Debug, PartialEq, Structural)]
pub enum Phase {
    /// The command is being written for the first time.
    FirstWrite,
    /// The first write failed, and the pause before the second is on.
    WritePause,
    /// The command is being written for the second time.
    SecondWrite,
    /// The command is written, and the chip is given its time.
    Settling,
    /// The answer is being read for the first time.
    FirstRead,
    /// The first read failed, and the pause before the second is on.
    ReadPause,
    /// The answer is being read for the second time.
    SecondRead,
    /// The exchange is over, and went well.
    Complete,
    /// The exchange is over, and failed.
    Failed(ErrorKind),
}

/// How the action last asked for went.
#[derive(Copy, Clone, Eq, Debug, PartialEq, Structural)]
pub enum Event {
    /// It was carried out.
    Done,
    /// The bus reported an error.
    Failed,
}

/// What to do next on the bus.
#[derive(Copy, Clone, Eq, Debug, PartialEq, Structural)]
pub enum Action {
    /// Write the bytes of the command.
    Write,
    /// Let this many milliseconds pass.
    Wait(u64),
    /// Read a buffer of this many bytes.
    Read(usize),
    /// The exchange is over: decode the buffer that was read as a response
    /// of this shape.
    Decode(ResponseKind),
    /// The exchange is over, and there is no answer to read.
    Finish,
    /// The exchange is over: it failed in this way.
    Fail(ErrorKind),
}

/// The state of one exchange: what the command asks for, and how far the
/// exchange has come.
#[derive(Copy, Clone, Eq, Debug, PartialEq, Structural)]
pub struct Exchange {
    pub delay: u64,
    pub response: Option<ResponseKind>,
    pub phase: Phase,
}

impl Exchange {
    /// What follows a write that went well: the wait that the command asks
    /// for, or where it asks for none, what follows the wait.
    pub open spec fn written(self) -> (Exchange, Action) {
        if self.delay > 0 {
            (Exchange { phase: Phase::Settling, ..self }, Action::Wait(self.delay))
        } else {
            self.settled()
        }
    }

    /// What follows the wait: the read, for a command with an answer, or
    /// else the end.
    pub open spec fn settled(self) -> (Exchange, Action) {
        match self.response {
            Some(_) => (Exchange { phase: Phase::FirstRead, ..self }, Action::Read(MAX_DATA)),
            None => (Exchange { phase: Phase::Complete, ..self }, Action::Finish),
        }
    }

    /// What follows a read that went well: the end, with the buffer to
    /// decode.
    pub open spec fn received(self) -> (Exchange, Action) {
        (Exchange { phase: Phase::Complete, ..self }, self.last_action())
    }

    /// The action that ends an exchange in this state.
    pub open spec fn last_action(self) -> Action {
        match self.phase {
            Phase::Failed(kind) => Action::Fail(kind),
            _ => match self.response {
                Some(kind) => Action::Decode(kind),
                None => Action::Finish,
            },
        }
    }

    /// What follows a step that failed for good.
    pub open spec fn failed(self, kind: ErrorKind) -> (Exchange, Action) {
        (Exchange { phase: Phase::Failed(kind), ..self }, Action::Fail(kind))
    }

    /// The state after an event, and the action to take then. A write or a
    /// read that fails is tried once more after a pause; a wait cannot fail,
    /// so after one either event counts as its end; and an exchange that is
    /// over stays so, and says again how it ended.
    pub open spec fn next(self, event: Event) -> (Exchange, Action) {
        match (self.phase, event) {
            (Phase::FirstWrite, Event::Done) => self.written(),
            (Phase::FirstWrite, Event::Failed) => (
                Exchange { phase: Phase::WritePause, ..self },
                Action::Wait(RETRY_DELAY),
            ),
            (Phase::WritePause, _) => (Exchange { phase: Phase::SecondWrite, ..self }, Action::Write),
            (Phase::SecondWrite, Event::Done) => self.written(),
            (Phase::SecondWrite, Event::Failed) => self.failed(ErrorKind::I2CWrite),
            (Phase::Settling, _) => self.settled(),
            (Phase::FirstRead, Event::Done) => self.received(),
            (Phase::FirstRead, Event::Failed) => (
                Exchange { phase: Phase::ReadPause, ..self },
                Action::Wait(RETRY_DELAY),
            ),
            (Phase::ReadPause, _) => (
                Exchange { phase: Phase::SecondRead, ..self },
                Action::Read(MAX_DATA),
            ),
            (Phase::SecondRead, Event::Done) => self.received(),
            (Phase::SecondRead, Event::Failed) => self.failed(ErrorKind::I2CRead),
            (Phase::Complete, _) => (self, self.last_action()),
            (Phase::Failed(_), _) => (self, self.last_action()),
        }
    }

    /// Whether the exchange is over.
    pub open spec fn is_over(self) -> bool {
        self.phase is Complete || self.phase is Failed
    }

    /// The most steps that an exchange in this state can still take.
    pub open spec fn steps_left(self) -> nat {
        match self.phase {
            Phase::FirstWrite => 7,
            Phase::WritePause => 6,
            Phase::SecondWrite => 5,
            Phase::Settling => 4,
            Phase::FirstRead => 3,
            Phase::ReadPause => 2,
            Phase::SecondRead => 1,
            Phase::Complete => 0,
            Phase::Failed(_) => 0,
        }
    }

    /// How many more times an exchange in this state can write the command.
    pub open spec fn writes_left(self) -> nat {
        match self.phase {
            Phase::FirstWrite | Phase::WritePause => 1,
            _ => 0,
        }
    }

    /// How many more times an exchange in this state can read the answer.
    pub open spec fn reads_left(self) -> nat {
        match self.phase {
            Phase::FirstWrite | Phase::WritePause | Phase::SecondWrite | Phase::Settling => 2,
            Phase::FirstRead | Phase::ReadPause => 1,
            _ => 0,
        }
    }

    /// Every step brings an exchange that is not over nearer to its end, so
    /// no exchange takes more than seven steps.
    pub proof fn lemma_progress(self, event: Event)
        requires
            !self.is_over(),
        ensures
            self.next(event).0.steps_left() < self.steps_left(),
    {
    }

    /// The command is written again only out of the one chance to do so, and
    /// the answer is read only out of the two chances to do so: neither is
    /// tried more than twice.
    pub proof fn lemma_retries_once(self, event: Event)
        ensures
            self.next(event).1 is Write ==> self.next(event).0.writes_left() < self.writes_left(),
            self.next(event).0.writes_left() <= self.writes_left(),
            self.next(event).1 is Read ==> self.next(event).0.reads_left() < self.reads_left(),
            self.next(event).0.reads_left() <= self.reads_left(),
    {
    }

    /// An exchange ends with an action that ends it, goes on with one that
    /// does not, and once over it stays as it is.
    pub proof fn lemma_ends(self, event: Event)
        ensures
            self.next(event).0.is_over() <==> (self.next(event).1 is Decode || self.next(event).1
                is Finish || self.next(event).1 is Fail),
            self.is_over() ==> self.next(event).0 == self,
            self.next(event).0.delay == self.delay,
            self.next(event).0.response == self.response,
    {
    }

    /// An exchange fails only when a write or a read has failed twice, and
    /// it asks for a buffer to be decoded only after a read went well.
    pub proof fn lemma_outcome(self, event: Event)
        requires
            !self.is_over(),
        ensures
            self.next(event).1 is Fail ==> event is Failed && (self.phase is SecondWrite
                || self.phase is SecondRead),
            self.next(event).1 is Decode ==> event is Done && (self.phase is FirstRead
                || self.phase is SecondRead) && self.response == Some(self.next(event).1->Decode_0),
    {
    }

    /// The exchange for a command, and its first action, which is to write
    /// the command.
    pub fn begin(command: &Command) -> (start: (Exchange, Action))
        ensures
            start.0 == Exchange::start(command@),
            start.1 == Action::Write,
    {
        (
            Exchange {
                delay: command.get_delay(),
                response: command.get_response_kind(),
                phase: Phase::FirstWrite,
            },
            Action::Write,
        )
    }

    /// The state in which the exchange for a command begins.
    pub open spec fn start(command: CommandView) -> Exchange {
        Exchange {
            delay: command.delay(),
            response: command.response(),
            phase: Phase::FirstWrite,
        }
    }

    /// Takes in how the last action went, and says what to do next.
    pub fn step(&mut self, event: Event) -> (action: Action)
        ensures
            (*final(self), action) == old(self).next(event),
    {
        match (self.phase, event) {
            (Phase::FirstWrite, Event::Done) | (Phase::SecondWrite, Event::Done) => {
                if self.delay > 0 {
                    self.phase = Phase::Settling;
                    Action::Wait(self.delay)
                } else {
                    self.settle()
                }
            },
            (Phase::FirstWrite, Event::Failed) => {
                self.phase = Phase::WritePause;
                Action::Wait(RETRY_DELAY)
            },
            (Phase::WritePause, _) => {
                self.phase = Phase::SecondWrite;
                Action::Write
            },
            (Phase::SecondWrite, Event::Failed) => {
                self.phase = Phase::Failed(ErrorKind::I2CWrite);
                Action::Fail(ErrorKind::I2CWrite)
            },
            (Phase::Settling, _) => self.settle(),
            (Phase::FirstRead, Event::Done) | (Phase::SecondRead, Event::Done) => {
                self.phase = Phase::Complete;
                self.outcome()
            },
            (Phase::FirstRead, Event::Failed) => {
                self.phase = Phase::ReadPause;
                Action::Wait(RETRY_DELAY)
            },
            (Phase::ReadPause, _) => {
                self.phase = Phase::SecondRead;
                Action::Read(MAX_DATA)
            },
            (Phase::SecondRead, Event::Failed) => {
                self.phase = Phase::Failed(ErrorKind::I2CRead);
                Action::Fail(ErrorKind::I2CRead)
            },
            (Phase::Complete, _) | (Phase::Failed(_), _) => self.outcome(),
        }
    }

    /// Goes on after the wait.
    fn settle(&mut self) -> (action: Action)
        ensures
            (*final(self), action) == old(self).settled(),
    {
        match self.response {
            Some(_) => {
                self.phase = Phase::FirstRead;
                Action::Read(MAX_DATA)
            },
            None => {
                self.phase = Phase::Complete;
                Action::Finish
            },
        }
    }

    /// The action that ends an exchange in this state.
    pub fn outcome(&self) -> (action: Action)
        ensures
            action == self.last_action(),
    {
        match self.phase {
            Phase::Failed(kind) => Action::Fail(kind),
            _ => match self.response {
                Some(kind) => Action::Decode(kind),
                None => Action::Finish,
            },
        }
    }

    /// Whether the exchange is over.
    pub fn is_finished(&self) -> (over: bool)
        ensures
            over == self.is_over(),
    {
        match self.phase {
            Phase::Complete | Phase::Failed(_) => true,
            _ => false,
        }
    }
}

} // verus!
