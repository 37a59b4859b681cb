use vstd::prelude::*;
use crate::error::{DriverError, RadioError, driver_error_to_radio};

verus! {

/// How the radio answered one command.
#[derive(Debug, Clone)]
pub enum Delivery {
    /// The radio answered; `acked` tells whether the answer was an ACK.
    Answered { acked: bool },
    /// The exchange failed before an answer arrived.
    Failed(DriverError),
}

/// What to do next in a run of commands.
#[derive(Debug, Clone)]
pub enum Step<C> {
    /// Send this command and report how it was answered.
    Send(C),
    /// Every command was answered as required: the run succeeded.
    Done,
    /// The run stops with this error; nothing more is sent.
    Fail(RadioError),
}

/// Where a run of commands stands.
#[derive(Debug, Clone, Copy, PartialEq, Eq, Structural)]
pub enum RunState {
    Running,
    Succeeded,
    Failed,
}

/// The error of a command that the radio answered without an ACK when one
/// was required.
pub open spec fn not_acked_message() -> Seq<char> {
    "radio did not acknowledge the command"@
}

/// How far a run has got: how many commands were handed out, where the
/// run stands, and the answers it has taken.
struct Progress {
    sent: usize,
    state: RunState,
    answers: Ghost<Seq<Delivery>>,
}

/// Sends a list of commands one at a time, each only after the previous one
/// was answered, and stops at the first failed exchange (or, when ACKs are
/// required, at the first answer that is not an ACK).
pub struct CommandRun<C> {
    commands: Vec<C>,
    require_ack: bool,
    progress: Progress,
}

/// Whether a delivery lets a run go on.
pub open spec fn delivery_ok(require_ack: bool, d: Delivery) -> bool {
    match d {
        Delivery::Answered { acked } => acked || !require_ack,
        Delivery::Failed(_) => false,
    }
}

/// Every delivery of `ds` lets a run go on.
pub open spec fn all_ok(require_ack: bool, ds: Seq<Delivery>) -> bool {
    forall|i: int| 0 <= i < ds.len() ==> delivery_ok(require_ack, #[trigger] ds[i])
}

impl<C> CommandRun<C> {
    /// The run's bookkeeping is consistent: at most every command was handed
    /// out; while running, one answer was taken for each command before the
    /// one in flight and each let the run go on; a successful run took one
    /// good answer per command.
    #[verifier::type_invariant]
    spec fn inv(self) -> bool {
        &&& self.progress.sent <= self.commands.len()
        &&& self.progress.state == RunState::Running ==> {
            &&& all_ok(self.require_ack, self.progress.answers@)
            &&& self.progress.answers@.len() + 1 == self.progress.sent
        }
        &&& self.progress.state == RunState::Succeeded ==> {
            &&& all_ok(self.require_ack, self.progress.answers@)
            &&& self.progress.answers@.len() == self.commands.len()
        }
    }
}

impl<C: Copy> CommandRun<C> {
    /// The commands of the run, in order.
    pub closed spec fn commands(&self) -> Seq<C> {
        self.commands@
    }

    /// How many commands have been handed out to send.
    pub closed spec fn sent(&self) -> nat {
        self.progress.sent as nat
    }

    /// Whether every answer must be an ACK.
    pub closed spec fn requires_ack(&self) -> bool {
        self.require_ack
    }

    /// Where the run stands.
    pub closed spec fn state(&self) -> RunState {
        self.progress.state
    }

    /// The answers the run has taken, in order.
    pub closed spec fn answers(&self) -> Seq<Delivery> {
        self.progress.answers@
    }

    /// A run that succeeded took one answer per command, each a good one
    /// (an ACK when required), never a failed exchange.
    pub open spec fn success_is_earned(&self) -> bool {
        self.state() == RunState::Succeeded ==> {
            &&& self.answers().len() == self.commands().len()
            &&& all_ok(self.requires_ack(), self.answers())
        }
    }

    /// Starts a run of `commands`: hands out the first command, or succeeds
    /// at once when there is none.
    pub fn start(commands: Vec<C>, require_ack: bool) -> (r: (Self, Step<C>))
        ensures
            r.0.commands() == commands@,
            r.0.requires_ack() == require_ack,
            r.0.answers().len() == 0,
            r.0.success_is_earned(),
            commands@.len() > 0 ==> {
                &&& r.1 matches Step::Send(c) && c == commands@[0]
                &&& r.0.sent() == 1
                &&& r.0.state() == RunState::Running
            },
            commands@.len() == 0 ==> {
                &&& r.1 matches Step::Done
                &&& r.0.sent() == 0
                &&& r.0.state() == RunState::Succeeded
            },
    {
        if commands.len() > 0 {
            let c = commands[0];
            let progress = Progress { sent: 1, state: RunState::Running, answers: Ghost(Seq::empty()) };
            (CommandRun { commands, require_ack, progress }, Step::Send(c))
        } else {
            let progress = Progress { sent: 0, state: RunState::Succeeded, answers: Ghost(Seq::empty()) };
            (CommandRun { commands, require_ack, progress }, Step::Done)
        }
    }

    /// Takes the answer to the command last handed out: a failed exchange
    /// fails the run with the driver's error; an answer without an ACK fails
    /// it when ACKs are required; otherwise the next command is handed out,
    /// or the run succeeds when every command was answered. A run that has
    /// ended is left as it is and reports `Done`.
    pub fn on_delivery(&mut self, d: Delivery) -> (s: Step<C>)
        ensures
            final(self).success_is_earned(),
            final(self).commands() == old(self).commands(),
            final(self).requires_ack() == old(self).requires_ack(),
            old(self).state() != RunState::Running ==> {
                &&& final(self).answers() == old(self).answers()
                &&& final(self).sent() == old(self).sent()
                &&& final(self).state() == old(self).state()
                &&& s matches Step::Done
            },
            old(self).state() == RunState::Running ==> {
                &&& final(self).answers() == old(self).answers().push(d)
                &&& match d {
                    Delivery::Failed(e) => {
                        &&& s matches Step::Fail(err) && err == driver_error_to_radio(e)
                        &&& final(self).state() == RunState::Failed
                        &&& final(self).sent() == old(self).sent()
                    },
                    Delivery::Answered { acked } => if !acked && old(self).requires_ack() {
                        &&& s matches Step::Fail(RadioError::Driver(m)) && m@ == not_acked_message()
                        &&& final(self).state() == RunState::Failed
                        &&& final(self).sent() == old(self).sent()
                    } else if old(self).sent() < old(self).commands().len() {
                        &&& s matches Step::Send(c) && c == old(self).commands()[old(self).sent() as int]
                        &&& final(self).sent() == old(self).sent() + 1
                        &&& final(self).state() == RunState::Running
                    } else {
                        &&& s matches Step::Done
                        &&& final(self).sent() == old(self).sent()
                        &&& final(self).state() == RunState::Succeeded
                    },
                }
            },
    {
        proof { use_type_invariant(&*self); }
        if self.progress.state != RunState::Running {
            return Step::Done;
        }
        let sent = self.progress.sent;
        let ghost before = self.progress.answers@;
        let ghost after = before.push(d);
        match d {
            Delivery::Failed(e) => {
                self.progress = Progress { sent, state: RunState::Failed, answers: Ghost(after) };
                Step::Fail(RadioError::from(e))
            },
            Delivery::Answered { acked } => {
                if !acked && self.require_ack {
                    self.progress = Progress { sent, state: RunState::Failed, answers: Ghost(after) };
                    Step::Fail(RadioError::Driver("radio did not acknowledge the command".to_owned()))
                } else {
                    assert(all_ok(self.require_ack, after)) by {
                        assert forall|i: int| 0 <= i < after.len() implies delivery_ok(
                            self.require_ack,
                            #[trigger] after[i],
                        ) by {
                            if i < before.len() {
                                assert(after[i] == before[i]);
                            }
                        }
                    }
                    if sent < self.commands.len() {
                        let c = self.commands[sent];
                        self.progress = Progress { sent: sent + 1, state: RunState::Running, answers: Ghost(after) };
                        Step::Send(c)
                    } else {
                        self.progress = Progress { sent, state: RunState::Succeeded, answers: Ghost(after) };
                        Step::Done
                    }
                }
            },
        }
    }
}

} // verus!
