//! The controller protocol as a transition system.
//!
//! A [`Machine`] is the driver between two register accesses: which operation
//! is under way, which access it waits on, and what it still has to do.
//! [`issue`] is the access that a machine asks for, [`next`] the machine that
//! follows once the access has been answered. All that the driver does is
//! defined by these two functions.

use super::geometry::{Bank, Family, Geometry};
use super::registers::{
    ack_register, answers, stale_flags, Action, ControlBit, Error, ErrorFlag, Event, Status,
    FLASH_KEY1, FLASH_KEY2,
};
use vstd::prelude::*;

verus! {

/// The operations of the driver.
#[derive(Clone, Copy, Debug, PartialEq, Eq, Structural)]
pub enum Operation {
    /// Open the lock gate.
    Unlock,
    /// Close the lock gate.
    Lock,
    /// Erase one page or sector.
    EraseUnit,
    /// Erase a whole bank.
    EraseBank,
    /// Program double words.
    Program,
}

/// The access that an operation waits on, by its place in the operation.
#[derive(Clone, Copy, Debug, PartialEq, Eq, Structural)]
pub enum Phase {
    /// No operation is under way.
    Idle,
    /// Reading the lock bit, before any key is written.
    ProbeLock,
    /// Writing the first key.
    FirstKey,
    /// Writing the second key.
    SecondKey,
    /// Reading the lock bit, after the keys.
    VerifyUnlock,
    /// Reading the status, to see whether the controller is busy.
    CheckBusy,
    /// Reading the status, to see which error flags are stale.
    ReadFlags,
    /// Acknowledging a stale error flag.
    ClearFlag,
    /// Setting the enable bit of the operation.
    Arm,
    /// Writing the address register.
    Address,
    /// Setting the start bit.
    Start,
    /// Writing the low half of a double word.
    LowWord,
    /// Writing the high half of a double word.
    HighWord,
    /// Polling the status until the command has left the queue.
    AwaitQueue,
    /// Polling the status until the controller is no longer busy.
    AwaitBusy,
    /// Polling the status until the end-of-operation flag is set.
    AwaitEop,
    /// Acknowledging the end-of-operation flag.
    AckEop,
    /// Clearing the enable bit of the operation.
    Disarm,
    /// Polling the status until the controller is no longer busy, to lock.
    AwaitIdle,
    /// Setting the lock bit.
    SetLock,
}

/// The driver between two register accesses.
pub struct Machine {
    pub geometry: Geometry,
    pub op: Operation,
    pub phase: Phase,
    /// The bank that the operation was asked for.
    pub bank: Bank,
    /// The erase unit that the operation was asked for.
    pub index: usize,
    /// The stale error flags, as the status read found them.
    pub flags: Seq<ErrorFlag>,
    /// How many of them have been acknowledged.
    pub next_flag: usize,
    /// The double words to program.
    pub words: Seq<u64>,
    /// How many of them have been programmed.
    pub next_word: usize,
    /// How the operation ends once the lock is set.
    pub outcome: Result<(), Error>,
}

/// The low half of a double word.
pub open spec fn low_half(word: u64) -> u32 {
    (word & 0xFFFF_FFFF) as u32
}

/// The high half of a double word.
pub open spec fn high_half(word: u64) -> u32 {
    (word >> 32) as u32
}

impl Machine {
    pub open spec fn family(self) -> Family {
        self.geometry.family()
    }

    /// The register sub-block that the operation addresses.
    pub open spec fn block(self) -> Bank {
        self.geometry.register_bank(self.bank)
    }

    /// Whether the unit asked for exists.
    pub open spec fn unit_in_range(self) -> bool {
        self.index < self.geometry.unit_count(self.bank)
    }

    /// Whether the unit asked for exists and the double words, written from
    /// its start, end within the bank.
    pub open spec fn words_fit(self) -> bool {
        &&& self.unit_in_range()
        &&& 8 * self.words.len() <= (self.geometry.unit_count(self.bank) - self.index)
            * self.geometry.unit_size()
    }

    /// Whether the operation may go on after the stale flags are cleared.
    pub open spec fn target_valid(self) -> bool {
        match self.op {
            Operation::EraseUnit => self.unit_in_range(),
            Operation::Program => self.words_fit(),
            _ => true,
        }
    }

    /// The enable bit of the operation.
    pub open spec fn enable_bit(self) -> ControlBit {
        match self.op {
            Operation::Program => ControlBit::Program,
            Operation::EraseBank => ControlBit::MassErase,
            _ => if self.family() == Family::F4 || self.family() == Family::H7 {
                ControlBit::SectorErase
            } else {
                ControlBit::PageErase
            },
        }
    }

    /// Whether the erase unit is selected through the address register, in a
    /// write of its own.
    pub open spec fn selects_by_address(self) -> bool {
        self.op == Operation::EraseUnit && self.family() == Family::F3
    }

    /// Whether the end of the operation shows in a flag that the driver waits
    /// for.
    pub open spec fn awaits_eop(self) -> bool {
        self.op == Operation::EraseUnit && (self.family() == Family::F3 || self.family()
            == Family::F4)
    }

    /// The write that arms the operation.
    pub open spec fn arm_action(self) -> Action {
        if self.op == Operation::EraseUnit && !self.selects_by_address() {
            Action::SelectUnit { bank: self.block(), enable: self.enable_bit(), unit: self.index as u8 }
        } else {
            Action::SetControl { bank: self.block(), bit: self.enable_bit() }
        }
    }

    /// Where the double word that is being programmed begins.
    pub open spec fn word_address(self) -> int {
        self.geometry.unit_address(self.index as int, self.bank) + 8 * self.next_word
    }

    /// The machine in another phase.
    pub open spec fn at(self, phase: Phase) -> Machine {
        Machine { phase, ..self }
    }

    /// The machine at rest after an operation that ended with `outcome`.
    pub open spec fn finished(self, outcome: Result<(), Error>) -> Machine {
        Machine {
            phase: Phase::Idle,
            flags: Seq::empty(),
            next_flag: 0,
            words: Seq::empty(),
            next_word: 0,
            outcome,
            ..self
        }
    }

    /// The machine at the start of locking, to end with `outcome`.
    pub open spec fn locking(self, outcome: Result<(), Error>) -> Machine {
        Machine { phase: Phase::AwaitIdle, outcome, ..self }
    }

    /// Where the operation goes once the lock bit reads clear.
    pub open spec fn unlocked(self) -> Machine {
        if self.op == Operation::Unlock {
            self.finished(Ok(()))
        } else {
            self.at(Phase::CheckBusy)
        }
    }

    /// Where the operation goes from the stale flags: to the next of them, or,
    /// when all are acknowledged, on to arming; a target out of range is
    /// refused here, before anything is armed.
    pub open spec fn flags_done(self) -> Machine {
        if self.next_flag < self.flags.len() {
            self.at(Phase::ClearFlag)
        } else if self.target_valid() {
            self.at(Phase::Arm)
        } else {
            self.locking(Err(Error::PageOutOfRange))
        }
    }

    /// Where programming goes from here: to the next double word, or, after
    /// the last, to disarming.
    pub open spec fn words_done(self) -> Machine {
        if self.next_word < self.words.len() {
            self.at(Phase::LowWord)
        } else {
            self.at(Phase::Disarm)
        }
    }

    /// The machine with one more double word programmed.
    pub open spec fn word_written(self) -> Machine {
        Machine { next_word: (self.next_word + 1) as usize, ..self }.words_done()
    }

    /// Where the operation goes once the controller is no longer busy with
    /// it, given the status that showed so.
    pub open spec fn completed(self, status: Status) -> Machine {
        if self.op == Operation::Program {
            if stale_flags(self.family(), status).len() > 0 {
                Machine { phase: Phase::Disarm, outcome: Err(Error::Failure), ..self }
            } else if status.eop {
                self.at(Phase::AckEop)
            } else {
                self.word_written()
            }
        } else if self.awaits_eop() {
            if status.eop {
                self.at(Phase::AckEop)
            } else {
                self.at(Phase::AwaitEop)
            }
        } else {
            self.at(Phase::Disarm)
        }
    }

    /// The machine after a read of the control register.
    pub open spec fn on_control(self, locked: bool) -> Machine {
        match self.phase {
            Phase::ProbeLock => if locked {
                self.at(Phase::FirstKey)
            } else {
                self.unlocked()
            },
            Phase::VerifyUnlock => if locked {
                self.finished(Err(Error::Failure))
            } else {
                self.unlocked()
            },
            _ => self,
        }
    }

    /// The machine after a read of the status register.
    pub open spec fn on_status(self, status: Status) -> Machine {
        match self.phase {
            Phase::CheckBusy => if status.busy {
                self.locking(Err(Error::Busy))
            } else {
                self.at(Phase::ReadFlags)
            },
            Phase::ReadFlags => Machine {
                flags: stale_flags(self.family(), status),
                next_flag: 0,
                ..self
            }.flags_done(),
            Phase::AwaitQueue => if status.queue_wait {
                self
            } else {
                self.at(Phase::AwaitBusy)
            },
            Phase::AwaitBusy => if status.busy {
                self
            } else {
                self.completed(status)
            },
            Phase::AwaitEop => if status.eop {
                self.at(Phase::AckEop)
            } else {
                self
            },
            Phase::AwaitIdle => if status.busy {
                self
            } else {
                self.at(Phase::SetLock)
            },
            _ => self,
        }
    }

    /// The machine after a write.
    pub open spec fn on_written(self) -> Machine {
        match self.phase {
            Phase::FirstKey => self.at(Phase::SecondKey),
            Phase::SecondKey => self.at(Phase::VerifyUnlock),
            Phase::ClearFlag => Machine {
                next_flag: (self.next_flag + 1) as usize,
                ..self
            }.flags_done(),
            Phase::Arm => if self.op == Operation::Program {
                self.words_done()
            } else if self.selects_by_address() {
                self.at(Phase::Address)
            } else {
                self.at(Phase::Start)
            },
            Phase::Address => self.at(Phase::Start),
            Phase::Start => if self.family() == Family::H7 {
                self.at(Phase::AwaitQueue)
            } else {
                self.at(Phase::AwaitBusy)
            },
            Phase::LowWord => self.at(Phase::HighWord),
            Phase::HighWord => self.at(Phase::AwaitBusy),
            Phase::AckEop => if self.op == Operation::Program {
                self.word_written()
            } else {
                self.at(Phase::Disarm)
            },
            Phase::Disarm => self.at(Phase::AwaitIdle),
            Phase::SetLock => self.finished(self.outcome),
            _ => self,
        }
    }

    /// Whether the phase belongs to the operation on this generation.
    pub open spec fn phase_fits(self) -> bool {
        let p = self.phase;
        let gate = p is ProbeLock || p is FirstKey || p is SecondKey || p is VerifyUnlock;
        let tail = p is AwaitIdle || p is SetLock;
        let preamble = p is CheckBusy || p is ReadFlags || p is ClearFlag;
        let common = gate || tail || preamble || p is Arm || p is AwaitBusy || p is Disarm;
        p is Idle || match self.op {
            Operation::Unlock => gate,
            Operation::Lock => tail,
            Operation::EraseUnit => {
                ||| common
                ||| p is Start
                ||| p is Address && self.selects_by_address()
                ||| p is AwaitQueue && self.family() == Family::H7
                ||| (p is AwaitEop || p is AckEop) && self.awaits_eop()
            },
            Operation::EraseBank => {
                ||| common
                ||| p is Start
                ||| p is AwaitQueue && self.family() == Family::H7
            },
            Operation::Program => common || p is LowWord || p is HighWord || p is AckEop,
        }
    }

    /// Whether the operation is armed: the target has been found valid.
    pub open spec fn armed(self) -> bool {
        let p = self.phase;
        ||| p is Arm
        ||| p is Address
        ||| p is Start
        ||| p is LowWord
        ||| p is HighWord
        ||| p is AwaitQueue
        ||| p is AwaitBusy
        ||| p is AwaitEop
        ||| p is AckEop
        ||| p is Disarm
    }

    /// Whether a double word is being programmed.
    pub open spec fn in_word(self) -> bool {
        let p = self.phase;
        p is LowWord || p is HighWord || (self.op == Operation::Program && (p is AwaitBusy
            || p is AckEop))
    }

    /// Whether the operation is past its work: it disarms, locks, or is over.
    pub open spec fn closing(self) -> bool {
        let p = self.phase;
        p is Disarm || p is AwaitIdle || p is SetLock || p is Idle
    }

    /// What holds of every machine that the driver reaches.
    pub open spec fn wf(self) -> bool {
        &&& self.geometry.wf()
        &&& self.phase_fits()
        &&& self.next_flag <= self.flags.len() <= 10
        &&& self.next_word <= self.words.len() <= usize::MAX
        &&& self.phase is ClearFlag ==> self.next_flag < self.flags.len()
        &&& self.outcome is Ok || self.closing()
        &&& self.armed() && self.outcome is Ok ==> self.target_valid()
        &&& self.in_word() ==> self.next_word < self.words.len()
        &&& self.phase is Idle ==> self.flags.len() == 0 && self.words.len() == 0
    }
}

/// The machine at the start of an operation.
pub open spec fn begin(
    geometry: Geometry,
    op: Operation,
    bank: Bank,
    index: usize,
    words: Seq<u64>,
) -> Machine {
    Machine {
        geometry,
        op,
        phase: if op == Operation::Lock {
            Phase::AwaitIdle
        } else {
            Phase::ProbeLock
        },
        bank,
        index,
        flags: Seq::empty(),
        next_flag: 0,
        words,
        next_word: 0,
        outcome: Ok(()),
    }
}

/// The machine of a driver that has not been used yet.
pub open spec fn resting(geometry: Geometry) -> Machine {
    begin(geometry, Operation::Lock, Bank::B1, 0, Seq::empty()).finished(Ok(()))
}

/// The machine after an operation was asked for: at the operation's start,
/// or, where another operation is under way, as it was.
pub open spec fn started(
    m: Machine,
    op: Operation,
    bank: Bank,
    index: usize,
    words: Seq<u64>,
) -> Machine {
    if m.phase is Idle {
        begin(m.geometry, op, bank, index, words)
    } else {
        m
    }
}

/// The answer to asking for an operation: its first register access, or,
/// where another operation is under way, a refusal.
pub open spec fn first_action(
    m: Machine,
    op: Operation,
    bank: Bank,
    index: usize,
    words: Seq<u64>,
) -> Action {
    if m.phase is Idle {
        issue(begin(m.geometry, op, bank, index, words))
    } else {
        Action::Done(Err(Error::Busy))
    }
}

/// The register access that the machine asks for; at rest, the result of the
/// operation that ended last.
pub open spec fn issue(m: Machine) -> Action {
    let bank = m.block();
    match m.phase {
        Phase::Idle => Action::Done(m.outcome),
        Phase::ProbeLock | Phase::VerifyUnlock => Action::ReadControl { bank },
        Phase::FirstKey => Action::WriteKey { bank, key: FLASH_KEY1 },
        Phase::SecondKey => Action::WriteKey { bank, key: FLASH_KEY2 },
        Phase::CheckBusy
        | Phase::ReadFlags
        | Phase::AwaitQueue
        | Phase::AwaitBusy
        | Phase::AwaitEop
        | Phase::AwaitIdle => Action::ReadStatus { bank },
        Phase::ClearFlag => Action::ClearFlag {
            bank,
            flag: m.flags[m.next_flag as int],
            ack: ack_register(m.family()),
        },
        Phase::Arm => m.arm_action(),
        Phase::Address => Action::WriteAddress { value: m.index as u32 },
        Phase::Start => Action::SetControl { bank, bit: ControlBit::Start },
        Phase::LowWord => Action::WriteWord {
            address: m.word_address() as usize,
            value: low_half(m.words[m.next_word as int]),
        },
        Phase::HighWord => Action::WriteWord {
            address: (m.word_address() + 4) as usize,
            value: high_half(m.words[m.next_word as int]),
        },
        Phase::AckEop => Action::AcknowledgeEop { bank },
        Phase::Disarm => Action::ClearControl { bank, bit: m.enable_bit() },
        Phase::SetLock => Action::SetControl { bank, bit: ControlBit::Lock },
    }
}

/// The machine after an event. An event that does not answer the access
/// asked for leaves the machine as it is.
pub open spec fn next(m: Machine, event: Event) -> Machine {
    if answers(issue(m), event) {
        match event {
            Event::Control { locked } => m.on_control(locked),
            Event::Status(status) => m.on_status(status),
            Event::Written => m.on_written(),
        }
    } else {
        m
    }
}

/// Every step keeps the machine well formed, its operation and its target.
pub proof fn next_preserves_wf(m: Machine, event: Event)
    requires
        m.wf(),
    ensures
        next(m, event).wf(),
        next(m, event).geometry == m.geometry,
        next(m, event).op == m.op,
        next(m, event).bank == m.bank,
        next(m, event).index == m.index,
{
    broadcast use Seq::lemma_filter_len;

}

} // verus!
