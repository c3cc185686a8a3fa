//! The driver itself: the protocol in executable form.
//!
//! An operation is asked for by its method, which returns the first register
//! access. The platform layer performs the access and calls [`Flash::resume`]
//! with what came of it, until the answer is [`Action::Done`].

use super::geometry::{Bank, Family, Geometry, PAGE_SIZE, SECTOR_SIZE};
use super::protocol::{
    first_action, high_half, issue, low_half, next, resting, started, Machine, Operation, Phase,
};
use super::registers::{
    ack_register_of, clear_error_flags, Action, ControlBit, Error, ErrorFlag, Event, Status,
    FLASH_KEY1, FLASH_KEY2,
};
use vstd::prelude::*;
use vstd::slice::slice_to_vec;

verus! {

/// The low 32 bits of a double word.
pub fn low_word(word: u64) -> (half: u32)
    ensures
        half == low_half(word),
{
    assert(word & 0xFFFF_FFFF <= 0xFFFF_FFFF) by (bit_vector);
    (word & 0xFFFF_FFFF) as u32
}

/// The high 32 bits of a double word.
pub fn high_word(word: u64) -> (half: u32)
    ensures
        half == high_half(word),
{
    assert(word >> 32 <= 0xFFFF_FFFF) by (bit_vector);
    (word >> 32) as u32
}

/// Exclusive handle on the flash controller of one part.
///
/// The handle holds the operation that is under way, if any. While one is,
/// asking for another is answered with `Done(Err(Busy))` and changes nothing.
/// Polling has no bound of its own: every poll is one call of
/// [`Flash::resume`], so the platform layer may count them.
pub struct Flash {
    geometry: Geometry,
    op: Operation,
    phase: Phase,
    bank: Bank,
    index: usize,
    flags: Vec<ErrorFlag>,
    next_flag: usize,
    words: Vec<u64>,
    next_word: usize,
    outcome: Result<(), Error>,
}

impl View for Flash {
    type V = Machine;

    closed spec fn view(&self) -> Machine {
        Machine {
            geometry: self.geometry,
            op: self.op,
            phase: self.phase,
            bank: self.bank,
            index: self.index,
            flags: self.flags@,
            next_flag: self.next_flag,
            words: self.words@,
            next_word: self.next_word,
            outcome: self.outcome,
        }
    }
}

impl Flash {
    /// What holds of every handle.
    pub open spec fn wf(&self) -> bool {
        self@.wf()
    }

    /// Create a handle used to perform operations on the flash of a part
    /// with the given geometry.
    pub fn new(geometry: Geometry) -> (flash: Flash)
        requires
            geometry.wf(),
        ensures
            flash@ == resting(geometry),
            flash.wf(),
    {
        Flash {
            geometry,
            op: Operation::Lock,
            phase: Phase::Idle,
            bank: Bank::B1,
            index: 0,
            flags: Vec::new(),
            next_flag: 0,
            words: Vec::new(),
            next_word: 0,
            outcome: Ok(()),
        }
    }

    /// The geometry that the handle was made with.
    pub fn geometry(&self) -> (geometry: Geometry)
        ensures
            geometry == self@.geometry,
    {
        self.geometry
    }

    /// Whether no operation is under way.
    pub fn is_idle(&self) -> (idle: bool)
        ensures
            idle == (self@.phase is Idle),
    {
        matches!(self.phase, Phase::Idle)
    }

    fn go(&mut self, phase: Phase)
        ensures
            final(self)@ == old(self)@.at(phase),
    {
        self.phase = phase;
    }

    fn finish(&mut self, outcome: Result<(), Error>)
        ensures
            final(self)@ == old(self)@.finished(outcome),
    {
        self.phase = Phase::Idle;
        self.flags = Vec::new();
        self.next_flag = 0;
        self.words = Vec::new();
        self.next_word = 0;
        self.outcome = outcome;
    }

    fn begin_locking(&mut self, outcome: Result<(), Error>)
        ensures
            final(self)@ == old(self)@.locking(outcome),
    {
        self.phase = Phase::AwaitIdle;
        self.outcome = outcome;
    }

    fn unlocked(&mut self)
        ensures
            final(self)@ == old(self)@.unlocked(),
    {
        match self.op {
            Operation::Unlock => self.finish(Ok(())),
            _ => self.go(Phase::CheckBusy),
        }
    }

    fn unit_in_range(&self) -> (ok: bool)
        ensures
            ok == self@.unit_in_range(),
    {
        self.index < self.geometry.units_in(self.bank)
    }

    fn words_fit(&self) -> (ok: bool)
        requires
            self@.geometry.wf(),
        ensures
            ok == self@.words_fit(),
    {
        let count = self.geometry.units_in(self.bank);
        if self.index >= count {
            false
        } else {
            let room: usize = match self.geometry.get_family() {
                Family::H7 => (count - self.index) * SECTOR_SIZE,
                _ => (count - self.index) * PAGE_SIZE,
            };
            self.words.len() <= room / 8
        }
    }

    fn target_valid(&self) -> (ok: bool)
        requires
            self@.geometry.wf(),
        ensures
            ok == self@.target_valid(),
    {
        match self.op {
            Operation::EraseUnit => self.unit_in_range(),
            Operation::Program => self.words_fit(),
            _ => true,
        }
    }

    fn flags_done(&mut self)
        requires
            old(self)@.geometry.wf(),
        ensures
            final(self)@ == old(self)@.flags_done(),
    {
        if self.next_flag < self.flags.len() {
            self.go(Phase::ClearFlag);
        } else if self.target_valid() {
            self.go(Phase::Arm);
        } else {
            self.begin_locking(Err(Error::PageOutOfRange));
        }
    }

    fn words_done(&mut self)
        ensures
            final(self)@ == old(self)@.words_done(),
    {
        if self.next_word < self.words.len() {
            self.go(Phase::LowWord);
        } else {
            self.go(Phase::Disarm);
        }
    }

    fn word_written(&mut self)
        requires
            old(self)@.next_word < old(self)@.words.len(),
        ensures
            final(self)@ == old(self)@.word_written(),
    {
        assert(self.next_word < self.words.len());
        self.next_word = self.next_word + 1;
        self.words_done();
    }

    fn selects_by_address(&self) -> (yes: bool)
        ensures
            yes == self@.selects_by_address(),
    {
        matches!(self.op, Operation::EraseUnit) && matches!(self.geometry.get_family(), Family::F3)
    }

    fn awaits_eop(&self) -> (yes: bool)
        ensures
            yes == self@.awaits_eop(),
    {
        matches!(self.op, Operation::EraseUnit) && matches!(
            self.geometry.get_family(),
            Family::F3 | Family::F4
        )
    }

    fn enable_bit(&self) -> (bit: ControlBit)
        ensures
            bit == self@.enable_bit(),
    {
        match self.op {
            Operation::Program => ControlBit::Program,
            Operation::EraseBank => ControlBit::MassErase,
            _ => match self.geometry.get_family() {
                Family::F4 | Family::H7 => ControlBit::SectorErase,
                _ => ControlBit::PageErase,
            },
        }
    }

    fn completed(&mut self, status: &Status)
        requires
            old(self).wf(),
            old(self)@.phase is AwaitBusy,
        ensures
            final(self)@ == old(self)@.completed(*status),
    {
        if matches!(self.op, Operation::Program) {
            let failed = clear_error_flags(self.geometry.get_family(), status);
            if failed.len() > 0 {
                self.phase = Phase::Disarm;
                self.outcome = Err(Error::Failure);
            } else if status.eop {
                self.go(Phase::AckEop);
            } else {
                self.word_written();
            }
        } else if self.awaits_eop() {
            if status.eop {
                self.go(Phase::AckEop);
            } else {
                self.go(Phase::AwaitEop);
            }
        } else {
            self.go(Phase::Disarm);
        }
    }

    fn on_control(&mut self, locked: bool)
        ensures
            final(self)@ == old(self)@.on_control(locked),
    {
        match self.phase {
            Phase::ProbeLock => if locked {
                self.go(Phase::FirstKey);
            } else {
                self.unlocked();
            },
            Phase::VerifyUnlock => if locked {
                self.finish(Err(Error::Failure));
            } else {
                self.unlocked();
            },
            _ => {},
        }
    }

    fn on_status(&mut self, status: &Status)
        requires
            old(self).wf(),
        ensures
            final(self)@ == old(self)@.on_status(*status),
    {
        match self.phase {
            Phase::CheckBusy => if status.busy {
                self.begin_locking(Err(Error::Busy));
            } else {
                self.go(Phase::ReadFlags);
            },
            Phase::ReadFlags => {
                self.flags = clear_error_flags(self.geometry.get_family(), status);
                self.next_flag = 0;
                self.flags_done();
            },
            Phase::AwaitQueue => if !status.queue_wait {
                self.go(Phase::AwaitBusy);
            },
            Phase::AwaitBusy => if !status.busy {
                self.completed(status);
            },
            Phase::AwaitEop => if status.eop {
                self.go(Phase::AckEop);
            },
            Phase::AwaitIdle => if !status.busy {
                self.go(Phase::SetLock);
            },
            _ => {},
        }
    }

    fn on_written(&mut self)
        requires
            old(self).wf(),
        ensures
            final(self)@ == old(self)@.on_written(),
    {
        match self.phase {
            Phase::FirstKey => self.go(Phase::SecondKey),
            Phase::SecondKey => self.go(Phase::VerifyUnlock),
            Phase::ClearFlag => {
                self.next_flag = self.next_flag + 1;
                self.flags_done();
            },
            Phase::Arm => if matches!(self.op, Operation::Program) {
                self.words_done();
            } else if self.selects_by_address() {
                self.go(Phase::Address);
            } else {
                self.go(Phase::Start);
            },
            Phase::Address => self.go(Phase::Start),
            Phase::Start => match self.geometry.get_family() {
                Family::H7 => self.go(Phase::AwaitQueue),
                _ => self.go(Phase::AwaitBusy),
            },
            Phase::LowWord => self.go(Phase::HighWord),
            Phase::HighWord => self.go(Phase::AwaitBusy),
            Phase::AckEop => if matches!(self.op, Operation::Program) {
                self.word_written();
            } else {
                self.go(Phase::Disarm);
            },
            Phase::Disarm => self.go(Phase::AwaitIdle),
            Phase::SetLock => {
                let outcome = self.outcome;
                self.finish(outcome);
            },
            _ => {},
        }
    }

    fn word_address(&self) -> (address: usize)
        requires
            self.wf(),
            self@.in_word(),
        ensures
            address == self@.word_address(),
            address + 8 <= u32::MAX,
    {
        let base = self.geometry.unit_to_address(self.index, self.bank);
        proof {
            let count = self@.geometry.unit_count(self.bank);
            let spare = count - self.index;
            assert(self@.words_fit());
            assert(8 * self.next_word + 8 <= spare * self@.geometry.unit_size());
            if self@.geometry.family() == Family::H7 {
                assert(spare * SECTOR_SIZE == count * SECTOR_SIZE - self.index * SECTOR_SIZE);
            } else {
                assert(spare * PAGE_SIZE == count * PAGE_SIZE - self.index * PAGE_SIZE);
            }
        }
        base + 8 * self.next_word
    }

    /// The register access that the driver waits on; at rest, the result of
    /// the operation that ended last.
    pub fn pending(&self) -> (action: Action)
        requires
            self.wf(),
        ensures
            action == issue(self@),
    {
        let bank = self.geometry.registers_of(self.bank);
        match self.phase {
            Phase::Idle => Action::Done(self.outcome),
            Phase::ProbeLock | Phase::VerifyUnlock => Action::ReadControl { bank },
            Phase::FirstKey => Action::WriteKey { bank, key: FLASH_KEY1 },
            Phase::SecondKey => Action::WriteKey { bank, key: FLASH_KEY2 },
            Phase::CheckBusy
            | Phase::ReadFlags
            | Phase::AwaitQueue
            | Phase::AwaitBusy
            | Phase::AwaitEop
            | Phase::AwaitIdle => Action::ReadStatus { bank },
            Phase::ClearFlag => Action::ClearFlag {
                bank,
                flag: self.flags[self.next_flag],
                ack: ack_register_of(self.geometry.get_family()),
            },
            Phase::Arm => if matches!(self.op, Operation::EraseUnit) && !self.selects_by_address() {
                Action::SelectUnit { bank, enable: self.enable_bit(), unit: self.index as u8 }
            } else {
                Action::SetControl { bank, bit: self.enable_bit() }
            },
            Phase::Address => Action::WriteAddress { value: self.index as u32 },
            Phase::Start => Action::SetControl { bank, bit: ControlBit::Start },
            Phase::LowWord => Action::WriteWord {
                address: self.word_address(),
                value: low_word(self.words[self.next_word]),
            },
            Phase::HighWord => Action::WriteWord {
                address: self.word_address() + 4,
                value: high_word(self.words[self.next_word]),
            },
            Phase::AckEop => Action::AcknowledgeEop { bank },
            Phase::Disarm => Action::ClearControl { bank, bit: self.enable_bit() },
            Phase::SetLock => Action::SetControl { bank, bit: ControlBit::Lock },
        }
    }

    /// Take what the last register access returned, and name the next. An
    /// event that does not answer the access asked for changes nothing: the
    /// same access is asked for again.
    pub fn resume(&mut self, event: Event) -> (action: Action)
        requires
            old(self).wf(),
        ensures
            final(self)@ == next(old(self)@, event),
            action == issue(final(self)@),
            final(self).wf(),
    {
        match event {
            Event::Control { locked } => self.on_control(locked),
            Event::Status(status) => self.on_status(&status),
            Event::Written => self.on_written(),
        }
        proof {
            super::protocol::next_preserves_wf(old(self)@, event);
        }
        self.pending()
    }

    fn start(&mut self, op: Operation, bank: Bank, index: usize, words: Vec<u64>) -> (action:
        Action)
        requires
            old(self).wf(),
        ensures
            final(self)@ == started(old(self)@, op, bank, index, words@),
            action == first_action(old(self)@, op, bank, index, words@),
            final(self).wf(),
    {
        if !self.is_idle() {
            return Action::Done(Err(Error::Busy));
        }
        self.op = op;
        self.phase = match op {
            Operation::Lock => Phase::AwaitIdle,
            _ => Phase::ProbeLock,
        };
        self.bank = bank;
        self.index = index;
        self.flags = Vec::new();
        self.next_flag = 0;
        assert(words@.len() == words.len());
        self.words = words;
        self.next_word = 0;
        self.outcome = Ok(());
        self.pending()
    }

    /// Unlock the flash memory, allowing writes.
    ///
    /// Reads the lock bit of bank 1. Where it is clear, the operation ends at
    /// once with success. Otherwise the two keys are written, the first and
    /// then the second with nothing in between, and the lock bit is read
    /// again: clear is success, set is `Failure`.
    pub fn unlock(&mut self) -> (action: Action)
        requires
            old(self).wf(),
        ensures
            final(self)@ == started(old(self)@, Operation::Unlock, Bank::B1, 0, Seq::empty()),
            action == first_action(old(self)@, Operation::Unlock, Bank::B1, 0, Seq::empty()),
            final(self).wf(),
    {
        self.start(Operation::Unlock, Bank::B1, 0, Vec::new())
    }

    /// Lock the flash memory: poll the status of bank 1 until the controller
    /// is no longer busy, then set the lock bit.
    pub fn lock(&mut self) -> (action: Action)
        requires
            old(self).wf(),
        ensures
            final(self)@ == started(old(self)@, Operation::Lock, Bank::B1, 0, Seq::empty()),
            action == first_action(old(self)@, Operation::Lock, Bank::B1, 0, Seq::empty()),
            final(self).wf(),
    {
        self.start(Operation::Lock, Bank::B1, 0, Vec::new())
    }

    /// Erase an entire page of bank 1.
    ///
    /// Opens the lock gate, checks that the controller is not busy, clears
    /// the stale error flags, and only then looks at the page: one that the
    /// part does not have is refused with `PageOutOfRange` before anything
    /// is armed. Otherwise the page is selected and the erase enabled, the
    /// erase is started in a write of its own, and the status is polled until
    /// the erase has ended. Once the controller is unlocked, every way out
    /// sets the lock again.
    pub fn erase_page(&mut self, page: usize) -> (action: Action)
        requires
            old(self).wf(),
        ensures
            final(self)@ == started(old(self)@, Operation::EraseUnit, Bank::B1, page, Seq::empty()),
            action == first_action(
                old(self)@,
                Operation::EraseUnit,
                Bank::B1,
                page,
                Seq::empty(),
            ),
            final(self).wf(),
    {
        self.start(Operation::EraseUnit, Bank::B1, page, Vec::new())
    }

    /// Erase a sector of the given bank, through the registers of that bank.
    /// A sector of a bank that the part lacks is out of range. The steps are
    /// those of [`Flash::erase_page`].
    pub fn erase_sector(&mut self, sector: usize, bank: Bank) -> (action: Action)
        requires
            old(self).wf(),
        ensures
            final(self)@ == started(old(self)@, Operation::EraseUnit, bank, sector, Seq::empty()),
            action == first_action(old(self)@, Operation::EraseUnit, bank, sector, Seq::empty()),
            final(self).wf(),
    {
        self.start(Operation::EraseUnit, bank, sector, Vec::new())
    }

    /// Erase a whole bank (a mass erase, on a part with one bank). On a part
    /// without a second bank the bank is not looked at: the one there is
    /// gets erased.
    pub fn erase_bank(&mut self, bank: Bank) -> (action: Action)
        requires
            old(self).wf(),
        ensures
            final(self)@ == started(old(self)@, Operation::EraseBank, bank, 0, Seq::empty()),
            action == first_action(old(self)@, Operation::EraseBank, bank, 0, Seq::empty()),
            final(self).wf(),
    {
        self.start(Operation::EraseBank, bank, 0, Vec::new())
    }

    /// Write double words from the start of a page of bank 1. The page must
    /// have been erased first.
    ///
    /// After the same preamble as for an erase, the page and the length are
    /// looked at: the double words must end within the bank, or the call is
    /// refused with `PageOutOfRange`. Each double word is written as two
    /// 32-bit words, the low half first, and the next is not begun before the
    /// status has shown the controller idle again. If that status shows an
    /// error flag, nothing more is written and the call ends with `Failure`.
    pub fn write_page(&mut self, page: usize, data: &[u64]) -> (action: Action)
        requires
            old(self).wf(),
        ensures
            final(self)@ == started(old(self)@, Operation::Program, Bank::B1, page, data@),
            action == first_action(old(self)@, Operation::Program, Bank::B1, page, data@),
            final(self).wf(),
    {
        let words = slice_to_vec(data);
        self.start(Operation::Program, Bank::B1, page, words)
    }
}

} // verus!
