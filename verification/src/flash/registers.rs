//! The register interface, by field name.
//!
//! The driver never sees a register's bits. It names the field it wants set or
//! cleared, and is told what a read found, field by field; how the fields lie
//! in the registers is the platform layer's business.

use super::geometry::{Bank, Family};
use vstd::prelude::*;

verus! {

/// First word of the unlock handshake.
pub const FLASH_KEY1: u32 = 0x4567_0123;

/// Second word of the unlock handshake.
pub const FLASH_KEY2: u32 = 0xCDEF_89AB;

/// The error flags of the status registers, all generations together.
#[derive(Clone, Copy, Debug, PartialEq, Eq, Structural)]
pub enum ErrorFlag {
    /// Write protection (F3).
    Wrprterr,
    /// Programming (F3).
    Pgerr,
    /// Programming sequence.
    Pgserr,
    /// Programming parallelism (F4).
    Pgperr,
    /// Programming alignment.
    Pgaerr,
    /// Write protection.
    Wrperr,
    /// Operation.
    Operr,
    /// Option validity.
    Optverr,
    /// Read protection.
    Rderr,
    /// Fast programming.
    Fasterr,
    /// Fast programming data miss.
    Miserr,
    /// Size.
    Sizerr,
    /// Programming of a cell that was not erased.
    Progerr,
    /// ECC double detection (H7).
    Dbeccerr,
    /// ECC single correction (H7).
    Sneccerr,
    /// Secure read (H7).
    Rdserr,
    /// Read protection (H7).
    Rdperr,
    /// Inconsistency (H7).
    Incerr,
    /// Strobe (H7).
    Strberr,
}

/// What a read of a status register found.
#[derive(Clone, Copy, Debug, PartialEq, Eq, Structural)]
pub struct Status {
    /// An operation is in progress.
    pub busy: bool,
    /// An operation waits in the command queue (H7).
    pub queue_wait: bool,
    /// An operation has ended.
    pub eop: bool,
    pub wrprterr: bool,
    pub pgerr: bool,
    pub pgserr: bool,
    pub pgperr: bool,
    pub pgaerr: bool,
    pub wrperr: bool,
    pub operr: bool,
    pub optverr: bool,
    pub rderr: bool,
    pub fasterr: bool,
    pub miserr: bool,
    pub sizerr: bool,
    pub progerr: bool,
    pub dbeccerr: bool,
    pub sneccerr: bool,
    pub rdserr: bool,
    pub rdperr: bool,
    pub incerr: bool,
    pub strberr: bool,
}

impl Status {
    /// Whether the given error flag was found asserted.
    pub open spec fn asserted(self, flag: ErrorFlag) -> bool {
        match flag {
            ErrorFlag::Wrprterr => self.wrprterr,
            ErrorFlag::Pgerr => self.pgerr,
            ErrorFlag::Pgserr => self.pgserr,
            ErrorFlag::Pgperr => self.pgperr,
            ErrorFlag::Pgaerr => self.pgaerr,
            ErrorFlag::Wrperr => self.wrperr,
            ErrorFlag::Operr => self.operr,
            ErrorFlag::Optverr => self.optverr,
            ErrorFlag::Rderr => self.rderr,
            ErrorFlag::Fasterr => self.fasterr,
            ErrorFlag::Miserr => self.miserr,
            ErrorFlag::Sizerr => self.sizerr,
            ErrorFlag::Progerr => self.progerr,
            ErrorFlag::Dbeccerr => self.dbeccerr,
            ErrorFlag::Sneccerr => self.sneccerr,
            ErrorFlag::Rdserr => self.rdserr,
            ErrorFlag::Rdperr => self.rdperr,
            ErrorFlag::Incerr => self.incerr,
            ErrorFlag::Strberr => self.strberr,
        }
    }

    /// The status of a controller at rest: no flag asserted.
    pub open spec fn quiet() -> Status {
        Status {
            busy: false,
            queue_wait: false,
            eop: false,
            wrprterr: false,
            pgerr: false,
            pgserr: false,
            pgperr: false,
            pgaerr: false,
            wrperr: false,
            operr: false,
            optverr: false,
            rderr: false,
            fasterr: false,
            miserr: false,
            sizerr: false,
            progerr: false,
            dbeccerr: false,
            sneccerr: false,
            rdserr: false,
            rdperr: false,
            incerr: false,
            strberr: false,
        }
    }

    /// A status with no flag asserted.
    pub fn clear() -> (status: Status)
        ensures
            status == Status::quiet(),
    {
        Status {
            busy: false,
            queue_wait: false,
            eop: false,
            wrprterr: false,
            pgerr: false,
            pgserr: false,
            pgperr: false,
            pgaerr: false,
            wrperr: false,
            operr: false,
            optverr: false,
            rderr: false,
            fasterr: false,
            miserr: false,
            sizerr: false,
            progerr: false,
            dbeccerr: false,
            sneccerr: false,
            rdserr: false,
            rdperr: false,
            incerr: false,
            strberr: false,
        }
    }

    /// Whether the given error flag was found asserted.
    pub fn is_asserted(&self, flag: ErrorFlag) -> (set: bool)
        ensures
            set == self.asserted(flag),
    {
        match flag {
            ErrorFlag::Wrprterr => self.wrprterr,
            ErrorFlag::Pgerr => self.pgerr,
            ErrorFlag::Pgserr => self.pgserr,
            ErrorFlag::Pgperr => self.pgperr,
            ErrorFlag::Pgaerr => self.pgaerr,
            ErrorFlag::Wrperr => self.wrperr,
            ErrorFlag::Operr => self.operr,
            ErrorFlag::Optverr => self.optverr,
            ErrorFlag::Rderr => self.rderr,
            ErrorFlag::Fasterr => self.fasterr,
            ErrorFlag::Miserr => self.miserr,
            ErrorFlag::Sizerr => self.sizerr,
            ErrorFlag::Progerr => self.progerr,
            ErrorFlag::Dbeccerr => self.dbeccerr,
            ErrorFlag::Sneccerr => self.sneccerr,
            ErrorFlag::Rdserr => self.rdserr,
            ErrorFlag::Rdperr => self.rdperr,
            ErrorFlag::Incerr => self.incerr,
            ErrorFlag::Strberr => self.strberr,
        }
    }
}

/// How an error flag is acknowledged.
#[derive(Clone, Copy, Debug, PartialEq, Eq, Structural)]
pub enum AckRegister {
    /// Read the status register, set the flag's bit, write it back.
    StatusModify,
    /// Write the status register with the flag's bit alone.
    StatusWrite,
    /// Write the clear-control register with the flag's clear bit alone.
    ClearControl,
}

/// The fields of a control register that the driver sets and clears.
#[derive(Clone, Copy, Debug, PartialEq, Eq, Structural)]
pub enum ControlBit {
    Lock,
    /// Page erase enable.
    PageErase,
    /// Sector erase enable.
    SectorErase,
    /// Mass erase, or bank erase, enable.
    MassErase,
    Start,
    /// Programming enable.
    Program,
}

/// The error flags that a generation defines, in the order in which the
/// driver looks for them.
pub open spec fn error_flags(family: Family) -> Seq<ErrorFlag> {
    match family {
        Family::F3 => seq![ErrorFlag::Wrprterr, ErrorFlag::Pgerr],
        Family::F4 => seq![
            ErrorFlag::Pgserr,
            ErrorFlag::Pgperr,
            ErrorFlag::Pgaerr,
            ErrorFlag::Wrperr,
            ErrorFlag::Operr,
        ],
        Family::H7 => seq![
            ErrorFlag::Dbeccerr,
            ErrorFlag::Sneccerr,
            ErrorFlag::Rdserr,
            ErrorFlag::Rdperr,
            ErrorFlag::Operr,
            ErrorFlag::Incerr,
            ErrorFlag::Strberr,
            ErrorFlag::Pgserr,
            ErrorFlag::Wrperr,
        ],
        Family::Wl => seq![
            ErrorFlag::Optverr,
            ErrorFlag::Rderr,
            ErrorFlag::Fasterr,
            ErrorFlag::Pgserr,
            ErrorFlag::Sizerr,
            ErrorFlag::Pgaerr,
            ErrorFlag::Wrperr,
            ErrorFlag::Progerr,
            ErrorFlag::Operr,
        ],
        Family::G0 | Family::G4 | Family::L4 | Family::Wb => seq![
            ErrorFlag::Optverr,
            ErrorFlag::Rderr,
            ErrorFlag::Fasterr,
            ErrorFlag::Miserr,
            ErrorFlag::Pgserr,
            ErrorFlag::Sizerr,
            ErrorFlag::Pgaerr,
            ErrorFlag::Wrperr,
            ErrorFlag::Progerr,
            ErrorFlag::Operr,
        ],
    }
}

/// How a generation acknowledges its error flags.
pub open spec fn ack_register(family: Family) -> AckRegister {
    match family {
        Family::F3 | Family::F4 => AckRegister::StatusModify,
        Family::H7 => AckRegister::ClearControl,
        _ => AckRegister::StatusWrite,
    }
}

/// The error flags of the generation that a status read found asserted, in
/// the generation's order.
pub open spec fn stale_flags(family: Family, status: Status) -> Seq<ErrorFlag> {
    error_flags(family).filter(|flag: ErrorFlag| status.asserted(flag))
}

/// The error flags that a generation defines.
pub fn error_flags_of(family: Family) -> (flags: Vec<ErrorFlag>)
    ensures
        flags@ == error_flags(family),
{
    let flags = match family {
        Family::F3 => vec![ErrorFlag::Wrprterr, ErrorFlag::Pgerr],
        Family::F4 => vec![
            ErrorFlag::Pgserr,
            ErrorFlag::Pgperr,
            ErrorFlag::Pgaerr,
            ErrorFlag::Wrperr,
            ErrorFlag::Operr,
        ],
        Family::H7 => vec![
            ErrorFlag::Dbeccerr,
            ErrorFlag::Sneccerr,
            ErrorFlag::Rdserr,
            ErrorFlag::Rdperr,
            ErrorFlag::Operr,
            ErrorFlag::Incerr,
            ErrorFlag::Strberr,
            ErrorFlag::Pgserr,
            ErrorFlag::Wrperr,
        ],
        Family::Wl => vec![
            ErrorFlag::Optverr,
            ErrorFlag::Rderr,
            ErrorFlag::Fasterr,
            ErrorFlag::Pgserr,
            ErrorFlag::Sizerr,
            ErrorFlag::Pgaerr,
            ErrorFlag::Wrperr,
            ErrorFlag::Progerr,
            ErrorFlag::Operr,
        ],
        Family::G0 | Family::G4 | Family::L4 | Family::Wb => vec![
            ErrorFlag::Optverr,
            ErrorFlag::Rderr,
            ErrorFlag::Fasterr,
            ErrorFlag::Miserr,
            ErrorFlag::Pgserr,
            ErrorFlag::Sizerr,
            ErrorFlag::Pgaerr,
            ErrorFlag::Wrperr,
            ErrorFlag::Progerr,
            ErrorFlag::Operr,
        ],
    };
    assert(flags@ =~= error_flags(family));
    flags
}

/// How a generation acknowledges its error flags.
pub fn ack_register_of(family: Family) -> (register: AckRegister)
    ensures
        register == ack_register(family),
{
    match family {
        Family::F3 | Family::F4 => AckRegister::StatusModify,
        Family::H7 => AckRegister::ClearControl,
        _ => AckRegister::StatusWrite,
    }
}

/// The error flags to acknowledge after a status read: every flag of the
/// generation that the read found asserted, each once, in the generation's
/// order. On a controller at rest there are none.
pub fn clear_error_flags(family: Family, status: &Status) -> (stale: Vec<ErrorFlag>)
    ensures
        stale@ == stale_flags(family, *status),
{
    let defined = error_flags_of(family);
    let ghost asserted = |flag: ErrorFlag| status.asserted(flag);
    let mut stale: Vec<ErrorFlag> = Vec::new();
    let mut i: usize = 0;
    proof {
        reveal(Seq::filter);
        assert(defined@.take(0).filter(asserted) =~= Seq::<ErrorFlag>::empty());
    }
    while i < defined.len()
        invariant
            i <= defined.len(),
            asserted == |flag: ErrorFlag| status.asserted(flag),
            stale@ == defined@.take(i as int).filter(asserted),
        decreases defined.len() - i,
    {
        let flag = defined[i];
        proof {
            assert(defined@.take(i + 1) =~= defined@.take(i as int).push(flag));
            defined@.take(i as int).lemma_filter_push(flag, asserted);
        }
        if status.is_asserted(flag) {
            stale.push(flag);
        }
        i += 1;
    }
    assert(defined@.take(i as int) =~= defined@);
    stale
}

/// What the platform layer is asked to do next.
#[derive(Clone, Copy, Debug, PartialEq, Eq)]
pub enum Action {
    /// Read the control register and report the lock bit.
    ReadControl { bank: Bank },
    /// Read the status register and report its flags.
    ReadStatus { bank: Bank },
    /// Write a word to the key register.
    WriteKey { bank: Bank, key: u32 },
    /// Set one bit of the control register, leaving the others.
    SetControl { bank: Bank, bit: ControlBit },
    /// Clear one bit of the control register, leaving the others.
    ClearControl { bank: Bank, bit: ControlBit },
    /// In one write of the control register, put the unit number into the
    /// unit-select field and set the erase enable bit.
    SelectUnit { bank: Bank, enable: ControlBit, unit: u8 },
    /// Write the address register (F3).
    WriteAddress { value: u32 },
    /// Acknowledge one error flag.
    ClearFlag { bank: Bank, flag: ErrorFlag, ack: AckRegister },
    /// Acknowledge the end-of-operation flag.
    AcknowledgeEop { bank: Bank },
    /// Write a 32-bit word into the flash address space.
    WriteWord { address: usize, value: u32 },
    /// Nothing: the operation has ended, with this result.
    Done(Result<(), Error>),
}

/// What the platform layer hands back after an action.
#[derive(Clone, Copy, Debug, PartialEq, Eq, Structural)]
pub enum Event {
    /// A control register was read.
    Control { locked: bool },
    /// A status register was read.
    Status(Status),
    /// A write was made.
    Written,
}

/// Possible error states for flash operations.
#[derive(Clone, Copy, Debug, PartialEq, Eq, Structural)]
pub enum Error {
    /// The controller, or the driver, is not done with an earlier operation.
    Busy,
    /// Error detected (by command execution, or because no command could be executed).
    Illegal,
    /// Set during read if ECC decoding logic detects correctable or uncorrectable error.
    EccError,
    /// Page number is out of range.
    PageOutOfRange,
    /// (Legal) command failed.
    Failure,
}

/// Whether an event is what the action returns.
pub open spec fn answers(action: Action, event: Event) -> bool {
    match action {
        Action::ReadControl { .. } => event is Control,
        Action::ReadStatus { .. } => event is Status,
        Action::Done(_) => false,
        _ => event is Written,
    }
}

} // verus!
