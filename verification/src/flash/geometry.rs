//! Erase-unit geometry and address translation.
//!
//! Paged parts erase in pages of 2 KiB that follow one another from the flash
//! origin. Sectored parts (H7) erase in sectors of 128 KiB, eight to a bank,
//! and each bank has an origin of its own that is looked up, not computed.

use vstd::prelude::*;

verus! {

/// Address at which bank 1, and the flash as a whole, is mapped.
pub const FLASH_ORIGIN: usize = 0x0800_0000;

/// Address at which bank 2 of a sectored part is mapped.
pub const BANK2_ORIGIN: usize = 0x0810_0000;

/// Bytes in a page.
pub const PAGE_SIZE: usize = 2048;

/// Bytes in a sector.
pub const SECTOR_SIZE: usize = 0x2_0000;

/// Sectors in each bank of a sectored part.
pub const SECTORS_PER_BANK: usize = 8;

/// Most erase units a bank can have: the unit-select field is eight bits wide.
pub const MAX_UNITS: usize = 256;

/// A flash bank, with its own register sub-block on dual-bank parts.
#[derive(Clone, Copy, Debug, PartialEq, Eq, Structural)]
pub enum Bank {
    B1,
    B2,
}

/// The controller generations that the driver knows.
#[derive(Clone, Copy, Debug, PartialEq, Eq, Structural)]
pub enum Family {
    F3,
    F4,
    G0,
    G4,
    H7,
    L4,
    Wb,
    Wl,
}

/// Where the given bank begins.
pub open spec fn bank_origin(bank: Bank) -> int {
    match bank {
        Bank::B1 => FLASH_ORIGIN as int,
        Bank::B2 => BANK2_ORIGIN as int,
    }
}

/// Where the given page begins.
pub open spec fn page_address(page: int) -> int {
    FLASH_ORIGIN as int + page * (PAGE_SIZE as int)
}

/// Where the given sector of the given bank begins.
pub open spec fn sector_address(sector: int, bank: Bank) -> int {
    bank_origin(bank) + sector * (SECTOR_SIZE as int)
}

/// Start address of a page. The address must fit the machine word.
pub fn page_to_address(page: usize) -> (address: usize)
    requires
        page_address(page as int) <= usize::MAX,
    ensures
        address == page_address(page as int),
{
    FLASH_ORIGIN + page * PAGE_SIZE
}

/// Start address of a sector of the given bank. The address must fit the
/// machine word.
pub fn sector_to_address(sector: usize, bank: Bank) -> (address: usize)
    requires
        sector_address(sector as int, bank) <= usize::MAX,
    ensures
        address == sector_address(sector as int, bank),
{
    let starting_pt: usize = match bank {
        Bank::B1 => FLASH_ORIGIN,
        Bank::B2 => BANK2_ORIGIN,
    };
    starting_pt + sector * SECTOR_SIZE
}

/// What a part's flash looks like to the driver: its controller generation,
/// how many erase units a bank has, and whether there is a second bank.
#[derive(Clone, Copy, Debug, PartialEq, Eq, Structural)]
pub struct Geometry {
    family: Family,
    units: usize,
    dual_bank: bool,
}

/// Whether a family, a unit count and a bank count go together.
pub open spec fn consistent(family: Family, units: usize, dual_bank: bool) -> bool {
    &&& units <= MAX_UNITS
    &&& family == Family::H7 ==> units == SECTORS_PER_BANK
    &&& dual_bank ==> family == Family::H7
}

impl Geometry {
    pub closed spec fn family(self) -> Family {
        self.family
    }

    /// Erase units in bank 1.
    pub closed spec fn units(self) -> usize {
        self.units
    }

    pub closed spec fn dual_bank(self) -> bool {
        self.dual_bank
    }

    /// Every geometry that [`Geometry::new`] hands out is consistent.
    pub open spec fn wf(self) -> bool {
        consistent(self.family(), self.units(), self.dual_bank())
    }

    /// Erase units in the given bank; none in a bank that the part lacks.
    pub open spec fn unit_count(self, bank: Bank) -> int {
        if bank == Bank::B1 || self.dual_bank() {
            self.units() as int
        } else {
            0
        }
    }

    /// Bytes in one erase unit.
    pub open spec fn unit_size(self) -> int {
        if self.family() == Family::H7 {
            SECTOR_SIZE as int
        } else {
            PAGE_SIZE as int
        }
    }

    /// Where the given unit begins.
    pub open spec fn unit_address(self, index: int, bank: Bank) -> int {
        if self.family() == Family::H7 {
            sector_address(index, bank)
        } else {
            page_address(index)
        }
    }

    /// The register sub-block that serves the given bank: the bank's own on a
    /// dual-bank part, the only one there is otherwise.
    pub open spec fn register_bank(self, bank: Bank) -> Bank {
        if self.dual_bank() {
            bank
        } else {
            Bank::B1
        }
    }

    /// A geometry, where the three values go together: at most 256 units,
    /// eight to a bank on H7, and a second bank on H7 only.
    pub fn new(family: Family, units: usize, dual_bank: bool) -> (geometry: Option<Geometry>)
        ensures
            geometry.is_some() == consistent(family, units, dual_bank),
            geometry matches Some(g) ==> {
                &&& g.wf()
                &&& g.family() == family
                &&& g.units() == units
                &&& g.dual_bank() == dual_bank
            },
    {
        let sectored = matches!(family, Family::H7);
        if units > MAX_UNITS || (sectored && units != SECTORS_PER_BANK) || (dual_bank && !sectored) {
            None
        } else {
            Some(Geometry { family, units, dual_bank })
        }
    }

    pub fn get_family(&self) -> (family: Family)
        ensures
            family == self.family(),
    {
        self.family
    }

    pub fn has_second_bank(&self) -> (dual: bool)
        ensures
            dual == self.dual_bank(),
    {
        self.dual_bank
    }

    /// Erase units in the given bank.
    pub fn units_in(&self, bank: Bank) -> (count: usize)
        ensures
            count == self.unit_count(bank),
    {
        match bank {
            Bank::B1 => self.units,
            Bank::B2 => if self.dual_bank {
                self.units
            } else {
                0
            },
        }
    }

    /// Bytes in one erase unit.
    pub fn bytes_per_unit(&self) -> (size: usize)
        ensures
            size == self.unit_size(),
    {
        match self.family {
            Family::H7 => SECTOR_SIZE,
            _ => PAGE_SIZE,
        }
    }

    /// The register sub-block that serves the given bank.
    pub fn registers_of(&self, bank: Bank) -> (block: Bank)
        ensures
            block == self.register_bank(bank),
    {
        if self.dual_bank {
            bank
        } else {
            Bank::B1
        }
    }

    /// Start address of an erase unit of this part.
    pub fn unit_to_address(&self, index: usize, bank: Bank) -> (address: usize)
        requires
            self.wf(),
            index < self.unit_count(bank),
        ensures
            address == self.unit_address(index as int, bank),
            address + self.unit_size() <= u32::MAX,
    {
        match self.family {
            Family::H7 => sector_to_address(index, bank),
            _ => page_to_address(index),
        }
    }
}

/// Within a bank, a later sector lies at a higher address.
pub proof fn sector_address_increases(i: int, j: int, bank: Bank)
    requires
        i < j,
    ensures
        sector_address(i, bank) < sector_address(j, bank),
{
}

/// A later page lies at a higher address.
pub proof fn page_address_increases(i: int, j: int)
    requires
        i < j,
    ensures
        page_address(i) < page_address(j),
{
}

/// Two pages that begin at the same address are the same page.
pub proof fn page_address_is_injective(i: int, j: int)
    requires
        page_address(i) == page_address(j),
    ensures
        i == j,
{
}

/// Two sectors of a dual-bank part that begin at the same address are the same
/// sector of the same bank: the banks do not overlap.
pub proof fn sector_address_is_injective(i: int, a: Bank, j: int, b: Bank)
    requires
        0 <= i < SECTORS_PER_BANK,
        0 <= j < SECTORS_PER_BANK,
        sector_address(i, a) == sector_address(j, b),
    ensures
        i == j,
        a == b,
{
}

/// On any part, a later unit of a bank lies at a higher address, and two units
/// in range that begin at the same address are the same unit of the same bank.
pub proof fn unit_address_is_injective_and_increasing(
    geometry: Geometry,
    i: int,
    a: Bank,
    j: int,
    b: Bank,
)
    requires
        geometry.wf(),
        0 <= i < geometry.unit_count(a),
        0 <= j < geometry.unit_count(b),
    ensures
        a == b && i < j ==> geometry.unit_address(i, a) < geometry.unit_address(j, b),
        geometry.unit_address(i, a) == geometry.unit_address(j, b) ==> i == j && a == b,
{
}

} // verus!
