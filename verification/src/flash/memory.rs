//! Reading the flash.
//!
//! The flash is mapped into the address space, and reading it takes no part
//! of the controller protocol. The platform layer hands in the mapped bytes,
//! from the flash origin on; what is read, and from where, is decided here.

use super::driver::Flash;
use super::geometry::{Bank, Family, Geometry, FLASH_ORIGIN, PAGE_SIZE, SECTOR_SIZE};
use super::laws::{
    accesses, answered, ended, out_of_range_is_refused_unarmed, planned_value, planned_writes, run,
    word_writes, words_are_written_in_order,
};
use super::protocol::{begin, high_half, low_half, Operation};
use super::registers::{Action, Error, Event};
use vstd::prelude::*;

verus! {

/// The double word that eight bytes hold, the lowest byte first.
pub open spec fn word_from_bytes(bytes: Seq<u8>) -> u64 {
    (bytes[0] as u64) | (bytes[1] as u64) << 8 | (bytes[2] as u64) << 16 | (bytes[3] as u64) << 24
        | (bytes[4] as u64) << 32 | (bytes[5] as u64) << 40 | (bytes[6] as u64) << 48 | (
    bytes[7] as u64) << 56
}

/// The four bytes that a 32-bit word is stored as, the lowest byte first.
pub open spec fn word_bytes(value: u32) -> Seq<u8> {
    seq![
        (value & 0xFF) as u8,
        ((value >> 8) & 0xFF) as u8,
        ((value >> 16) & 0xFF) as u8,
        ((value >> 24) & 0xFF) as u8,
    ]
}

impl Geometry {
    /// Where in the mapped bytes a read of `len` bytes begins that starts
    /// `offset` bytes into the given unit of bank 1; nowhere if there is no
    /// such unit or the read would leave the `mapped` bytes.
    pub open spec fn window(self, unit: int, offset: int, len: int, mapped: int) -> Option<int> {
        let start = self.unit_address(unit, Bank::B1) - FLASH_ORIGIN + offset;
        if unit < self.unit_count(Bank::B1) && 0 <= start && start + len <= mapped {
            Some(start)
        } else {
            None
        }
    }

    /// Where in the mapped bytes such a read begins.
    fn locate(&self, unit: usize, offset: i128, len: usize, mapped: usize) -> (start: Option<
        usize,
    >)
        requires
            self.wf(),
            -0x100_0000_0000_0000_0000 <= offset <= 0x100_0000_0000_0000_0000,
        ensures
            start.is_some() == self.window(unit as int, offset as int, len as int, mapped as int).is_some(),
            start matches Some(s) ==> Some(s as int) == self.window(
                unit as int,
                offset as int,
                len as int,
                mapped as int,
            ),
    {
        if unit >= self.units_in(Bank::B1) {
            return None;
        }
        let base = self.unit_to_address(unit, Bank::B1);
        let first: i128 = (base - FLASH_ORIGIN) as i128 + offset;
        if first < 0 || first + len as i128 > mapped as i128 {
            None
        } else {
            Some(first as usize)
        }
    }
}

impl Flash {
    /// Read a single 64-bit memory cell, indexed by its page, and an offset
    /// from the page, counted in cells.
    ///
    /// `memory` holds the mapped flash from its origin on. The result is the
    /// double word that the cell's eight bytes hold, the lowest byte first;
    /// `PageOutOfRange` if there is no such page or the cell lies outside
    /// `memory`.
    pub fn read(&self, memory: &[u8], page: usize, offset: isize) -> (word: Result<u64, Error>)
        requires
            self.wf(),
        ensures
            match self@.geometry.window(page as int, 8 * offset, 8, memory@.len() as int) {
                Some(start) => word == Ok::<u64, Error>(
                    word_from_bytes(memory@.subrange(start, start + 8)),
                ),
                None => word == Err::<u64, Error>(Error::PageOutOfRange),
            },
    {
        let geometry = self.geometry();
        match geometry.locate(page, 8 * (offset as i128), 8, memory.len()) {
            None => Err(Error::PageOutOfRange),
            Some(start) => {
                let ghost cell = memory@.subrange(start as int, start + 8);
                assert(forall|i: int| 0 <= i < 8 ==> cell[i] == memory@[start + i]);
                let word = (memory[start] as u64) | (memory[start + 1] as u64) << 8 | (memory[start
                    + 2] as u64) << 16 | (memory[start + 3] as u64) << 24 | (memory[start
                    + 4] as u64) << 32 | (memory[start + 5] as u64) << 40 | (memory[start
                    + 6] as u64) << 48 | (memory[start + 7] as u64) << 56;
                Ok(word)
            },
        }
    }

    /// Read flash memory at a given page and offset, counted in bytes, into
    /// a buffer.
    ///
    /// `memory` holds the mapped flash from its origin on. On success the
    /// buffer holds the bytes that follow the offset, as many as it has room
    /// for. If there is no such page or the bytes lie outside `memory`, the
    /// result is `PageOutOfRange` and the buffer is left as it was.
    pub fn read_to_buffer(
        &self,
        memory: &[u8],
        page: usize,
        offset: isize,
        buff: &mut [u8],
    ) -> (result: Result<(), Error>)
        requires
            self.wf(),
        ensures
            match self@.geometry.window(
                page as int,
                offset as int,
                old(buff)@.len() as int,
                memory@.len() as int,
            ) {
                Some(start) => result is Ok && final(buff)@ == memory@.subrange(
                    start,
                    start + old(buff)@.len(),
                ),
                None => result == Err::<(), Error>(Error::PageOutOfRange) && final(buff)@ == old(
                    buff,
                )@,
            },
    {
        let geometry = self.geometry();
        let len = buff.len();
        match geometry.locate(page, offset as i128, len, memory.len()) {
            None => Err(Error::PageOutOfRange),
            Some(start) => {
                let mut i: usize = 0;
                while i < len
                    invariant
                        i <= len,
                        buff@.len() == len,
                        start + len <= memory@.len() <= usize::MAX,
                        buff@.take(i as int) == memory@.subrange(start as int, start + i),
                    decreases len - i,
                {
                    buff[i] = memory[start + i];
                    assert(buff@.take(i + 1) =~= memory@.subrange(start as int, start + i + 1));
                    i += 1;
                }
                assert(buff@ =~= buff@.take(len as int));
                Ok(())
            },
        }
    }
}

/// A double word written as two 32-bit words, the low half at the lower
/// address, each stored lowest byte first, is the double word that a read of
/// the eight bytes gives back.
pub proof fn halves_read_back(word: u64)
    ensures
        word_from_bytes(word_bytes(low_half(word)) + word_bytes(high_half(word))) == word,
{
    let lo = low_half(word);
    let hi = high_half(word);
    let bytes = word_bytes(lo) + word_bytes(hi);
    assert(bytes[0] == (lo & 0xFF) as u8);
    assert(bytes[1] == ((lo >> 8) & 0xFF) as u8);
    assert(bytes[2] == ((lo >> 16) & 0xFF) as u8);
    assert(bytes[3] == ((lo >> 24) & 0xFF) as u8);
    assert(bytes[4] == (hi & 0xFF) as u8);
    assert(bytes[5] == ((hi >> 8) & 0xFF) as u8);
    assert(bytes[6] == ((hi >> 16) & 0xFF) as u8);
    assert(bytes[7] == ((hi >> 24) & 0xFF) as u8);
    assert(((((word & 0xFFFF_FFFF) as u32) & 0xFF) as u8 as u64) | ((((word & 0xFFFF_FFFF) as u32
        >> 8) & 0xFF) as u8 as u64) << 8 | ((((word & 0xFFFF_FFFF) as u32 >> 16) & 0xFF) as u8
        as u64) << 16 | ((((word & 0xFFFF_FFFF) as u32 >> 24) & 0xFF) as u8 as u64) << 24 | ((((
    word >> 32) as u32) & 0xFF) as u8 as u64) << 32 | (((((word >> 32) as u32) >> 8) & 0xFF) as u8
        as u64) << 40 | (((((word >> 32) as u32) >> 16) & 0xFF) as u8 as u64) << 48 | (((((word
        >> 32) as u32) >> 24) & 0xFF) as u8 as u64) << 56 == word) by (bit_vector);
}

/// The mapped bytes after a 32-bit word has been programmed at an address.
/// Programming only clears bits: each of the four bytes keeps the bits that
/// it had and that the word, stored lowest byte first, has too.
pub open spec fn program_word(memory: Seq<u8>, address: int, value: u32) -> Seq<u8> {
    let at = address - FLASH_ORIGIN;
    Seq::new(
        memory.len(),
        |i: int|
            if at <= i < at + 4 {
                memory[i] & word_bytes(value)[i - at]
            } else {
                memory[i]
            },
    )
}

/// The mapped bytes after a series of accesses, of which the writes into the
/// flash are the ones that change them.
pub open spec fn programmed(memory: Seq<u8>, accesses: Seq<Action>) -> Seq<u8>
    decreases accesses.len(),
{
    if accesses.len() == 0 {
        memory
    } else {
        let before = programmed(memory, accesses.drop_last());
        match accesses.last() {
            Action::WriteWord { address, value } => program_word(before, address as int, value),
            _ => before,
        }
    }
}

/// Whether the bytes from `from` up to `to` are erased.
pub open spec fn erased(memory: Seq<u8>, from: int, to: int) -> bool {
    forall|i: int| from <= i < to ==> #[trigger] memory[i] == 0xFF
}

proof fn programming_fills_in_order(memory: Seq<u8>, base: int, words: Seq<u64>, count: int)
    requires
        FLASH_ORIGIN <= base,
        base + 8 * words.len() <= usize::MAX,
        base - FLASH_ORIGIN + 8 * words.len() <= memory.len(),
        erased(memory, base - FLASH_ORIGIN, base - FLASH_ORIGIN + 8 * words.len()),
        0 <= count <= 2 * words.len(),
    ensures
        ({
            let plan = planned_writes(base, words);
            let now = programmed(memory, plan.take(count));
            let start = base - FLASH_ORIGIN;
            &&& now.len() == memory.len()
            &&& erased(now, start + 4 * count, start + 8 * words.len())
            &&& forall|i: int, j: int|
                0 <= i < count && 0 <= j < 4 ==> #[trigger] now[start + 4 * i + j] == word_bytes(
                    planned_value(words, i),
                )[j]
        }),
    decreases count,
{
    let plan = planned_writes(base, words);
    let start = base - FLASH_ORIGIN;
    if count > 0 {
        programming_fills_in_order(memory, base, words, count - 1);
        let before = programmed(memory, plan.take(count - 1));
        let now = programmed(memory, plan.take(count));
        assert(plan.take(count).drop_last() =~= plan.take(count - 1));
        assert(plan.take(count).last() == plan[count - 1]);
        let value = planned_value(words, count - 1);
        assert(plan[count - 1] == Action::WriteWord {
            address: (base + 4 * (count - 1)) as usize,
            value,
        });
        assert(now == program_word(before, base + 4 * (count - 1), value));
        assert forall|i: int, j: int| 0 <= i < count && 0 <= j < 4 implies #[trigger] now[start
            + 4 * i + j] == word_bytes(planned_value(words, i))[j] by {
            if i == count - 1 {
                let kept = word_bytes(value)[j];
                assert(before[start + 4 * i + j] == 0xFF);
                assert(0xFFu8 & kept == kept) by (bit_vector);
            }
        }
    }
}

/// What is programmed into erased flash is what is read back. When the
/// double words fit from the start of a unit on, and the bytes that they go
/// to are erased, then after the writes that programming them is made of,
/// the cell at each offset from the unit holds the double word of that
/// number.
pub proof fn programmed_words_read_back(
    geometry: Geometry,
    index: usize,
    words: Seq<u64>,
    memory: Seq<u8>,
    k: int,
)
    requires
        geometry.wf(),
        begin(geometry, Operation::Program, Bank::B1, index, words).words_fit(),
        geometry.window(index as int, 0, 8 * (words.len() as int), memory.len() as int) is Some,
        erased(
            memory,
            geometry.window(index as int, 0, 8 * (words.len() as int), memory.len() as int).unwrap(),
            geometry.window(index as int, 0, 8 * (words.len() as int), memory.len() as int).unwrap() + 8
                * words.len(),
        ),
        0 <= k < words.len(),
    ensures
        ({
            let after = programmed(
                memory,
                planned_writes(geometry.unit_address(index as int, Bank::B1), words),
            );
            &&& geometry.window(index as int, 8 * k, 8, after.len() as int) matches Some(start)
            &&& word_from_bytes(after.subrange(start, start + 8)) == words[k]
        }),
{
    let base = geometry.unit_address(index as int, Bank::B1);
    let plan = planned_writes(base, words);
    let start = base - FLASH_ORIGIN;
    assert(base + 8 * words.len() <= usize::MAX) by {
        let count = geometry.unit_count(Bank::B1);
        let spare = count - index;
        assert(8 * words.len() <= spare * geometry.unit_size());
        if geometry.family() == Family::H7 {
            assert(spare * SECTOR_SIZE == count * SECTOR_SIZE - index * SECTOR_SIZE);
        } else {
            assert(spare * PAGE_SIZE == count * PAGE_SIZE - index * PAGE_SIZE);
        }
    }
    programming_fills_in_order(memory, base, words, 2 * (words.len() as int));
    assert(plan.take(2 * (words.len() as int)) =~= plan);
    let after = programmed(memory, plan);
    let cell = after.subrange(start + 8 * k, start + 8 * k + 8);
    let low = word_bytes(low_half(words[k]));
    let high = word_bytes(high_half(words[k]));
    assert(planned_value(words, 2 * k) == low_half(words[k]));
    assert(planned_value(words, 2 * k + 1) == high_half(words[k]));
    assert forall|j: int| 0 <= j < 8 implies cell[j] == (low + high)[j] by {
        if j < 4 {
            assert(after[start + 4 * (2 * k) + j] == low[j]);
        } else {
            assert(after[start + 4 * (2 * k + 1) + (j - 4)] == high[j - 4]);
        }
    }
    assert(cell =~= low + high);
    halves_read_back(words[k]);
}


/// Only the writes into the flash change it: the other accesses of a series
/// can be left out.
pub proof fn only_word_writes_program(memory: Seq<u8>, series: Seq<Action>)
    ensures
        programmed(memory, series) == programmed(memory, word_writes(series)),
    decreases series.len(),
{
    let is_write = |action: Action| action is WriteWord;
    if series.len() == 0 {
        assert(series.filter(is_write) =~= series) by {
            reveal(Seq::filter);
        }
    } else {
        let earlier = series.drop_last();
        only_word_writes_program(memory, earlier);
        assert(earlier.push(series.last()) =~= series);
        earlier.lemma_filter_push(series.last(), is_write);
        if series.last() is WriteWord {
            let kept = word_writes(earlier).push(series.last());
            assert(kept.drop_last() =~= word_writes(earlier));
            assert(kept.last() == series.last());
        }
    }
}

/// Erase, program, read back. When programming of a page of bank 1 has
/// ended with success, whatever the controller answered on the way, and the
/// bytes that the double words went to were erased before, then the cell at
/// each offset from the page holds the double word of that number: a read of
/// it returns what was written.
pub proof fn programmed_page_reads_back(
    geometry: Geometry,
    index: usize,
    words: Seq<u64>,
    events: Seq<Event>,
    memory: Seq<u8>,
    k: int,
)
    requires
        geometry.wf(),
        words.len() <= usize::MAX,
        answered(begin(geometry, Operation::Program, Bank::B1, index, words), events),
        ended(run(begin(geometry, Operation::Program, Bank::B1, index, words), events)),
        run(begin(geometry, Operation::Program, Bank::B1, index, words), events).outcome is Ok,
        geometry.window(index as int, 0, 8 * (words.len() as int), memory.len() as int) is Some,
        erased(
            memory,
            geometry.window(index as int, 0, 8 * (words.len() as int), memory.len() as int).unwrap(),
            geometry.window(index as int, 0, 8 * (words.len() as int), memory.len() as int).unwrap() + 8
                * words.len(),
        ),
        0 <= k < words.len(),
    ensures
        ({
            let m = begin(geometry, Operation::Program, Bank::B1, index, words);
            let after = programmed(memory, accesses(m, events));
            &&& geometry.window(index as int, 8 * k, 8, after.len() as int) matches Some(start)
            &&& word_from_bytes(after.subrange(start, start + 8)) == words[k]
        }),
{
    let m = begin(geometry, Operation::Program, Bank::B1, index, words);
    if !m.words_fit() {
        out_of_range_is_refused_unarmed(geometry, Operation::Program, Bank::B1, index, words, events);
    }
    words_are_written_in_order(geometry, Bank::B1, index, words, events);
    only_word_writes_program(memory, accesses(m, events));
    programmed_words_read_back(geometry, index, words, memory, k);
}


} // verus!
