//! What holds of every run of the protocol.
//!
//! A run is a machine and the events that the platform layer hands back, one
//! after the other. The laws here speak of all runs: whatever the controller
//! answers, and however long it takes.

use super::geometry::{Bank, Geometry};
use super::protocol::{
    begin, high_half, issue, low_half, next, next_preserves_wf, started, Machine, Operation, Phase,
};
use super::registers::{
    ack_register, answers, error_flags, stale_flags, Action, ControlBit, Error, Event, Status,
    FLASH_KEY1, FLASH_KEY2,
};
use vstd::prelude::*;

verus! {

/// The machine after a series of events.
pub open spec fn run(m: Machine, events: Seq<Event>) -> Machine
    decreases events.len(),
{
    if events.len() == 0 {
        m
    } else {
        next(run(m, events.drop_last()), events.last())
    }
}

/// Whether each event of the series answers the access that the machine
/// asked for just before it.
pub open spec fn answered(m: Machine, events: Seq<Event>) -> bool
    decreases events.len(),
{
    events.len() == 0 || {
        &&& answered(m, events.drop_last())
        &&& answers(issue(run(m, events.drop_last())), events.last())
    }
}

/// Everything that the machine asks for in a run: its first access, and the
/// access after each event.
pub open spec fn accesses(m: Machine, events: Seq<Event>) -> Seq<Action>
    decreases events.len(),
{
    if events.len() == 0 {
        seq![issue(m)]
    } else {
        accesses(m, events.drop_last()).push(issue(run(m, events)))
    }
}

/// Whether the operation has ended.
pub open spec fn ended(m: Machine) -> bool {
    m.phase is Idle
}

/// A run keeps the machine well formed, its operation and its target.
pub proof fn run_preserves_wf(m: Machine, events: Seq<Event>)
    requires
        m.wf(),
    ensures
        run(m, events).wf(),
        run(m, events).geometry == m.geometry,
        run(m, events).op == m.op,
        run(m, events).bank == m.bank,
        run(m, events).index == m.index,
    decreases events.len(),
{
    if events.len() > 0 {
        run_preserves_wf(m, events.drop_last());
        next_preserves_wf(run(m, events.drop_last()), events.last());
    }
}

/// A run asks for one access at the start and one after each event.
pub proof fn accesses_len(m: Machine, events: Seq<Event>)
    ensures
        accesses(m, events).len() == events.len() + 1,
    decreases events.len(),
{
    if events.len() > 0 {
        accesses_len(m, events.drop_last());
    }
}

/// Unlocking twice in a row: when the first call has ended with success, the
/// lock bit was last read clear; and a second call that reads it as the first
/// left it ends at once with success, having written nothing, and leaves the
/// driver as the first call left it.
pub proof fn unlock_twice_is_idempotent(m: Machine, events: Seq<Event>)
    requires
        m.wf(),
        ended(m),
        events.len() > 0,
        answered(started(m, Operation::Unlock, Bank::B1, 0, Seq::empty()), events),
        ended(run(started(m, Operation::Unlock, Bank::B1, 0, Seq::empty()), events)),
        run(started(m, Operation::Unlock, Bank::B1, 0, Seq::empty()), events).outcome is Ok,
    ensures
        events.last() == (Event::Control { locked: false }),
        ({
            let after = run(started(m, Operation::Unlock, Bank::B1, 0, Seq::empty()), events);
            let again = started(after, Operation::Unlock, Bank::B1, 0, Seq::empty());
            &&& issue(again) == Action::ReadControl { bank: Bank::B1 }
            &&& next(again, events.last()) == after
            &&& issue(next(again, events.last())) == Action::Done(Ok(()))
        }),
{
    let first = started(m, Operation::Unlock, Bank::B1, 0, Seq::empty());
    run_preserves_wf(first, events.drop_last());
    let after = run(first, events);
    let again = started(after, Operation::Unlock, Bank::B1, 0, Seq::empty());
    assert(next(again, events.last()).flags =~= after.flags);
    assert(next(again, events.last()).words =~= after.words);
}

/// Whether the operation is one that changes the flash.
pub open spec fn mutating(op: Operation) -> bool {
    op == Operation::EraseUnit || op == Operation::EraseBank || op == Operation::Program
}

/// Every exit of a mutating operation, and of locking itself, leaves the
/// controller locked. The last register access before the end is either the
/// write that sets the lock bit, or, where the unlock has failed, the read
/// that found the lock bit still set; the operation then ends with `Failure`.
pub proof fn mutating_call_ends_locked(m: Machine, events: Seq<Event>)
    requires
        m.wf(),
        mutating(m.op) || m.op == Operation::Lock,
        events.len() > 0,
        answered(m, events),
        ended(run(m, events)),
    ensures
        ({
            let last_access = issue(run(m, events.drop_last()));
            ||| last_access == Action::SetControl { bank: m.block(), bit: ControlBit::Lock }
            ||| {
                &&& last_access == Action::ReadControl { bank: m.block() }
                &&& events.last() == Event::Control { locked: true }
                &&& run(m, events).outcome == Err::<(), Error>(Error::Failure)
            }
        }),
{
    run_preserves_wf(m, events.drop_last());
}

/// The lock bit is set only once a read of the status has shown that the
/// controller is not busy.
pub proof fn lock_waits_for_busy_clear(m: Machine, event: Event)
    requires
        m.wf(),
        !(m.phase is SetLock),
        (next(m, event).phase is SetLock),
    ensures
        issue(m) == (Action::ReadStatus { bank: m.block() }),
        (event matches Event::Status(status) && !status.busy),
{
}

/// The two keys are written one right after the other: when the first key
/// has been written, the next access is the write of the second key, to the
/// same register.
pub proof fn keys_follow_each_other(m: Machine)
    requires
        m.wf(),
        issue(m) == (Action::WriteKey { bank: m.block(), key: FLASH_KEY1 }),
    ensures
        issue(next(m, Event::Written)) == (Action::WriteKey { bank: m.block(), key: FLASH_KEY2 }),
{
}

/// Whether a read of the control register in the series has shown the lock
/// bit clear.
pub open spec fn unlock_seen(events: Seq<Event>) -> bool {
    exists|j: int|
        0 <= j < events.len() && #[trigger] events[j] == (Event::Control { locked: false })
}

/// Whether the operation has passed the lock gate and is still under way.
spec fn past_gate(m: Machine) -> bool {
    let p = m.phase;
    !(p is ProbeLock || p is FirstKey || p is SecondKey || p is VerifyUnlock || p is Idle)
}

proof fn gate_run(m: Machine, events: Seq<Event>)
    requires
        m.wf(),
        m.op != Operation::Lock,
        (m.phase is ProbeLock),
        answered(m, events),
    ensures
        past_gate(run(m, events)) ==> unlock_seen(events),
        forall|i: int|
            0 <= i < accesses(m, events).len() ==> {
                let access = #[trigger] accesses(m, events)[i];
                access is ReadControl || access is WriteKey || access is Done || unlock_seen(
                    events.take(i),
                )
            },
    decreases events.len(),
{
    if events.len() > 0 {
        let earlier = events.drop_last();
        gate_run(m, earlier);
        run_preserves_wf(m, earlier);
        accesses_len(m, earlier);
        let before = run(m, earlier);
        let last = events.len() - 1;
        if past_gate(run(m, events)) {
            if past_gate(before) {
                let j = choose|j: int|
                    0 <= j < earlier.len() && #[trigger] earlier[j] == (Event::Control {
                        locked: false,
                    });
                assert(events[j] == earlier[j]);
            } else {
                assert(events[last] == (Event::Control { locked: false }));
            }
        }
        assert forall|i: int| 0 <= i < accesses(m, events).len() implies {
            let access = #[trigger] accesses(m, events)[i];
            access is ReadControl || access is WriteKey || access is Done || unlock_seen(
                events.take(i),
            )
        } by {
            if i < accesses(m, events).len() - 1 {
                assert(accesses(m, events)[i] == accesses(m, earlier)[i]);
                assert(earlier.take(i) =~= events.take(i));
            } else {
                assert(events.take(i) =~= events);
            }
        }
    }
}

/// Nothing is asked of a locked controller but to unlock. In a run of an
/// operation that opens the lock gate, every access other than a read of the
/// control register and the writes of the keys comes after a read of the
/// control register that showed the lock bit clear.
pub proof fn lock_is_open_before_anything_else(
    geometry: Geometry,
    op: Operation,
    bank: Bank,
    index: usize,
    words: Seq<u64>,
    events: Seq<Event>,
)
    requires
        geometry.wf(),
        words.len() <= usize::MAX,
        op != Operation::Lock,
        answered(begin(geometry, op, bank, index, words), events),
    ensures
        forall|i: int|
            0 <= i < accesses(begin(geometry, op, bank, index, words), events).len() ==> {
                let access = #[trigger] accesses(
                    begin(geometry, op, bank, index, words),
                    events,
                )[i];
                access is ReadControl || access is WriteKey || access is Done || unlock_seen(
                    events.take(i),
                )
            },
{
    gate_run(begin(geometry, op, bank, index, words), events);
}

/// Whether an access belongs to the lock gate or only polls: a read of the
/// control or the status register, a key, or the write that sets the lock bit.
pub open spec fn gate_access(action: Action) -> bool {
    match action {
        Action::ReadControl { .. } | Action::ReadStatus { .. } | Action::WriteKey { .. } => true,
        Action::SetControl { bit, .. } => bit == ControlBit::Lock,
        _ => false,
    }
}

/// Whether the controller was busy each time that the run checked for it.
pub open spec fn busy_when_checked(m: Machine, events: Seq<Event>) -> bool
    decreases events.len(),
{
    events.len() == 0 || {
        &&& busy_when_checked(m, events.drop_last())
        &&& run(m, events.drop_last()).phase is CheckBusy ==> (events.last() matches Event::Status(
            status,
        ) && status.busy)
    }
}

/// Where a run is that has found the controller busy, or has not yet asked.
spec fn turned_away(m: Machine) -> bool {
    let p = m.phase;
    &&& m.wf()
    &&& mutating(m.op)
    &&& {
        ||| p is ProbeLock || p is FirstKey || p is SecondKey || p is VerifyUnlock || p is CheckBusy
        ||| (p is AwaitIdle || p is SetLock) && m.outcome == Err::<(), Error>(Error::Busy)
        ||| p is Idle && (m.outcome == Err::<(), Error>(Error::Busy) || m.outcome == Err::<
            (),
            Error,
        >(Error::Failure))
    }
}

proof fn busy_run(m: Machine, events: Seq<Event>)
    requires
        turned_away(m),
        busy_when_checked(m, events),
    ensures
        turned_away(run(m, events)),
        forall|i: int|
            0 <= i < accesses(m, events).len() ==> {
                let access = #[trigger] accesses(m, events)[i];
                gate_access(access) || access is Done
            },
    decreases events.len(),
{
    if events.len() > 0 {
        busy_run(m, events.drop_last());
        let before = run(m, events.drop_last());
        assert(turned_away(next(before, events.last())));
        assert forall|i: int| 0 <= i < accesses(m, events).len() implies {
            let access = #[trigger] accesses(m, events)[i];
            gate_access(access) || access is Done
        } by {
            if i < accesses(m, events).len() - 1 {
                assert(accesses(m, events)[i] == accesses(m, events.drop_last())[i]);
            }
        }
    }
}

/// Asking for an erase or for programming while the controller is busy
/// changes nothing. In a run that finds the busy flag set when it checks,
/// every register access is one of the lock gate or a poll of the status:
/// nothing is armed, started, acknowledged or written. Such a run ends with
/// `Busy`, unless the unlock has failed already.
pub proof fn busy_controller_is_left_alone(
    geometry: Geometry,
    op: Operation,
    bank: Bank,
    index: usize,
    words: Seq<u64>,
    events: Seq<Event>,
)
    requires
        geometry.wf(),
        words.len() <= usize::MAX,
        mutating(op),
        busy_when_checked(begin(geometry, op, bank, index, words), events),
    ensures
        ({
            let m = begin(geometry, op, bank, index, words);
            &&& forall|i: int|
                0 <= i < accesses(m, events).len() ==> {
                    let access = #[trigger] accesses(m, events)[i];
                    gate_access(access) || access is Done
                }
            &&& ended(run(m, events)) ==> {
                ||| run(m, events).outcome == Err::<(), Error>(Error::Busy)
                ||| run(m, events).outcome == Err::<(), Error>(Error::Failure)
            }
        }),
{
    busy_run(begin(geometry, op, bank, index, words), events);
}

/// Whether an operation that was refused may end so.
spec fn refusal(outcome: Result<(), Error>) -> bool {
    ||| outcome == Err::<(), Error>(Error::PageOutOfRange)
    ||| outcome == Err::<(), Error>(Error::Busy)
    ||| outcome == Err::<(), Error>(Error::Failure)
}

/// Where a run is whose target does not exist.
spec fn refused(m: Machine) -> bool {
    let p = m.phase;
    &&& m.wf()
    &&& mutating(m.op)
    &&& {
        ||| !m.target_valid() && {
            ||| p is ProbeLock || p is FirstKey || p is SecondKey || p is VerifyUnlock
            ||| p is CheckBusy || p is ReadFlags || p is ClearFlag
        }
        ||| (p is AwaitIdle || p is SetLock || p is Idle) && refusal(m.outcome)
    }
}

proof fn refused_run(m: Machine, events: Seq<Event>)
    requires
        refused(m),
    ensures
        refused(run(m, events)),
        forall|i: int|
            0 <= i < accesses(m, events).len() ==> {
                let access = #[trigger] accesses(m, events)[i];
                gate_access(access) || access is ClearFlag || access is Done
            },
    decreases events.len(),
{
    if events.len() > 0 {
        refused_run(m, events.drop_last());
        let before = run(m, events.drop_last());
        assert(refused(next(before, events.last())));
        assert forall|i: int| 0 <= i < accesses(m, events).len() implies {
            let access = #[trigger] accesses(m, events)[i];
            gate_access(access) || access is ClearFlag || access is Done
        } by {
            if i < accesses(m, events).len() - 1 {
                assert(accesses(m, events)[i] == accesses(m, events.drop_last())[i]);
            }
        }
    }
}

/// An erase unit out of range is refused before anything is armed. In a run
/// of an erase whose unit does not exist, or of programming whose double
/// words do not fit, every register access is one of the lock gate, a poll of
/// the status, or the acknowledgement of a stale error flag: the erase enable
/// bit is never set, nothing is started and nothing is written. Such a run
/// ends with `PageOutOfRange`, unless the unlock has failed or the controller
/// was busy.
pub proof fn out_of_range_is_refused_unarmed(
    geometry: Geometry,
    op: Operation,
    bank: Bank,
    index: usize,
    words: Seq<u64>,
    events: Seq<Event>,
)
    requires
        geometry.wf(),
        words.len() <= usize::MAX,
        mutating(op),
        !begin(geometry, op, bank, index, words).target_valid(),
    ensures
        ({
            let m = begin(geometry, op, bank, index, words);
            &&& forall|i: int|
                0 <= i < accesses(m, events).len() ==> {
                    let access = #[trigger] accesses(m, events)[i];
                    gate_access(access) || access is ClearFlag || access is Done
                }
            &&& ended(run(m, events)) ==> {
                ||| run(m, events).outcome == Err::<(), Error>(Error::PageOutOfRange)
                ||| run(m, events).outcome == Err::<(), Error>(Error::Busy)
                ||| run(m, events).outcome == Err::<(), Error>(Error::Failure)
            }
        }),
{
    refused_run(begin(geometry, op, bank, index, words), events);
}

/// Where programming is after a pair of words has failed.
spec fn failing(m: Machine) -> bool {
    let p = m.phase;
    &&& m.wf()
    &&& m.op == Operation::Program
    &&& m.outcome == Err::<(), Error>(Error::Failure)
    &&& (p is Disarm || p is AwaitIdle || p is SetLock || p is Idle)
}

proof fn failing_run(m: Machine, events: Seq<Event>)
    requires
        failing(m),
    ensures
        failing(run(m, events)),
        forall|i: int|
            0 <= i < accesses(m, events).len() ==> !(#[trigger] accesses(m, events)[i]
                is WriteWord),
    decreases events.len(),
{
    if events.len() > 0 {
        failing_run(m, events.drop_last());
        assert(failing(next(run(m, events.drop_last()), events.last())));
        assert forall|i: int| 0 <= i < accesses(m, events).len() implies !(#[trigger] accesses(
            m,
            events,
        )[i] is WriteWord) by {
            if i < accesses(m, events).len() - 1 {
                assert(accesses(m, events)[i] == accesses(m, events.drop_last())[i]);
            }
        }
    }
}

/// A pair of words that the controller has not taken ends the programming.
/// When the status that shows the controller no longer busy with a pair also
/// shows an error flag of the generation, the driver clears the programming
/// enable bit next, writes no further word whatever follows, and ends, once
/// the lock is set, with `Failure`.
pub proof fn failed_pair_surfaces_failure(m: Machine, status: Status, events: Seq<Event>)
    requires
        m.wf(),
        m.op == Operation::Program,
        (m.phase is AwaitBusy),
        !status.busy,
        stale_flags(m.family(), status).len() > 0,
    ensures
        ({
            let failed = next(m, Event::Status(status));
            &&& issue(failed) == Action::ClearControl { bank: m.block(), bit: ControlBit::Program }
            &&& forall|i: int|
                0 <= i < accesses(failed, events).len() ==> !(#[trigger] accesses(failed, events)[i]
                    is WriteWord)
            &&& run(failed, events).outcome == Err::<(), Error>(Error::Failure)
        }),
{
    failing_run(next(m, Event::Status(status)), events);
}

/// No access of an operation leaves the register sub-block of the bank that
/// the operation is for: what the other bank is doing cannot hold it up.
pub proof fn accesses_stay_in_block(m: Machine, events: Seq<Event>)
    requires
        m.wf(),
    ensures
        forall|i: int|
            0 <= i < accesses(m, events).len() ==> match #[trigger] accesses(m, events)[i] {
                Action::ReadControl { bank }
                | Action::ReadStatus { bank }
                | Action::WriteKey { bank, .. }
                | Action::SetControl { bank, .. }
                | Action::ClearControl { bank, .. }
                | Action::SelectUnit { bank, .. }
                | Action::ClearFlag { bank, .. }
                | Action::AcknowledgeEop { bank } => bank == m.block(),
                _ => true,
            },
    decreases events.len(),
{
    if events.len() > 0 {
        accesses_stay_in_block(m, events.drop_last());
        run_preserves_wf(m, events);
        assert forall|i: int| 0 <= i < accesses(m, events).len() implies match #[trigger] accesses(
            m,
            events,
        )[i] {
            Action::ReadControl { bank }
            | Action::ReadStatus { bank }
            | Action::WriteKey { bank, .. }
            | Action::SetControl { bank, .. }
            | Action::ClearControl { bank, .. }
            | Action::SelectUnit { bank, .. }
            | Action::ClearFlag { bank, .. }
            | Action::AcknowledgeEop { bank } => bank == m.block(),
            _ => true,
        } by {
            if i < accesses(m, events).len() - 1 {
                assert(accesses(m, events)[i] == accesses(m, events.drop_last())[i]);
            }
        }
    }
}


/// The 32-bit word that the write of the given number puts into the flash:
/// the low half of a double word at an even number, the high half at an odd.
pub open spec fn planned_value(words: Seq<u64>, i: int) -> u32 {
    if i % 2 == 0 {
        low_half(words[i / 2])
    } else {
        high_half(words[i / 2])
    }
}

/// The writes that programming the double words from `base` on is made of:
/// for each double word in turn, its low half at the next address that is a
/// multiple of eight bytes from `base`, then its high half four bytes on.
pub open spec fn planned_writes(base: int, words: Seq<u64>) -> Seq<Action> {
    Seq::new(
        2 * words.len(),
        |i: int|
            Action::WriteWord { address: (base + 4 * i) as usize, value: planned_value(words, i) },
    )
}

/// The writes into the flash among a series of accesses.
pub open spec fn word_writes(actions: Seq<Action>) -> Seq<Action> {
    actions.filter(|action: Action| action is WriteWord)
}

/// How many writes into the flash a machine that programs has asked for.
spec fn writes_asked(m: Machine) -> int {
    if m.phase is LowWord {
        2 * m.next_word + 1
    } else if m.in_word() {
        2 * m.next_word + 2
    } else {
        2 * m.next_word
    }
}

/// What holds in a run that programs `words`, of the machine and of the
/// writes into the flash that it has asked for.
spec fn programming(m: Machine, written: Seq<Action>, start: Machine) -> bool {
    let p = m.phase;
    let plan = planned_writes(start.geometry.unit_address(start.index as int, start.bank), start.words);
    &&& m.wf()
    &&& m.op == Operation::Program
    &&& m.geometry == start.geometry
    &&& m.bank == start.bank
    &&& m.index == start.index
    &&& p is Idle || m.words == start.words
    &&& written.len() <= plan.len()
    &&& written == plan.take(written.len() as int)
    &&& m.outcome is Ok && !(p is Idle) ==> written.len() == writes_asked(m)
    &&& m.outcome is Ok && (p is Disarm || p is AwaitIdle || p is SetLock) ==> m.next_word
        == start.words.len()
    &&& m.outcome is Ok && p is Idle ==> written == plan
    &&& !m.armed() && !m.closing() ==> m.next_word == 0
    &&& p is Arm ==> m.next_word == 0
}

/// The writes asked for so far, with one more access.
spec fn with_access(written: Seq<Action>, access: Action) -> Seq<Action> {
    if access is WriteWord {
        written.push(access)
    } else {
        written
    }
}

proof fn programming_low_word(m: Machine, written: Seq<Action>, start: Machine)
    requires
        m.wf(),
        m.op == Operation::Program,
        m.geometry == start.geometry,
        m.bank == start.bank,
        m.index == start.index,
        m.words == start.words,
        (m.phase is LowWord),
        written.len() == 2 * m.next_word,
        written == planned_writes(
            start.geometry.unit_address(start.index as int, start.bank),
            start.words,
        ).take(written.len() as int),
    ensures
        programming(m, written.push(issue(m)), start),
{
    let plan = planned_writes(start.geometry.unit_address(start.index as int, start.bank), start.words);
    let k = written.len() as int;
    assert(k < plan.len());
    assert(plan[k] == issue(m));
    assert(plan.take(k).push(plan[k]) =~= plan.take(k + 1));
}

proof fn programming_high_word(m: Machine, written: Seq<Action>, start: Machine)
    requires
        m.wf(),
        m.op == Operation::Program,
        m.geometry == start.geometry,
        m.bank == start.bank,
        m.index == start.index,
        m.words == start.words,
        (m.phase is HighWord),
        written.len() == 2 * m.next_word + 1,
        written == planned_writes(
            start.geometry.unit_address(start.index as int, start.bank),
            start.words,
        ).take(written.len() as int),
    ensures
        programming(m, written.push(issue(m)), start),
{
    let plan = planned_writes(start.geometry.unit_address(start.index as int, start.bank), start.words);
    let k = written.len() as int;
    assert(k < plan.len());
    assert(plan[k] == issue(m));
    assert(plan.take(k).push(plan[k]) =~= plan.take(k + 1));
}

proof fn programming_step(before: Machine, written: Seq<Action>, event: Event, start: Machine)
    requires
        programming(before, written, start),
        answers(issue(before), event),
    ensures
        programming(next(before, event), with_access(written, issue(next(before, event))), start),
{
    let after = next(before, event);
    let plan = planned_writes(start.geometry.unit_address(start.index as int, start.bank), start.words);
    next_preserves_wf(before, event);
    if after.phase is LowWord {
        assert(after.words == start.words);
        assert(written.len() == 2 * after.next_word);
        programming_low_word(after, written, start);
    } else if after.phase is HighWord {
        assert(before.phase is LowWord);
        programming_high_word(after, written, start);
    } else {
        assert(!(issue(after) is WriteWord));
        if after.outcome is Ok {
            if after.phase is Idle {
                assert(before.phase is SetLock);
                assert(written.len() == plan.len());
                assert(plan.take(plan.len() as int) =~= plan);
            } else {
                assert(before.outcome is Ok);
                assert(writes_asked(after) == writes_asked(before));
            }
        }
    }
}

proof fn programming_run(m: Machine, events: Seq<Event>)
    requires
        m.wf(),
        m.op == Operation::Program,
        (m.phase is ProbeLock),
        m.next_word == 0,
        m.outcome is Ok,
        answered(m, events),
    ensures
        programming(run(m, events), word_writes(accesses(m, events)), m),
    decreases events.len(),
{
    let is_write = |action: Action| action is WriteWord;
    let plan = planned_writes(m.geometry.unit_address(m.index as int, m.bank), m.words);
    if events.len() == 0 {
        assert(accesses(m, events) =~= Seq::<Action>::empty().push(issue(m)));
        Seq::<Action>::empty().lemma_filter_push(issue(m), is_write);
        assert(Seq::<Action>::empty().filter(is_write) =~= Seq::<Action>::empty()) by {
            reveal(Seq::filter);
        }
        assert(word_writes(accesses(m, events)) =~= Seq::<Action>::empty());
        assert(plan.take(0) =~= Seq::<Action>::empty());
    } else {
        let earlier = events.drop_last();
        programming_run(m, earlier);
        accesses(m, earlier).lemma_filter_push(issue(run(m, events)), is_write);
        programming_step(run(m, earlier), word_writes(accesses(m, earlier)), events.last(), m);
    }
}

/// Programming writes each double word once, in order, and nothing else.
/// Whatever the controller answers, the writes into the flash that a run of
/// programming asks for are the first so many of the planned ones: low half
/// then high half of each double word in turn, eight bytes apart from the
/// start of the unit. A run that ends with success has asked for all of them.
pub proof fn words_are_written_in_order(
    geometry: Geometry,
    bank: Bank,
    index: usize,
    words: Seq<u64>,
    events: Seq<Event>,
)
    requires
        geometry.wf(),
        words.len() <= usize::MAX,
        answered(begin(geometry, Operation::Program, bank, index, words), events),
    ensures
        ({
            let m = begin(geometry, Operation::Program, bank, index, words);
            let written = word_writes(accesses(m, events));
            let plan = planned_writes(geometry.unit_address(index as int, bank), words);
            &&& written.len() <= plan.len()
            &&& written == plan.take(written.len() as int)
            &&& ended(run(m, events)) && run(m, events).outcome is Ok ==> written == plan
        }),
{
    programming_run(begin(geometry, Operation::Program, bank, index, words), events);
}


/// So many writes, one after the other.
pub open spec fn writes(count: int) -> Seq<Event> {
    Seq::new(count as nat, |i: int| Event::Written)
}

/// Stale error flags are acknowledged one by one before anything is armed.
/// After the status read that looks for them, the driver acknowledges each
/// flag of the generation that the read found asserted, once, in the
/// generation's order, whatever else the status shows. Only then does it arm
/// the operation, or, where the target is out of range, turn to locking.
pub proof fn stale_flags_are_cleared_in_order(m: Machine, status: Status, count: int)
    requires
        m.wf(),
        (m.phase is ReadFlags),
        0 <= count <= stale_flags(m.family(), status).len(),
    ensures
        ({
            let stale = stale_flags(m.family(), status);
            let now = run(next(m, Event::Status(status)), writes(count));
            &&& now == Machine { flags: stale, next_flag: count as usize, ..m }.flags_done()
            &&& count < stale.len() ==> issue(now) == Action::ClearFlag {
                bank: m.block(),
                flag: stale[count],
                ack: ack_register(m.family()),
            }
            &&& count == stale.len() && m.target_valid() ==> issue(now) == m.arm_action()
            &&& count == stale.len() && !m.target_valid() ==> {
                &&& issue(now) == Action::ReadStatus { bank: m.block() }
                &&& now.outcome == Err::<(), Error>(Error::PageOutOfRange)
            }
        }),
    decreases count,
{
    broadcast use Seq::lemma_filter_len;

    let stale = stale_flags(m.family(), status);
    let first = next(m, Event::Status(status));
    if count == 0 {
        assert(writes(0).len() == 0);
        assert(run(first, writes(0)) == first);
    } else {
        stale_flags_are_cleared_in_order(m, status, count - 1);
        let earlier = run(first, writes(count - 1));
        assert(writes(count).drop_last() =~= writes(count - 1));
        assert(writes(count).last() == Event::Written);
        assert(run(first, writes(count)) == next(earlier, Event::Written));
        assert(earlier.phase is ClearFlag);
    }
}

/// Whether the event tells a machine that polls to poll again: the status
/// still shows what the machine waits to see gone, or not yet what it waits
/// to see.
pub open spec fn polls_again(m: Machine, event: Event) -> bool {
    event matches Event::Status(status) && match m.phase {
        Phase::AwaitQueue => status.queue_wait,
        Phase::AwaitBusy | Phase::AwaitIdle => status.busy,
        Phase::AwaitEop => !status.eop,
        _ => false,
    }
}

/// The most accesses that the machine still has to ask for, polls that have
/// to be repeated not counted.
pub open spec fn remaining(m: Machine) -> int {
    let armed: int = 4 * (m.words.len() as int) + 10;
    let left: int = m.words.len() - m.next_word;
    match m.phase {
        Phase::Idle => 0,
        Phase::SetLock => 1,
        Phase::AwaitIdle => 2,
        Phase::Disarm => 3,
        Phase::AckEop => if m.op == Operation::Program {
            4 * left
        } else {
            4
        },
        Phase::AwaitEop => 5,
        Phase::AwaitBusy => if m.op == Operation::Program {
            4 * left + 1
        } else {
            6
        },
        Phase::AwaitQueue => 7,
        Phase::Start => 8,
        Phase::Address => 9,
        Phase::HighWord => 4 * left + 2,
        Phase::LowWord => 4 * left + 3,
        Phase::Arm => armed,
        Phase::ClearFlag => armed + (m.flags.len() - m.next_flag),
        Phase::ReadFlags => armed + 11,
        Phase::CheckBusy => armed + 12,
        Phase::VerifyUnlock => armed + 13,
        Phase::SecondKey => armed + 14,
        Phase::FirstKey => armed + 15,
        Phase::ProbeLock => armed + 16,
    }
}

/// No generation defines more than ten error flags.
proof fn stale_flags_are_few(m: Machine, status: Status)
    ensures
        stale_flags(m.family(), status).len() <= 10,
{
    error_flags(m.family()).lemma_filter_len(|flag| status.asserted(flag));
}

/// The driver goes round in circles only where it polls. An event that
/// tells a polling machine to poll again leaves the machine as it is; every
/// other event that answers the access asked for brings the machine closer
/// to the end of its operation.
pub proof fn every_step_but_a_poll_makes_progress(m: Machine, event: Event)
    requires
        m.wf(),
        answers(issue(m), event),
    ensures
        polls_again(m, event) ==> next(m, event) == m,
        !polls_again(m, event) ==> 0 <= remaining(next(m, event)) < remaining(m),
{
    if let Event::Status(status) = event {
        stale_flags_are_few(m, status);
    }
}

/// Whether no event of the series tells the machine to poll again.
pub open spec fn unrepeated(m: Machine, events: Seq<Event>) -> bool
    decreases events.len(),
{
    events.len() == 0 || {
        &&& unrepeated(m, events.drop_last())
        &&& !polls_again(run(m, events.drop_last()), events.last())
    }
}

/// An operation ends unless the controller keeps it polling. A run in which
/// no poll has to be repeated is at most as long as the machine had accesses
/// remaining: from the start of an operation, sixteen accesses for the lock
/// gate and the preamble, ten for arming and closing, and four for each
/// double word.
pub proof fn operation_ends_unless_polling(m: Machine, events: Seq<Event>)
    requires
        m.wf(),
        answered(m, events),
        unrepeated(m, events),
    ensures
        remaining(run(m, events)) >= 0,
        events.len() + remaining(run(m, events)) <= remaining(m),
        events.len() <= 4 * m.words.len() + 26,
    decreases events.len(),
{
    if events.len() > 0 {
        let earlier = events.drop_last();
        operation_ends_unless_polling(m, earlier);
        run_preserves_wf(m, earlier);
        every_step_but_a_poll_makes_progress(run(m, earlier), events.last());
    }
}


} // verus!
