//! Laws of the count of unblocked workers.
use vstd::arithmetic::div_mod::lemma_small_mod;
use vstd::prelude::*;

use crate::counter::{changes_of, total, wrapped, Tally};
use crate::executor::{Executor, Marked};

verus! {

/// How many of `marks` have taken one off the count.
pub open spec fn blocks(marks: Seq<Marked>) -> nat
    decreases marks.len(),
{
    if marks.len() == 0 {
        0
    } else {
        blocks(marks.drop_last()) + match marks.last().tally() {
            Some(tally) if tally.change() == -1 => 1nat,
            _ => 0nat,
        }
    }
}

/// How many of `marks` have added one to the count.
pub open spec fn unblocks(marks: Seq<Marked>) -> nat
    decreases marks.len(),
{
    if marks.len() == 0 {
        0
    } else {
        unblocks(marks.drop_last()) + match marks.last().tally() {
            Some(tally) if tally.change() == 1 => 1nat,
            _ => 0nat,
        }
    }
}

/// The changes that `marks` have made, in turn.
pub open spec fn changes_made(marks: Seq<Marked>) -> Seq<Tally>
    decreases marks.len(),
{
    if marks.len() == 0 {
        Seq::empty()
    } else {
        marks.last().logged(changes_made(marks.drop_last()))
    }
}

/// What `changes` add up to.
pub open spec fn sum(changes: Seq<Tally>) -> int
    decreases changes.len(),
{
    if changes.len() == 0 {
        0
    } else {
        sum(changes.drop_last()) + changes.last().change()
    }
}

/// The count of the unblocked workers of `executor` after the changes that `marks`
/// have made, as if it did not wrap around.
pub open spec fn unblocked_after(executor: &Executor, marks: Seq<Marked>) -> int {
    executor.counter().start() + sum(changes_made(marks))
}

/// Whether each of `marks` is a mark on `executor`.
pub open spec fn are_marks(executor: &Executor, marks: Seq<Marked>) -> bool {
    forall|k: int|
        0 <= k < marks.len() ==> executor.blocked(#[trigger] marks[k]) || executor.unblocked(
            marks[k],
        )
}

/// What one more mark adds.
proof fn lemma_one_more(marks: Seq<Marked>)
    requires
        marks.len() > 0,
    ensures
        sum(changes_made(marks)) == sum(changes_made(marks.drop_last()))
            + match marks.last().tally() {
            Some(tally) => tally.change(),
            None => 0,
        },
{
    let before = changes_made(marks.drop_last());
    if let Some(tally) = marks.last().tally() {
        assert(before.push(tally).drop_last() =~= before);
    }
}

/// Whether the handler was called at a mark.
pub open spec fn called_at(mark: Marked) -> bool {
    mark is Alarmed
}

/// Whether `marks` are the first marks on `executor`, in the order in which they
/// took effect.
pub open spec fn marks_on(executor: &Executor, marks: Seq<Marked>) -> bool {
    &&& executor.counter().start() == executor.workers()
    &&& are_marks(executor, marks)
    &&& forall|k: int|
        0 <= k < marks.len() ==> ((#[trigger] marks[k]).tally() matches Some(tally)
            ==> tally.at() == k)
}

/// A record that is carried along all of `marks` has exactly their changes added.
pub proof fn law_records_hold_every_change(records: Seq<Seq<Tally>>, marks: Seq<Marked>)
    requires
        records.len() == marks.len() + 1,
        forall|k: int|
            0 <= k < marks.len() ==> records[k + 1] == (#[trigger] marks[k]).logged(records[k]),
    ensures
        records.last() == records[0] + changes_made(marks),
    decreases marks.len(),
{
    if marks.len() > 0 {
        let fewer = marks.drop_last();
        assert forall|k: int| 0 <= k < fewer.len() implies records.drop_last()[k + 1] == (
        #[trigger] fewer[k]).logged(records.drop_last()[k]) by {
            assert(fewer[k] == marks[k]);
        }
        law_records_hold_every_change(records.drop_last(), fewer);
        let last = marks[marks.len() - 1];
        assert(records.last() == last.logged(records[marks.len() - 1]));
        assert(records.last() =~= records[0] + changes_made(marks));
    } else {
        assert(records.last() =~= records[0] + changes_made(marks));
    }
}

/// Whether `marks` were made in turn in one record: `records[k]` is what it held
/// before the mark `k`.
pub open spec fn recorded(records: Seq<Seq<Tally>>, marks: Seq<Marked>) -> bool {
    &&& records.len() == marks.len() + 1
    &&& forall|k: int|
        0 <= k < marks.len() ==> match (#[trigger] marks[k]).tally() {
            Some(tally) => {
                &&& tally.follows(records[k])
                &&& records[k + 1] == records[k].push(tally)
            },
            None => records[k + 1] == records[k],
        }
}

/// Every mark makes exactly one change of the count where there is a handler, and
/// none where there is not: so many changes are in a record after `k` marks.
pub proof fn law_marks_make_one_change_each(
    executor: &Executor,
    records: Seq<Seq<Tally>>,
    marks: Seq<Marked>,
    k: int,
)
    requires
        are_marks(executor, marks),
        recorded(records, marks),
        0 <= k <= marks.len(),
    ensures
        records[k].len() == records[0].len() + if executor.on_deadlock() is Some {
            k
        } else {
            0
        },
        changes_of(executor.counter(), records[k]) == changes_of(executor.counter(), records[0])
            + if executor.on_deadlock() is Some {
            k
        } else {
            0
        },
    decreases k,
{
    if k > 0 {
        law_marks_make_one_change_each(executor, records, marks, k - 1);
        let mark = marks[k - 1];
        assert(executor.blocked(mark) || executor.unblocked(mark));
        if let Some(tally) = mark.tally() {
            assert(records[k] == records[k - 1].push(tally));
            assert(records[k].drop_last() =~= records[k - 1]);
            assert(records[k].last() == tally);
        }
    }
}

/// The marks in a record take effect in the order in which they were made, whoever
/// else marks workers in the meantime.
pub proof fn law_marks_take_effect_in_turn(
    executor: &Executor,
    records: Seq<Seq<Tally>>,
    marks: Seq<Marked>,
    i: int,
    j: int,
)
    requires
        are_marks(executor, marks),
        recorded(records, marks),
        executor.on_deadlock() is Some,
        0 <= i < j < marks.len(),
    ensures
        marks[i].tally() is Some,
        marks[j].tally() is Some,
        marks[i].tally()->0.at() < marks[j].tally()->0.at(),
{
    assert(executor.blocked(marks[i]) || executor.unblocked(marks[i]));
    assert(executor.blocked(marks[j]) || executor.unblocked(marks[j]));
    lemma_recorded_stays(records, marks, i, j);
    law_marks_make_one_change_each(executor, records, marks, i);
    let tally = marks[i].tally()->0;
    assert(records[j][records[i].len() as int] == tally);
    assert(marks[j].tally()->0.follows(records[j]));
}

/// What is in a record stays there.
proof fn lemma_recorded_stays(records: Seq<Seq<Tally>>, marks: Seq<Marked>, i: int, j: int)
    requires
        recorded(records, marks),
        0 <= i < j <= marks.len(),
        marks[i].tally() is Some,
    ensures
        records[j].len() > records[i].len(),
        records[j][records[i].len() as int] == marks[i].tally()->0,
    decreases j,
{
    if i + 1 < j {
        lemma_recorded_stays(records, marks, i, j - 1);
        let mark = marks[j - 1];
        assert(records[j] == records[j - 1] || records[j] == records[j - 1].push(
            mark.tally()->0,
        ));
    } else {
        let mark = marks[i];
        assert(records[j] == records[i].push(mark.tally()->0));
    }
}

/// Where the count is only changed in one record, and nothing was in it before, the
/// change `k` of the count is that of the mark `k`.
pub proof fn law_changes_are_the_marks(
    executor: &Executor,
    records: Seq<Seq<Tally>>,
    marks: Seq<Marked>,
)
    requires
        executor.counter().start() == executor.workers(),
        executor.counter().solo(),
        executor.on_deadlock() is Some,
        are_marks(executor, marks),
        recorded(records, marks),
        changes_of(executor.counter(), records[0]) == 0,
    ensures
        marks_on(executor, marks),
        forall|k: int|
            0 <= k < marks.len() ==> {
                &&& (#[trigger] marks[k]).tally() matches Some(tally)
                &&& tally.at() == k
                &&& tally.change() == (executor.counter().changes())(k as nat)
            },
{
    assert forall|k: int| 0 <= k < marks.len() implies {
        &&& (#[trigger] marks[k]).tally() matches Some(tally)
        &&& tally.at() == k
        &&& tally.change() == (executor.counter().changes())(k as nat)
    } by {
        assert(executor.blocked(marks[k]) || executor.unblocked(marks[k]));
        law_marks_make_one_change_each(executor, records, marks, k);
        assert(marks[k].tally()->0.follows(records[k]));
    }
}

/// Where workers are only marked in one record, and no more of them as blocked than
/// there are, the handler is called exactly at the marks that leave all of them
/// blocked.
pub proof fn law_recorded_deadlocks_call_the_handler(
    executor: &Executor,
    records: Seq<Seq<Tally>>,
    marks: Seq<Marked>,
    k: int,
)
    requires
        executor.counter().start() == executor.workers(),
        executor.counter().solo(),
        executor.on_deadlock() is Some,
        are_marks(executor, marks),
        recorded(records, marks),
        changes_of(executor.counter(), records[0]) == 0,
        executor.workers() <= usize::MAX,
        0 <= k < marks.len(),
        0 <= blocks(marks.take(k + 1)) - unblocks(marks.take(k + 1)) <= executor.workers(),
    ensures
        called_at(marks[k]) <==> {
            &&& executor.blocked(marks[k])
            &&& blocks(marks.take(k + 1)) - unblocks(marks.take(k + 1)) == executor.workers()
        },
{
    law_changes_are_the_marks(executor, records, marks);
    law_handler_is_called_when_all_are_blocked(executor, marks, k);
}

/// The count after `marks` is the number of workers, less those that were marked as
/// blocked, and those that were marked as unblocked again.
pub proof fn law_count_is_of_the_marks(executor: &Executor, marks: Seq<Marked>)
    requires
        are_marks(executor, marks),
    ensures
        unblocked_after(executor, marks) == executor.counter().start() - blocks(marks) + unblocks(
            marks,
        ),
    decreases marks.len(),
{
    if marks.len() > 0 {
        assert(marks.last() == marks[marks.len() - 1]);
        assert forall|k: int| 0 <= k < marks.drop_last().len() implies executor.blocked(
            #[trigger] marks.drop_last()[k],
        ) || executor.unblocked(marks.drop_last()[k]) by {
            assert(marks.drop_last()[k] == marks[k]);
        }
        law_count_is_of_the_marks(executor, marks.drop_last());
        lemma_one_more(marks);
    }
}

/// The changes of the count are those of the marks.
proof fn lemma_changes_are_marks(executor: &Executor, marks: Seq<Marked>, k: int)
    requires
        marks_on(executor, marks),
        executor.on_deadlock() is Some,
        0 <= k <= marks.len(),
    ensures
        executor.counter().after(k as nat) == unblocked_after(executor, marks.take(k)),
    decreases k,
{
    if k > 0 {
        lemma_changes_are_marks(executor, marks, k - 1);
        assert(marks.take(k).drop_last() =~= marks.take(k - 1));
        assert(marks.take(k).last() == marks[k - 1]);
        lemma_one_more(marks.take(k));
        let mark = marks[k - 1];
        assert(mark.tally() is Some);
    }
}

/// Every mark finds the count that the marks before it have left.
pub proof fn law_marks_are_counted(executor: &Executor, marks: Seq<Marked>, k: int)
    requires
        marks_on(executor, marks),
        executor.on_deadlock() is Some,
        0 <= k < marks.len(),
    ensures
        marks[k].tally() matches Some(tally) && tally.before() == wrapped(
            unblocked_after(executor, marks.take(k)),
        ),
{
    lemma_changes_are_marks(executor, marks, k);
    assert(marks[k].tally() is Some);
}

/// The handler for deadlocks is called exactly when a worker is marked as blocked
/// and the count of unblocked workers, which wraps around, is zero after that.
pub proof fn law_handler_is_called_on_deadlock(executor: &Executor, marks: Seq<Marked>, k: int)
    requires
        marks_on(executor, marks),
        executor.on_deadlock() is Some,
        0 <= k < marks.len(),
    ensures
        called_at(marks[k]) <==> {
            &&& executor.blocked(marks[k])
            &&& wrapped(unblocked_after(executor, marks.take(k + 1))) == 0
        },
{
    law_marks_are_counted(executor, marks, k);
    assert(marks.take(k + 1).drop_last() =~= marks.take(k));
    assert(marks.take(k + 1).last() == marks[k]);
    lemma_one_more(marks.take(k + 1));
    let before = unblocked_after(executor, marks.take(k));
    let limit = usize::MAX + 1;
    if executor.blocked(marks[k]) {
        assert(unblocked_after(executor, marks.take(k + 1)) == before - 1);
        assert(before % limit == 1 <==> (before - 1) % limit == 0) by (nonlinear_arith)
            requires
                limit > 1,
        ;
    }
}

/// Where no more workers are marked as blocked than there are, the handler is
/// called exactly at the marks that leave all of them blocked.
pub proof fn law_handler_is_called_when_all_are_blocked(
    executor: &Executor,
    marks: Seq<Marked>,
    k: int,
)
    requires
        marks_on(executor, marks),
        executor.on_deadlock() is Some,
        executor.workers() <= usize::MAX,
        0 <= k < marks.len(),
        0 <= blocks(marks.take(k + 1)) - unblocks(marks.take(k + 1)) <= executor.workers(),
    ensures
        called_at(marks[k]) <==> {
            &&& executor.blocked(marks[k])
            &&& blocks(marks.take(k + 1)) - unblocks(marks.take(k + 1)) == executor.workers()
        },
{
    law_handler_is_called_on_deadlock(executor, marks, k);
    let count = unblocked_after(executor, marks.take(k + 1));
    assert forall|j: int| 0 <= j < k + 1 implies executor.blocked(
        #[trigger] marks.take(k + 1)[j],
    ) || executor.unblocked(marks.take(k + 1)[j]) by {
        assert(marks.take(k + 1)[j] == marks[j]);
    }
    law_count_is_of_the_marks(executor, marks.take(k + 1));
    lemma_small_mod(count as nat, (usize::MAX + 1) as nat);
}

/// Without a handler the marks make no change at all, however many there are, and
/// call nothing.
pub proof fn law_unwatched_marks_change_nothing(executor: &Executor, marks: Seq<Marked>)
    requires
        executor.on_deadlock() is None,
        are_marks(executor, marks),
    ensures
        changes_made(marks) == Seq::<Tally>::empty(),
        unblocked_after(executor, marks) == executor.counter().start(),
        forall|k: int| 0 <= k < marks.len() ==> !called_at(#[trigger] marks[k]),
    decreases marks.len(),
{
    if marks.len() > 0 {
        let last = marks.last();
        assert(last == marks[marks.len() - 1]);
        assert forall|k: int| 0 <= k < marks.drop_last().len() implies executor.blocked(
            #[trigger] marks.drop_last()[k],
        ) || executor.unblocked(marks.drop_last()[k]) by {
            assert(marks.drop_last()[k] == marks[k]);
        }
        law_unwatched_marks_change_nothing(executor, marks.drop_last());
        assert forall|k: int| 0 <= k < marks.len() implies !called_at(#[trigger] marks[k]) by {}
    }
}

/// A worker that is marked as blocked and then as unblocked leaves the count as
/// it was, and the second of the marks calls no handler.
pub proof fn law_unblocking_undoes_blocking(
    executor: &Executor,
    marks: Seq<Marked>,
    first: Marked,
    second: Marked,
)
    requires
        executor.blocked(first),
        executor.unblocked(second),
    ensures
        unblocked_after(executor, marks.push(first).push(second)) == unblocked_after(
            executor,
            marks,
        ),
        !called_at(second),
{
    let once = marks.push(first);
    let twice = once.push(second);
    assert(once.drop_last() =~= marks && once.last() == first);
    assert(twice.drop_last() =~= once && twice.last() == second);
    lemma_one_more(once);
    lemma_one_more(twice);
}

} // verus!
