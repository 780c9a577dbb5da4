//! Laws of waits and notifications.
use vstd::prelude::*;

use crate::condvar::{Awoken, Condvar, CondvarWait, Waiting};
use crate::event::Notified;
use crate::lock::MutexGuard;

verus! {

/// A wait that blocks the thread ends with a notification of the condition variable
/// that woke somebody. It was made while the wait listened, so after that had begun;
/// unless it had been made for another wait, which was given up before it took note.
pub proof fn law_waits_end_with_a_notification<'a, T>(
    condvar: &Condvar,
    guard: MutexGuard<'a, T>,
    wait: CondvarWait<'a, T>,
)
    requires
        condvar.waited(guard, false, wait),
    ensures
        wait matches CondvarWait::Woken(again) && {
            &&& again.after().cause().event() == condvar.event()
            &&& again.after().cause().woken() > 0
            &&& !again.after().passed_on() ==> again.after().cause().listeners().contains(
                again.after().freed().listener(),
            )
            &&& again.after().freed().event() == condvar.event()
            &&& again.after().freed().mutex() == guard.mutex()
            &&& again.after().freed().left() == guard@
            &&& again.guard().mutex() == guard.mutex()
        },
{
}

/// How a wait goes on when it is polled so often, the first `len - 1` times in vain.
pub open spec fn polled_in_vain<'a, T>(waits: Seq<Waiting<'a, T>>) -> bool {
    forall|k: int|
        0 <= k < waits.len() - 1 ==> (#[trigger] waits[k]).polled(
            Err::<Awoken<'a, T>, Waiting<'a, T>>(waits[k + 1]),
        )
}

/// A wait that suspends a coroutine ends in the same way, however often it is polled
/// before that: the listener that began before the mutex was given up is the one that
/// hears the notification.
pub proof fn law_suspended_waits_end_with_a_notification<'a, T>(
    condvar: &Condvar,
    guard: MutexGuard<'a, T>,
    waits: Seq<Waiting<'a, T>>,
    awoken: Awoken<'a, T>,
)
    requires
        waits.len() > 0,
        condvar.waited(guard, true, CondvarWait::Suspend(waits[0])),
        polled_in_vain(waits),
        waits.last().polled(Ok::<Awoken<'a, T>, Waiting<'a, T>>(awoken)),
    ensures
        waits.last().polls() == waits.len() - 1,
        awoken.heard().cause().event() == condvar.event(),
        awoken.heard().cause().woken() > 0,
        !awoken.heard().passed_on() ==> awoken.heard().cause().listeners().contains(
            awoken.heard().freed().listener(),
        ),
        awoken.heard().freed().mutex() == guard.mutex(),
        awoken.heard().freed().left() == guard@,
        awoken.mutex() == guard.mutex(),
{
    lemma_polls_keep_the_wait(waits, waits.len() - 1);
}

/// What polling in vain leaves of a wait.
proof fn lemma_polls_keep_the_wait<'a, T>(waits: Seq<Waiting<'a, T>>, k: int)
    requires
        0 <= k < waits.len(),
        polled_in_vain(waits),
    ensures
        waits[k].event() == waits[0].event(),
        waits[k].listener() == waits[0].listener(),
        waits[k].freed() == waits[0].freed(),
        waits[k].mutex() == waits[0].mutex(),
        waits[k].polls() == waits[0].polls() + k,
    decreases k,
{
    if k > 0 {
        lemma_polls_keep_the_wait(waits, k - 1);
        let earlier = waits[k - 1];
        assert(earlier.polled(Err::<Awoken<'a, T>, Waiting<'a, T>>(waits[k])));
    }
}

/// Whether `notices` were made on `condvar` in turn in one record: `records[k]` is
/// what it held before the notification `k`.
pub open spec fn noted(
    condvar: &Condvar,
    records: Seq<Seq<Notified>>,
    notices: Seq<Notified>,
) -> bool {
    &&& records.len() == notices.len() + 1
    &&& forall|k: int|
        0 <= k < notices.len() ==> {
            &&& (#[trigger] notices[k]).event() == condvar.event()
            &&& records[k + 1] == records[k].push(notices[k])
        }
}

/// A record that is carried along has exactly one notification added for each call
/// that notifies, of that condition variable.
pub proof fn law_records_hold_every_notification(
    condvar: &Condvar,
    records: Seq<Seq<Notified>>,
    notices: Seq<Notified>,
)
    requires
        noted(condvar, records, notices),
    ensures
        records.last() == records[0] + notices,
        forall|k: int|
            0 <= k < notices.len() ==> (#[trigger] records.last()[records[0].len() + k]).event()
                == condvar.event(),
    decreases notices.len(),
{
    if notices.len() > 0 {
        let fewer = notices.drop_last();
        assert forall|k: int| 0 <= k < fewer.len() implies {
            &&& (#[trigger] fewer[k]).event() == condvar.event()
            &&& records.drop_last()[k + 1] == records.drop_last()[k].push(fewer[k])
        } by {
            assert(fewer[k] == notices[k]);
        }
        law_records_hold_every_notification(condvar, records.drop_last(), fewer);
        let last = notices[notices.len() - 1];
        assert(records.last() == records[notices.len() - 1].push(last));
        assert(fewer.push(last) =~= notices);
    }
    assert(records.last() =~= records[0] + notices);
    assert forall|k: int| 0 <= k < notices.len() implies (#[trigger] records.last()[
        records[0].len() + k
    ]).event() == condvar.event() by {
        assert(records.last()[records[0].len() + k] == notices[k]);
    }
}

} // verus!
