//! When the diff of a view is recalculated, if nothing is late.

use crate::recalculate::RecalculateStep;
use crate::session::{Session, SessionEvent};
use vstd::prelude::*;

verus! {

/// Whether `event` is a change to a buffer that calls for a recalculation.
pub open spec fn is_relevant_change<T, L>(event: SessionEvent<T, L>) -> bool {
    event matches SessionEvent::BufferChanged { event, .. } && event.affects_diff_spec()
}

/// When the relevant changes among `events` happen, in order.
pub open spec fn change_times<T, L>(events: Seq<SessionEvent<T, L>>, times: Seq<int>) -> Seq<int>
    decreases events.len(),
{
    if events.len() == 0 {
        Seq::empty()
    } else {
        let before = change_times(events.drop_last(), times.drop_last());
        if is_relevant_change(events.last()) {
            before.push(times.last())
        } else {
            before
        }
    }
}

/// For changes at the given times, the ends of the debounce time behind each of
/// those whose successor comes no earlier than that.
pub open spec fn quiet_times_between(changes: Seq<int>) -> Seq<int>
    decreases changes.len(),
{
    if changes.len() <= 1 {
        Seq::empty()
    } else {
        let before = quiet_times_between(changes.drop_last());
        let end = changes[changes.len() - 2] + crate::recalculate::RECALCULATE_DIFF_DEBOUNCE_MILLIS;
        if changes.last() >= end {
            before.push(end)
        } else {
            before
        }
    }
}

/// For changes at the given times, the ends of the debounce time behind each of
/// those whose successor comes no earlier than that, and behind the last.
pub open spec fn quiet_times(changes: Seq<int>) -> Seq<int> {
    if changes.len() == 0 {
        Seq::empty()
    } else {
        quiet_times_between(changes).push(
            changes.last() + crate::recalculate::RECALCULATE_DIFF_DEBOUNCE_MILLIS,
        )
    }
}

impl<T, L, E> Session<T, L, E> {
    /// Whether the diff is being recalculated.
    pub open spec fn is_recalculating(self) -> bool {
        self.step is ReadSnapshots || self.step is SetBaseText
    }

    /// When the last timer was started, where `events` happen at `times`.
    pub open spec fn timer_start(self, events: Seq<SessionEvent<T, L>>, times: Seq<int>) -> int
        decreases events.len(),
    {
        if events.len() == 0 {
            0
        } else if events.last() is ChangeReceived && self.run(events.drop_last()).can_receive() {
            times.last()
        } else {
            self.timer_start(events.drop_last(), times.drop_last())
        }
    }

    /// When the task receives changes, where `events` happen at `times`.
    pub open spec fn receipt_times(
        self,
        events: Seq<SessionEvent<T, L>>,
        times: Seq<int>,
    ) -> Seq<int>
        decreases events.len(),
    {
        if events.len() == 0 {
            Seq::empty()
        } else {
            let before = self.receipt_times(events.drop_last(), times.drop_last());
            if events.last() is ChangeReceived && self.run(events.drop_last()).can_receive() {
                before.push(times.last())
            } else {
                before
            }
        }
    }

    /// When recalculations start, where `events` happen at `times`.
    pub open spec fn recalculation_times(
        self,
        events: Seq<SessionEvent<T, L>>,
        times: Seq<int>,
    ) -> Seq<int>
        decreases events.len(),
    {
        if events.len() == 0 {
            Seq::empty()
        } else {
            let before = self.recalculation_times(events.drop_last(), times.drop_last());
            if events.last() is TimerElapsed && self.run(events.drop_last()).step is Debounce {
                before.push(times.last())
            } else {
                before
            }
        }
    }

    /// Whether `events` happen at `times`, in milliseconds, with no delay:
    /// - Time does not go back, and stands still while there is a change that the
    ///   task can receive.
    /// - A timer runs out exactly when the debounce time is over, and comes
    ///   before a change that could be received at that moment.
    ///
    /// A recalculation may take any time.
    pub open spec fn is_prompt(self, events: Seq<SessionEvent<T, L>>, times: Seq<int>) -> bool
        decreases events.len(),
    {
        &&& times.len() == events.len()
        &&& events.len() > 0 ==> {
            let session = self.run(events.drop_last());
            let event = events.last();
            let time = times.last();
            let timer_end = self.timer_start(events.drop_last(), times.drop_last())
                + crate::recalculate::RECALCULATE_DIFF_DEBOUNCE_MILLIS;
            &&& self.is_prompt(events.drop_last(), times.drop_last())
            &&& events.len() > 1 ==> times[times.len() - 2] <= time
            &&& events.len() > 1 && session.can_receive() ==> times[times.len() - 2] == time
            &&& session.step is Debounce ==> time <= timer_end
            &&& session.step is Debounce && event is TimerElapsed ==> time == timer_end
            &&& session.step is Debounce && session.can_receive() && event is ChangeReceived
                ==> time < timer_end
        }
    }

    /// Whether recalculations take no time, where `events` happen at `times`.
    pub open spec fn recalculates_at_once(
        self,
        events: Seq<SessionEvent<T, L>>,
        times: Seq<int>,
    ) -> bool
        decreases events.len(),
    {
        events.len() > 1 ==> {
            &&& self.recalculates_at_once(events.drop_last(), times.drop_last())
            &&& self.run(events.drop_last()).is_recalculating() ==> times[times.len() - 2]
                == times.last()
        }
    }
}

/// How the recalculations so far relate to the changes received so far.
spec fn is_on_schedule<T, L, E>(
    session: Session<T, L, E>,
    receipts: Seq<int>,
    recalculations: Seq<int>,
    timer_start: int,
    now: int,
) -> bool {
    let debounce = crate::recalculate::RECALCULATE_DIFF_DEBOUNCE_MILLIS;
    match session.step {
        RecalculateStep::Debounce { .. } => {
            &&& receipts.len() > 0
            &&& receipts.last() == timer_start
            &&& timer_start <= now <= timer_start + debounce
            &&& recalculations == quiet_times_between(receipts)
        },
        RecalculateStep::Finished(_) => false,
        _ => {
            &&& receipts.len() > 0 ==> now >= receipts.last() + debounce
            &&& session.is_recalculating() ==> receipts.len() > 0
            &&& recalculations == quiet_times(receipts)
        },
    }
}

proof fn lemma_prompt_session_is_on_schedule<T, L, E>(
    session: Session<T, L, E>,
    events: Seq<SessionEvent<T, L>>,
    times: Seq<int>,
)
    requires
        session.is_settled(),
        session.is_prompt(events, times),
        events.len() > 0,
    ensures
        is_on_schedule(
            session.run(events),
            session.receipt_times(events, times),
            session.recalculation_times(events, times),
            session.timer_start(events, times),
            times.last(),
        ),
    decreases events.len(),
{
    let init = events.drop_last();
    let before = times.drop_last();
    let receipts = session.receipt_times(init, before);
    assert(receipts.push(times.last()).drop_last() =~= receipts);
    if init.len() > 0 {
        lemma_prompt_session_is_on_schedule(session, init, before);
        assert(before.last() == times[times.len() - 2]);
    } else {
        assert(receipts =~= Seq::empty());
        assert(session.recalculation_times(init, before) =~= Seq::empty());
        assert(session.run(init) == session);
    }
}

/// If nothing is late, the diff is recalculated exactly when the debounce time
/// is over behind the receipt of a change that is the last, or whose successor is
/// received no earlier than that. This holds however long recalculations take.
pub proof fn law_recalculations_end_quiet_times<T, L, E>(
    session: Session<T, L, E>,
    events: Seq<SessionEvent<T, L>>,
    times: Seq<int>,
)
    requires
        session.is_settled(),
        session.is_prompt(events, times),
        session.run(events).is_settled(),
    ensures
        session.recalculation_times(events, times) == quiet_times(
            session.receipt_times(events, times),
        ),
        session.recalculation_times(events, times).len() <= session.receipt_times(
            events,
            times,
        ).len(),
{
    if events.len() > 0 {
        lemma_prompt_session_is_on_schedule(session, events, times);
    }
    lemma_quiet_times_len(session.receipt_times(events, times));
}

/// How the recalculations so far relate to the changes so far, if recalculations
/// take no time.
spec fn is_on_time<T, L, E>(
    session: Session<T, L, E>,
    changes: Seq<int>,
    recalculations: Seq<int>,
    timer_start: int,
    now: int,
) -> bool {
    let timer_end = timer_start + crate::recalculate::RECALCULATE_DIFF_DEBOUNCE_MILLIS;
    if session.change_pending {
        &&& changes.len() > 0
        &&& changes.last() == now
        &&& if session.step is Debounce {
            &&& timer_start <= now <= timer_end
            &&& now < timer_end ==> recalculations == quiet_times_between(changes)
            &&& now == timer_end ==> recalculations.push(now) == quiet_times_between(changes)
        } else {
            recalculations == quiet_times_between(changes)
        }
    } else if session.step is Debounce {
        &&& changes.len() > 0
        &&& changes.last() == timer_start
        &&& timer_start <= now <= timer_end
        &&& recalculations == quiet_times_between(changes)
    } else {
        &&& changes.len() > 0 ==> now >= changes.last()
            + crate::recalculate::RECALCULATE_DIFF_DEBOUNCE_MILLIS
        &&& session.is_recalculating() ==> changes.len() > 0
        &&& recalculations == quiet_times(changes)
    }
}

proof fn lemma_instant_session_is_on_time<T, L, E>(
    session: Session<T, L, E>,
    events: Seq<SessionEvent<T, L>>,
    times: Seq<int>,
)
    requires
        session.is_settled(),
        session.is_prompt(events, times),
        session.recalculates_at_once(events, times),
        events.len() > 0,
    ensures
        is_on_time(
            session.run(events),
            change_times(events, times),
            session.recalculation_times(events, times),
            session.timer_start(events, times),
            times.last(),
        ),
        !(session.run(events).step is Finished),
    decreases events.len(),
{
    let init = events.drop_last();
    let before = times.drop_last();
    let changes = change_times(init, before);
    assert(changes.push(times.last()).drop_last() =~= changes);
    if init.len() > 0 {
        lemma_instant_session_is_on_time(session, init, before);
        assert(before.last() == times[times.len() - 2]);
    } else {
        assert(changes =~= Seq::empty());
        assert(session.recalculation_times(init, before) =~= Seq::empty());
        assert(session.run(init) == session);
    }
}

/// If nothing is late and recalculations take no time, the diff is recalculated
/// exactly when the debounce time is over behind a change that is the last, or
/// whose successor comes no earlier than that. So it is never recalculated without
/// a change, nor more often than there are changes.
pub proof fn law_recalculations_follow_changes<T, L, E>(
    session: Session<T, L, E>,
    events: Seq<SessionEvent<T, L>>,
    times: Seq<int>,
)
    requires
        session.is_settled(),
        session.is_prompt(events, times),
        session.recalculates_at_once(events, times),
        session.run(events).is_settled(),
    ensures
        session.recalculation_times(events, times) == quiet_times(change_times(events, times)),
        session.recalculation_times(events, times).len() <= change_times(events, times).len(),
{
    if events.len() > 0 {
        lemma_instant_session_is_on_time(session, events, times);
    }
    lemma_quiet_times_len(change_times(events, times));
}

/// Whether event `i` ends a recalculation while a change is pending.
pub open spec fn ends_with_change_pending<T, L, E>(
    session: Session<T, L, E>,
    events: Seq<SessionEvent<T, L>>,
    i: int,
) -> bool {
    &&& 0 <= i < events.len()
    &&& events[i] is BaseTextSet
    &&& session.run(events.take(i)).step is SetBaseText
    &&& session.run(events.take(i)).change_pending
}

/// How the session goes on behind a recalculation that ends at `end` with a change
/// pending, if no other change comes. `earlier` is when recalculations started up
/// to that end.
spec fn is_catching_up<T, L, E>(
    session: Session<T, L, E>,
    recalculations: Seq<int>,
    earlier: Seq<int>,
    timer_start: int,
    now: int,
    end: int,
) -> bool {
    let next = earlier.push(end + crate::recalculate::RECALCULATE_DIFF_DEBOUNCE_MILLIS);
    if session.change_pending {
        session.step is WaitForChange && now == end && recalculations == earlier
    } else if session.step is Debounce {
        timer_start == end && recalculations == earlier
    } else {
        recalculations == next
    }
}

proof fn lemma_session_catches_up<T, L, E>(
    session: Session<T, L, E>,
    events: Seq<SessionEvent<T, L>>,
    times: Seq<int>,
    end: int,
)
    requires
        session.is_prompt(events, times),
        ends_with_change_pending(session, events, end),
        forall|i: int| end < i < events.len() ==> !is_relevant_change(#[trigger] events[i]),
    ensures
        is_catching_up(
            session.run(events),
            session.recalculation_times(events, times),
            session.recalculation_times(events.take(end + 1), times.take(end + 1)),
            session.timer_start(events, times),
            times.last(),
            times[end],
        ),
    decreases events.len(),
{
    let init = events.drop_last();
    let before = times.drop_last();
    if end < init.len() {
        assert(init.take(end) =~= events.take(end));
        assert(init.take(end + 1) =~= events.take(end + 1));
        assert(before.take(end + 1) =~= times.take(end + 1));
        assert forall|i: int| end < i < init.len() implies !is_relevant_change(
            #[trigger] init[i],
        ) by {
            assert(init[i] == events[i]);
        }
        lemma_session_catches_up(session, init, before, end);
        assert(!is_relevant_change(events[events.len() - 1]));
        assert(before.last() == times[times.len() - 2]);
    } else {
        assert(init =~= events.take(end));
        assert(events.take(end + 1) =~= events);
        assert(times.take(end + 1) =~= times);
    }
}

/// However long a recalculation takes: if a change is pending when it ends, no
/// other comes and nothing is late, then exactly one more recalculation starts,
/// when the debounce time behind that end is over.
pub proof fn law_change_during_recalculation_waits_for_its_end<T, L, E>(
    session: Session<T, L, E>,
    events: Seq<SessionEvent<T, L>>,
    times: Seq<int>,
    end: int,
)
    requires
        session.is_prompt(events, times),
        ends_with_change_pending(session, events, end),
        forall|i: int| end < i < events.len() ==> !is_relevant_change(#[trigger] events[i]),
        session.run(events).is_settled(),
    ensures
        session.recalculation_times(events, times) == session.recalculation_times(
            events.take(end + 1),
            times.take(end + 1),
        ).push(times[end] + crate::recalculate::RECALCULATE_DIFF_DEBOUNCE_MILLIS),
{
    lemma_session_catches_up(session, events, times, end);
}

/// Whether change `i` is the last, or the debounce time passes before the next.
pub open spec fn is_followed_by_quiet(changes: Seq<int>, i: int) -> bool {
    &&& 0 <= i < changes.len()
    &&& i + 1 == changes.len() || changes[i + 1] - changes[i]
        >= crate::recalculate::RECALCULATE_DIFF_DEBOUNCE_MILLIS
}

/// The quiet times of changes in the order in which they come are those behind
/// exactly the changes that quiet follows, in order.
pub proof fn law_quiet_times_are_exact(changes: Seq<int>)
    requires
        forall|i: int, j: int| 0 <= i <= j < changes.len() ==> changes[i] <= changes[j],
    ensures
        forall|i: int| #[trigger]
            is_followed_by_quiet(changes, i) ==> quiet_times(changes).contains(
                changes[i] + crate::recalculate::RECALCULATE_DIFF_DEBOUNCE_MILLIS,
            ),
        forall|k: int|
            0 <= k < quiet_times(changes).len() ==> exists|i: int|
                is_followed_by_quiet(changes, i) && #[trigger] quiet_times(changes)[k] == changes[i]
                    + crate::recalculate::RECALCULATE_DIFF_DEBOUNCE_MILLIS,
        forall|j: int, k: int|
            0 <= j < k < quiet_times(changes).len() ==> quiet_times(changes)[j] < quiet_times(
                changes,
            )[k],
    decreases changes.len(),
{
    let debounce = crate::recalculate::RECALCULATE_DIFF_DEBOUNCE_MILLIS;
    let quiet = quiet_times(changes);
    let n = changes.len() as int;
    if n > 0 {
        assert(is_followed_by_quiet(changes, n - 1));
        assert(quiet.last() == changes[n - 1] + debounce);
    }
    if n > 1 {
        let init = changes.drop_last();
        let between = quiet_times_between(init);
        let before = quiet_times(init);
        law_quiet_times_are_exact(init);
        assert(before == between.push(init.last() + debounce));
        assert forall|i: int| #[trigger] is_followed_by_quiet(changes, i) implies quiet.contains(
            changes[i] + debounce,
        ) by {
            if i < n - 1 {
                assert(is_followed_by_quiet(init, i));
                let k = choose|k: int| 0 <= k < before.len() && before[k] == changes[i] + debounce;
                if i == n - 2 {
                    assert(quiet[quiet.len() - 2] == changes[i] + debounce);
                } else {
                    assert(changes[i] < changes[i + 1] <= changes[n - 2]);
                    assert(k < between.len());
                    assert(quiet[k] == before[k]);
                }
            }
        }
        assert forall|k: int| 0 <= k < quiet.len() implies exists|i: int|
            is_followed_by_quiet(changes, i) && #[trigger] quiet[k] == changes[i] + debounce by {
            if k < between.len() {
                assert(quiet[k] == before[k]);
                let i = choose|i: int|
                    is_followed_by_quiet(init, i) && before[k] == changes[i] + debounce;
                assert(before[k] < before.last());
                assert(i != n - 2);
                assert(is_followed_by_quiet(changes, i));
            } else if k < quiet.len() - 1 {
                assert(is_followed_by_quiet(changes, n - 2));
            }
        }
        assert forall|j: int, k: int| 0 <= j < k < quiet.len() implies quiet[j] < quiet[k] by {
            if k < between.len() {
                assert(before[j] < before[k]);
            } else if j < between.len() {
                assert(before[j] < before.last());
            }
        }
    }
}

proof fn lemma_quiet_times_len(changes: Seq<int>)
    ensures
        changes.len() > 0 ==> quiet_times_between(changes).len() < changes.len(),
        quiet_times(changes).len() <= changes.len(),
    decreases changes.len(),
{
    if changes.len() > 1 {
        lemma_quiet_times_len(changes.drop_last());
    }
}

} // verus!
