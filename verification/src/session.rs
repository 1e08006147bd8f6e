//! A view at work: two buffers that change, the signal that tells the task of
//! the view so, and the texts that the diff was last computed from.
//!
//! The signal holds at most one change: further ones add nothing until the task
//! has received it. All of this is specification. It states what the task of
//! [`crate::recalculate`] achieves together with its surroundings.

use crate::diff::{BufferDiffPlan, BufferSnapshot};
use crate::recalculate::{BufferEvent, RecalculateEvent, RecalculateStep, ViewSnapshots};
use vstd::prelude::*;

verus! {

/// One of the two buffers of a view.
pub enum Side {
    Old,
    New,
}

/// The state of a view that knows both of its buffers and keeps its diff up to
/// date.
pub struct Session<T, L, E> {
    pub old: BufferSnapshot<T, L>,
    pub new: BufferSnapshot<T, L>,
    /// Whether a change was signalled that the task has not received.
    pub change_pending: bool,
    pub step: RecalculateStep<T, L, E>,
    /// The texts that the diff was last computed from.
    pub base_text: Option<T>,
    pub buffer_text: T,
}

/// What can happen in a session.
pub enum SessionEvent<T, L> {
    /// A buffer emits `event`, and is as in `snapshot` from then on.
    BufferChanged { side: Side, event: BufferEvent, snapshot: BufferSnapshot<T, L> },
    /// The task receives the pending change.
    ChangeReceived,
    TimerElapsed,
    SnapshotsRead,
    /// The diff takes over the texts that the task hands it, or fails to.
    BaseTextSet { succeeded: bool },
}

impl<T, L, E> Session<T, L, E> {
    /// The session after `event`. What the task is not ready for does not
    /// happen.
    pub open spec fn after(self, event: SessionEvent<T, L>) -> Self {
        match event {
            SessionEvent::BufferChanged { side: Side::Old, event, snapshot } => Session {
                old: snapshot,
                change_pending: self.change_pending || event.affects_diff_spec(),
                ..self
            },
            SessionEvent::BufferChanged { side: Side::New, event, snapshot } => Session {
                new: snapshot,
                change_pending: self.change_pending || event.affects_diff_spec(),
                ..self
            },
            SessionEvent::ChangeReceived => if self.can_receive() {
                Session {
                    change_pending: false,
                    step: self.step.after(RecalculateEvent::Changed),
                    ..self
                }
            } else {
                self
            },
            SessionEvent::TimerElapsed => Session {
                step: self.step.after(RecalculateEvent::TimerElapsed),
                ..self
            },
            SessionEvent::SnapshotsRead => Session {
                step: self.step.after(
                    RecalculateEvent::SnapshotsRead(
                        Ok(ViewSnapshots { old: Some(self.old), new: self.new }),
                    ),
                ),
                ..self
            },
            SessionEvent::BaseTextSet { succeeded } => {
                let step = self.step.after(RecalculateEvent::BaseTextSet { succeeded });
                match self.step {
                    RecalculateStep::SetBaseText { base_text, buffer_text, .. } if succeeded =>
                    Session { step, base_text, buffer_text, ..self },
                    _ => Session { step, ..self },
                }
            },
        }
    }

    /// The session after `events`, one after the other.
    pub open spec fn run(self, events: Seq<SessionEvent<T, L>>) -> Self
        decreases events.len(),
    {
        if events.len() == 0 {
            self
        } else {
            self.run(events.drop_last()).after(events.last())
        }
    }

    /// The session after the task was given the chance to finish what it is
    /// doing and to deal with a pending change.
    pub open spec fn after_round(self) -> Self {
        self.after(SessionEvent::BaseTextSet { succeeded: true }).after(
            SessionEvent::ChangeReceived,
        ).after(SessionEvent::TimerElapsed).after(SessionEvent::SnapshotsRead).after(
            SessionEvent::BaseTextSet { succeeded: true },
        )
    }

    /// Whether `event` is as it should be: a buffer does not change its text
    /// without saying so, and the diff does not fail.
    pub open spec fn is_regular(self, event: SessionEvent<T, L>) -> bool {
        match event {
            SessionEvent::BufferChanged { side, event, snapshot } => event.affects_diff_spec()
                || snapshot.text == self.text_of(side),
            SessionEvent::BaseTextSet { succeeded } => succeeded,
            _ => true,
        }
    }

    /// Whether each of `events` is as it should be when it happens.
    pub open spec fn are_regular(self, events: Seq<SessionEvent<T, L>>) -> bool {
        forall|i: int|
            0 <= i < events.len() ==> #[trigger] self.run(events.take(i)).is_regular(events[i])
    }

    /// Whether a change is pending that the task is ready for.
    pub open spec fn can_receive(self) -> bool {
        self.change_pending && (self.step is WaitForChange || self.step is Debounce)
    }

    /// The text of one of the buffers.
    pub open spec fn text_of(self, side: Side) -> T {
        match side {
            Side::Old => self.old.text,
            Side::New => self.new.text,
        }
    }

    /// Whether the diff was computed from the texts that the buffers hold.
    pub open spec fn diff_is_current(self) -> bool {
        self.base_text == Some(self.old.text) && self.buffer_text == self.new.text
    }

    /// Whether the task has nothing to do.
    pub open spec fn is_settled(self) -> bool {
        self.step is WaitForChange && !self.change_pending
    }

    /// What every session keeps to: the task goes on, and a diff that is not
    /// current is being dealt with.
    pub open spec fn is_consistent(self) -> bool {
        &&& !(self.step is Finished)
        &&& self.is_settled() ==> self.diff_is_current()
        &&& !self.change_pending ==> (self.step matches RecalculateStep::SetBaseText {
            base_text,
            buffer_text,
            ..
        } ==> base_text == Some(self.old.text) && buffer_text == self.new.text)
    }
}

/// A session that starts with the first diff of its buffers is consistent, and
/// that diff is current.
pub proof fn law_new_session_is_consistent<'a, T, L, E>(
    session: Session<T, L, E>,
    plan: BufferDiffPlan<'a, T, L>,
)
    requires
        session.step is WaitForChange,
        plan.compares(session.old, session.new),
        session.base_text == Some(*plan.base_text->0),
        session.buffer_text == *plan.buffer_text,
    ensures
        session.is_consistent(),
        session.diff_is_current(),
{
}

/// A consistent session stays consistent as long as no buffer changes in silence
/// and the diff does not fail. So whenever its task has nothing to do, the diff
/// reflects both buffers.
pub proof fn law_settled_diff_is_current<T, L, E>(
    session: Session<T, L, E>,
    events: Seq<SessionEvent<T, L>>,
)
    requires
        session.is_consistent(),
        session.are_regular(events),
    ensures
        session.run(events).is_consistent(),
        session.run(events).is_settled() ==> session.run(events).diff_is_current(),
    decreases events.len(),
{
    if events.len() != 0 {
        let init = events.drop_last();
        assert forall|i: int| 0 <= i < init.len() implies #[trigger] session.run(
            init.take(i),
        ).is_regular(init[i]) by {
            assert(init.take(i) =~= events.take(i));
            assert(session.run(events.take(i)).is_regular(events[i]));
        }
        law_settled_diff_is_current(session, init);
        assert(events.take(events.len() - 1) =~= init);
        assert(session.run(events.take(events.len() - 1)).is_regular(events.last()));
    }
}

/// Nothing that happens in a session ends its task, not even a diff that fails.
pub proof fn law_task_goes_on<T, L, E>(
    session: Session<T, L, E>,
    events: Seq<SessionEvent<T, L>>,
)
    requires
        !(session.step is Finished),
    ensures
        !(session.run(events).step is Finished),
    decreases events.len(),
{
    if events.len() != 0 {
        law_task_goes_on(session, events.drop_last());
    }
}

/// Once the buffers rest, the diff comes to reflect them.
pub proof fn law_resting_session_settles<T, L, E>(session: Session<T, L, E>)
    requires
        session.is_consistent(),
    ensures
        session.after_round().after_round().is_settled(),
        session.after_round().after_round().diff_is_current(),
        session.after_round().after_round().old == session.old,
        session.after_round().after_round().new == session.new,
{
}

/// A change to either buffer of a settled session is in the diff one round
/// later.
pub proof fn law_change_is_shown<T, L, E>(
    session: Session<T, L, E>,
    side: Side,
    event: BufferEvent,
    snapshot: BufferSnapshot<T, L>,
)
    requires
        session.is_settled(),
        event.affects_diff_spec(),
    ensures
        ({
            let shown = session.after(
                SessionEvent::BufferChanged { side, event, snapshot },
            ).after_round();
            &&& shown.is_settled()
            &&& shown.base_text == Some(
                if side is Old {
                    snapshot.text
                } else {
                    session.old.text
                },
            )
            &&& shown.buffer_text == if side is New {
                snapshot.text
            } else {
                session.new.text
            }
        }),
{
}

/// A change that comes while the diff is recalculated is not lost: it leads to
/// another recalculation.
pub proof fn law_change_during_recalculation_is_kept<T, L, E>(
    session: Session<T, L, E>,
    side: Side,
    event: BufferEvent,
    snapshot: BufferSnapshot<T, L>,
)
    requires
        session.step is SetBaseText,
        event.affects_diff_spec(),
    ensures
        ({
            let changed = session.after(SessionEvent::BufferChanged { side, event, snapshot });
            &&& !changed.after(SessionEvent::BaseTextSet { succeeded: true }).is_settled()
            &&& changed.after_round().is_settled()
            &&& changed.after_round().diff_is_current()
        }),
{
}

} // verus!
