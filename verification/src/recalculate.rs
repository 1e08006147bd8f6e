//! The task that keeps the diff of two buffers up to date.
//!
//! The task waits for a change, lets further changes pass until none has come
//! for a while, and then hands the current texts to the diff. Each step says
//! what is to be done next. Whoever runs the task does it and reports the
//! outcome as an event.

use crate::diff::BufferSnapshot;
use vstd::prelude::*;

verus! {

/// How long no change may come before the diff is recalculated, in
/// milliseconds.
pub const RECALCULATE_DIFF_DEBOUNCE_MILLIS: u64 = 250;

/// What happens to a buffer.
#[derive(Debug, Clone, Copy, PartialEq, Eq, Structural)]
pub enum BufferEvent {
    Edited,
    LanguageChanged,
    Reparsed,
    /// Anything else, such as a save or a change of the file on disk.
    Other,
}

impl BufferEvent {
    /// Whether the event can change the diff.
    pub open spec fn affects_diff_spec(self) -> bool {
        self is Edited || self is LanguageChanged || self is Reparsed
    }

    /// Whether the event calls for a recalculation of the diff.
    pub fn affects_diff(&self) -> (affects: bool)
        ensures
            affects == self.affects_diff_spec(),
            affects <==> *self != BufferEvent::Other,
    {
        match self {
            BufferEvent::Edited | BufferEvent::LanguageChanged | BufferEvent::Reparsed => true,
            BufferEvent::Other => false,
        }
    }
}

/// Why the task ended early.
#[derive(Debug, PartialEq, Eq)]
pub enum RecalculateError<E> {
    /// The view could not be reached.
    ViewUnavailable(E),
    /// The view compares with no buffer.
    MissingOldBuffer,
}

impl<E> RecalculateError<E> {
    /// The message for an error of the task's own. An error of the view speaks
    /// for itself.
    pub fn message(&self) -> (message: Option<&'static str>)
        ensures
            match self {
                RecalculateError::ViewUnavailable(_) => message is None,
                RecalculateError::MissingOldBuffer => message matches Some(text) && text@
                    == "missing old buffer for recalculating file diff"@,
            },
    {
        match self {
            RecalculateError::ViewUnavailable(_) => None,
            RecalculateError::MissingOldBuffer => Some(
                "missing old buffer for recalculating file diff",
            ),
        }
    }
}

/// What the task does next.
#[derive(Debug, PartialEq, Eq)]
pub enum RecalculateStep<T, L, E> {
    /// Wait for the next change.
    WaitForChange,
    /// Start a timer, and wait for it or for the next change, whichever comes
    /// first. The timer wins a tie, and then the change is not consumed.
    Debounce { timer_millis: u64 },
    /// Take a snapshot of both buffers of the view.
    ReadSnapshots,
    /// Hand the diff its base text and the text to compare with it.
    SetBaseText { base_text: Option<T>, language: Option<L>, buffer_text: T },
    /// Nothing: the task is over.
    Finished(Result<(), RecalculateError<E>>),
}

/// The snapshots of the buffers of a view.
#[derive(Debug, PartialEq, Eq)]
pub struct ViewSnapshots<T, L> {
    pub old: Option<BufferSnapshot<T, L>>,
    pub new: BufferSnapshot<T, L>,
}

/// The outcome of a step.
#[derive(Debug, PartialEq, Eq)]
pub enum RecalculateEvent<T, L, E> {
    /// A change came.
    Changed,
    /// No change can come any more.
    SenderDropped,
    /// The timer ran out.
    TimerElapsed,
    /// The view was asked for its snapshots.
    SnapshotsRead(Result<ViewSnapshots<T, L>, E>),
    /// The diff took over the texts, or failed to.
    BaseTextSet { succeeded: bool },
}

impl<T, L, E> RecalculateStep<T, L, E> {
    /// The step in which changes are let pass, with a fresh timer.
    pub open spec fn debounce() -> Self {
        RecalculateStep::Debounce { timer_millis: RECALCULATE_DIFF_DEBOUNCE_MILLIS }
    }

    /// The step that hands the texts of `snapshots` to the diff.
    pub open spec fn recalculate(snapshots: ViewSnapshots<T, L>) -> Self {
        match snapshots.old {
            Some(old) => RecalculateStep::SetBaseText {
                base_text: Some(old.text),
                language: old.language,
                buffer_text: snapshots.new.text,
            },
            None => RecalculateStep::Finished(Err(RecalculateError::MissingOldBuffer)),
        }
    }

    /// The step that follows on `event`. An event that is no outcome of this
    /// step changes nothing.
    pub open spec fn after(self, event: RecalculateEvent<T, L, E>) -> Self {
        match (self, event) {
            (RecalculateStep::WaitForChange, RecalculateEvent::Changed) => Self::debounce(),
            (
                RecalculateStep::WaitForChange,
                RecalculateEvent::SenderDropped,
            ) => RecalculateStep::Finished(Ok(())),
            (
                RecalculateStep::Debounce { .. },
                RecalculateEvent::Changed | RecalculateEvent::SenderDropped,
            ) => Self::debounce(),
            (
                RecalculateStep::Debounce { .. },
                RecalculateEvent::TimerElapsed,
            ) => RecalculateStep::ReadSnapshots,
            (
                RecalculateStep::ReadSnapshots,
                RecalculateEvent::SnapshotsRead(Ok(snapshots)),
            ) => Self::recalculate(snapshots),
            (
                RecalculateStep::ReadSnapshots,
                RecalculateEvent::SnapshotsRead(Err(error)),
            ) => RecalculateStep::Finished(Err(RecalculateError::ViewUnavailable(error))),
            (
                RecalculateStep::SetBaseText { .. },
                RecalculateEvent::BaseTextSet { .. },
            ) => RecalculateStep::WaitForChange,
            (step, _) => step,
        }
    }

    /// Goes on to the step that follows on `event`.
    pub fn next(self, event: RecalculateEvent<T, L, E>) -> (step: Self)
        ensures
            step == self.after(event),
            self is WaitForChange && event is Changed ==> step == (RecalculateStep::<
                T,
                L,
                E,
            >::Debounce { timer_millis: RECALCULATE_DIFF_DEBOUNCE_MILLIS }),
            self is WaitForChange && event is SenderDropped ==> step == RecalculateStep::<
                T,
                L,
                E,
            >::Finished(Ok(())),
            self is Debounce && (event is Changed || event is SenderDropped) ==> step == (
            RecalculateStep::<T, L, E>::Debounce {
                timer_millis: RECALCULATE_DIFF_DEBOUNCE_MILLIS,
            }),
            self is Debounce && event is TimerElapsed ==> step is ReadSnapshots,
            self is ReadSnapshots ==> (event matches RecalculateEvent::SnapshotsRead(read) ==> (
            match read {
                Ok(snapshots) => match snapshots.old {
                    Some(old) => step == (RecalculateStep::<T, L, E>::SetBaseText {
                        base_text: Some(old.text),
                        language: old.language,
                        buffer_text: snapshots.new.text,
                    }),
                    None => step == RecalculateStep::<T, L, E>::Finished(
                        Err(RecalculateError::MissingOldBuffer),
                    ),
                },
                Err(error) => step == RecalculateStep::<T, L, E>::Finished(
                    Err(RecalculateError::ViewUnavailable(error)),
                ),
            })),
            self is SetBaseText && event is BaseTextSet ==> step is WaitForChange,
            self is Finished ==> step == self,
    {
        match (self, event) {
            (
                RecalculateStep::WaitForChange | RecalculateStep::Debounce { .. },
                RecalculateEvent::Changed,
            )
            | (RecalculateStep::Debounce { .. }, RecalculateEvent::SenderDropped) => {
                RecalculateStep::Debounce { timer_millis: RECALCULATE_DIFF_DEBOUNCE_MILLIS }
            },
            (RecalculateStep::WaitForChange, RecalculateEvent::SenderDropped) => {
                RecalculateStep::Finished(Ok(()))
            },
            (RecalculateStep::Debounce { .. }, RecalculateEvent::TimerElapsed) => {
                RecalculateStep::ReadSnapshots
            },
            (RecalculateStep::ReadSnapshots, RecalculateEvent::SnapshotsRead(read)) => {
                match read {
                    Ok(snapshots) => match snapshots.old {
                        Some(old) => RecalculateStep::SetBaseText {
                            base_text: Some(old.text),
                            language: old.language,
                            buffer_text: snapshots.new.text,
                        },
                        None => RecalculateStep::Finished(Err(RecalculateError::MissingOldBuffer)),
                    },
                    Err(error) => RecalculateStep::Finished(
                        Err(RecalculateError::ViewUnavailable(error)),
                    ),
                }
            },
            (RecalculateStep::SetBaseText { .. }, RecalculateEvent::BaseTextSet { .. }) => {
                RecalculateStep::WaitForChange
            },
            (step, _) => step,
        }
    }

    /// The step that follows on `events`, one after the other.
    pub open spec fn run(self, events: Seq<RecalculateEvent<T, L, E>>) -> Self
        decreases events.len(),
    {
        if events.len() == 0 {
            self
        } else {
            self.run(events.drop_last()).after(events.last())
        }
    }

    /// Whether `event` makes this step start a fresh timer.
    pub open spec fn starts_timer(self, event: RecalculateEvent<T, L, E>) -> bool {
        match self {
            RecalculateStep::WaitForChange => event is Changed,
            RecalculateStep::Debounce { .. } => event is Changed || event is SenderDropped,
            _ => false,
        }
    }

    /// Whether `event` makes this step start a recalculation.
    pub open spec fn starts_recalculation(self, event: RecalculateEvent<T, L, E>) -> bool {
        self is Debounce && event is TimerElapsed
    }

    /// When the last timer was started, where `events` happen at `times`.
    pub open spec fn timer_start(
        self,
        events: Seq<RecalculateEvent<T, L, E>>,
        times: Seq<int>,
    ) -> int
        decreases events.len(),
    {
        if events.len() == 0 {
            0
        } else if self.run(events.drop_last()).starts_timer(events.last()) {
            times.last()
        } else {
            self.timer_start(events.drop_last(), times.drop_last())
        }
    }

    /// Whether `times`, in milliseconds, can be when `events` happen: time does
    /// not go back, and no timer runs out early. A timer may run out late.
    pub open spec fn is_timing(
        self,
        events: Seq<RecalculateEvent<T, L, E>>,
        times: Seq<int>,
    ) -> bool {
        &&& times.len() == events.len()
        &&& forall|i: int, j: int| 0 <= i <= j < times.len() ==> times[i] <= times[j]
        &&& forall|i: int|
            0 <= i < events.len() && #[trigger] self.run(events.take(i)).starts_recalculation(
                events[i],
            ) ==> times[i] >= self.timer_start(events.take(i), times.take(i))
                + RECALCULATE_DIFF_DEBOUNCE_MILLIS
    }

    /// How many recalculations start during `events`.
    pub open spec fn recalculations(self, events: Seq<RecalculateEvent<T, L, E>>) -> nat
        decreases events.len(),
    {
        if events.len() == 0 {
            0
        } else {
            let before = self.recalculations(events.drop_last());
            if self.run(events.drop_last()).starts_recalculation(events.last()) {
                before + 1
            } else {
                before
            }
        }
    }
}

/// Every event of a buffer calls for a recalculation, but for those that can
/// change neither its text nor how that is read.
pub proof fn law_only_other_events_are_ignored(event: BufferEvent)
    ensures
        BufferEvent::Edited.affects_diff_spec(),
        BufferEvent::LanguageChanged.affects_diff_spec(),
        BufferEvent::Reparsed.affects_diff_spec(),
        !BufferEvent::Other.affects_diff_spec(),
        event.affects_diff_spec() <==> event != BufferEvent::Other,
{
}

/// A change starts the debounce timer, or starts it anew with its full time,
/// however much of it was left. When it runs out, the texts are read.
pub proof fn law_every_change_starts_full_timer<T, L, E>(
    step: RecalculateStep<T, L, E>,
    millis: u64,
)
    ensures
        RecalculateStep::<T, L, E>::WaitForChange.after(RecalculateEvent::Changed) == (
        RecalculateStep::<T, L, E>::Debounce { timer_millis: RECALCULATE_DIFF_DEBOUNCE_MILLIS }),
        (RecalculateStep::<T, L, E>::Debounce { timer_millis: millis }).after(
            RecalculateEvent::Changed,
        ) == (RecalculateStep::<T, L, E>::Debounce {
            timer_millis: RECALCULATE_DIFF_DEBOUNCE_MILLIS,
        }),
        (RecalculateStep::<T, L, E>::Debounce { timer_millis: millis }).after(
            RecalculateEvent::SenderDropped,
        ) == (RecalculateStep::<T, L, E>::Debounce {
            timer_millis: RECALCULATE_DIFF_DEBOUNCE_MILLIS,
        }),
        (RecalculateStep::<T, L, E>::Debounce { timer_millis: millis }).after(
            RecalculateEvent::TimerElapsed,
        ) == RecalculateStep::<T, L, E>::ReadSnapshots,
        RecalculateStep::<T, L, E>::debounce() == (RecalculateStep::<T, L, E>::Debounce {
            timer_millis: RECALCULATE_DIFF_DEBOUNCE_MILLIS,
        }),
{
}

/// A recalculation hands the diff the old buffer's text and language and the new
/// buffer's text, as they were read, whatever the languages are, and then waits
/// for the next change.
pub proof fn law_recalculation_hands_on_what_was_read<T, L, E>(
    old: BufferSnapshot<T, L>,
    new: BufferSnapshot<T, L>,
    succeeded: bool,
)
    ensures
        ({
            let step = RecalculateStep::<T, L, E>::ReadSnapshots.after(
                RecalculateEvent::SnapshotsRead(Ok(ViewSnapshots { old: Some(old), new })),
            );
            &&& step == (RecalculateStep::<T, L, E>::SetBaseText {
                base_text: Some(old.text),
                language: old.language,
                buffer_text: new.text,
            })
            &&& step.after(RecalculateEvent::BaseTextSet { succeeded }) == RecalculateStep::<
                T,
                L,
                E,
            >::WaitForChange
        }),
{
}

/// The task ends in exactly three ways: well, when no change can come any more
/// while it waits; with the view's error, when the view cannot be read; and with
/// an error of its own, when the view knows no old buffer.
pub proof fn law_task_ends_in_three_ways<T, L, E>(
    step: RecalculateStep<T, L, E>,
    event: RecalculateEvent<T, L, E>,
    new: BufferSnapshot<T, L>,
    error: E,
)
    ensures
        RecalculateStep::<T, L, E>::WaitForChange.after(RecalculateEvent::SenderDropped)
            == RecalculateStep::<T, L, E>::Finished(Ok(())),
        RecalculateStep::<T, L, E>::ReadSnapshots.after(
            RecalculateEvent::SnapshotsRead(Err(error)),
        ) == RecalculateStep::<T, L, E>::Finished(Err(RecalculateError::ViewUnavailable(error))),
        RecalculateStep::<T, L, E>::ReadSnapshots.after(
            RecalculateEvent::SnapshotsRead(Ok(ViewSnapshots { old: None, new })),
        ) == RecalculateStep::<T, L, E>::Finished(Err(RecalculateError::MissingOldBuffer)),
        step.after(event) is Finished ==> {
            ||| step is Finished && step.after(event) == step
            ||| step is WaitForChange && event is SenderDropped
            ||| step is ReadSnapshots && event is SnapshotsRead
        },
{
}

/// An event that is no outcome of the step at hand leaves it as it is.
pub proof fn law_stray_event_changes_nothing<T, L, E>(
    step: RecalculateStep<T, L, E>,
    event: RecalculateEvent<T, L, E>,
)
    requires
        step is WaitForChange ==> !(event is Changed || event is SenderDropped),
        step is Debounce ==> !(event is Changed || event is SenderDropped || event is TimerElapsed),
        step is ReadSnapshots ==> !(event is SnapshotsRead),
        step is SetBaseText ==> !(event is BaseTextSet),
    ensures
        step.after(event) == step,
{
}

/// How many changes are among `events`.
pub open spec fn changes<T, L, E>(events: Seq<RecalculateEvent<T, L, E>>) -> nat
    decreases events.len(),
{
    if events.len() == 0 {
        0
    } else {
        changes(events.drop_last()) + if events.last() is Changed {
            1nat
        } else {
            0nat
        }
    }
}

/// A recalculation starts only when no change was received for the whole
/// debounce time.
pub proof fn law_recalculation_follows_quiet<T, L, E>(
    step: RecalculateStep<T, L, E>,
    events: Seq<RecalculateEvent<T, L, E>>,
    times: Seq<int>,
    change: int,
    recalculation: int,
)
    requires
        step.is_timing(events, times),
        0 <= change < recalculation < events.len(),
        step.run(events.take(change)).starts_timer(events[change]),
        step.run(events.take(recalculation)).starts_recalculation(events[recalculation]),
    ensures
        times[recalculation] - times[change] >= RECALCULATE_DIFF_DEBOUNCE_MILLIS,
{
    lemma_timer_starts_no_earlier(step, events, times, change, recalculation);
}

/// The timer that runs before event `end` was started by event `change`, or
/// later.
proof fn lemma_timer_starts_no_earlier<T, L, E>(
    step: RecalculateStep<T, L, E>,
    events: Seq<RecalculateEvent<T, L, E>>,
    times: Seq<int>,
    change: int,
    end: int,
)
    requires
        step.is_timing(events, times),
        0 <= change < end <= events.len(),
        step.run(events.take(change)).starts_timer(events[change]),
    ensures
        step.timer_start(events.take(end), times.take(end)) >= times[change],
    decreases end,
{
    let head = events.take(end);
    assert(head.drop_last() =~= events.take(end - 1));
    assert(times.take(end).drop_last() =~= times.take(end - 1));
    if change < end - 1 {
        lemma_timer_starts_no_earlier(step, events, times, change, end - 1);
    }
}

/// There are no more recalculations than changes.
pub proof fn law_recalculations_need_changes<T, L, E>(
    step: RecalculateStep<T, L, E>,
    events: Seq<RecalculateEvent<T, L, E>>,
)
    requires
        step is WaitForChange,
    ensures
        step.recalculations(events) <= changes(events),
        step.run(events) is Debounce ==> step.recalculations(events) < changes(events),
    decreases events.len(),
{
    if events.len() != 0 {
        law_recalculations_need_changes(step, events.drop_last());
    }
}

/// A burst of changes leads to one recalculation, which starts when the timer
/// runs out after the last of them.
pub proof fn law_burst_is_recalculated_once<T, L, E>(
    step: RecalculateStep<T, L, E>,
    burst: Seq<RecalculateEvent<T, L, E>>,
)
    requires
        step is WaitForChange,
        burst.len() > 0,
        forall|i: int| 0 <= i < burst.len() ==> burst[i] is Changed,
    ensures
        step.run(burst) == RecalculateStep::<T, L, E>::debounce(),
        step.recalculations(burst) == 0,
        step.run(burst.push(RecalculateEvent::TimerElapsed)) is ReadSnapshots,
        step.recalculations(burst.push(RecalculateEvent::TimerElapsed)) == 1,
    decreases burst.len(),
{
    let init = burst.drop_last();
    if init.len() > 0 {
        law_burst_is_recalculated_once(step, init);
    } else {
        assert(step.run(init) == step);
        assert(step.recalculations(init) == 0);
    }
    assert(step.recalculations(burst) == 0);
    assert(burst.push(RecalculateEvent::TimerElapsed).drop_last() =~= burst);
}

/// A task that is over does nothing any more.
pub proof fn law_finished_is_final<T, L, E>(
    step: RecalculateStep<T, L, E>,
    events: Seq<RecalculateEvent<T, L, E>>,
)
    requires
        step is Finished,
    ensures
        step.run(events) == step,
        step.recalculations(events) == 0,
    decreases events.len(),
{
    if events.len() != 0 {
        law_finished_is_final(step, events.drop_last());
    }
}

/// Whether the diff takes over the texts or fails to, the task goes on in the
/// same way.
pub proof fn law_failed_diff_is_ignored<T, L, E>(step: RecalculateStep<T, L, E>)
    ensures
        step.after(RecalculateEvent::BaseTextSet { succeeded: true }) == step.after(
            RecalculateEvent::BaseTextSet { succeeded: false },
        ),
        step is SetBaseText ==> step.after(
            RecalculateEvent::BaseTextSet { succeeded: false },
        ) is WaitForChange,
{
}

} // verus!
