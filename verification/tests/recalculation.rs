use file_diff_view::diff::{build_buffer_diff, BufferSnapshot};
use file_diff_view::recalculate::{
    BufferEvent, RecalculateError, RecalculateEvent, RecalculateStep, ViewSnapshots,
    RECALCULATE_DIFF_DEBOUNCE_MILLIS,
};
use file_diff_view::view::FileDiffView;

type Step = RecalculateStep<String, &'static str, &'static str>;
type Event = RecalculateEvent<String, &'static str, &'static str>;

const DEBOUNCE: Step = RecalculateStep::Debounce { timer_millis: 250 };

fn snapshot(text: &str, language: Option<&'static str>) -> BufferSnapshot<String, &'static str> {
    BufferSnapshot { text: text.to_string(), language }
}

fn snapshots(old: &str, new: &str) -> Event {
    RecalculateEvent::SnapshotsRead(Ok(ViewSnapshots {
        old: Some(snapshot(old, Some("old language"))),
        new: snapshot(new, Some("new language")),
    }))
}

fn view(old_buffer: Option<u64>, recalculate: bool) -> FileDiffView<u64> {
    FileDiffView::new(old_buffer, 2, "title".to_string(), None, recalculate)
}

/// Runs a task on a view whose buffers hold the given texts, from the moment a
/// change was announced until it waits again, and gives what the diff got.
fn recalculate(step: Step, old: &str, new: &str) -> (Step, String, String) {
    let step = step.next(RecalculateEvent::Changed);
    assert_eq!(step, DEBOUNCE);
    let step = step.next(RecalculateEvent::TimerElapsed);
    assert_eq!(step, RecalculateStep::ReadSnapshots);
    match step.next(snapshots(old, new)) {
        RecalculateStep::SetBaseText { base_text, language, buffer_text } => {
            assert_eq!(language, Some("old language"));
            let done: Step = RecalculateStep::SetBaseText {
                base_text: base_text.clone(),
                language,
                buffer_text: buffer_text.clone(),
            };
            let step = done.next(RecalculateEvent::BaseTextSet { succeeded: true });
            (step, base_text.unwrap(), buffer_text)
        }
        other => panic!("unexpected step {other:?}"),
    }
}

#[test]
fn the_debounce_time_is_a_quarter_of_a_second() {
    assert_eq!(RECALCULATE_DIFF_DEBOUNCE_MILLIS, 250);
}

#[test]
fn the_first_diff_compares_with_the_old_text() {
    let old = snapshot("old line 1\nline 2\n", Some("old language"));
    let new = snapshot("new line 1\nline 2\n", Some("new language"));
    let plan = build_buffer_diff(&old, &new);
    assert_eq!(plan.buffer_text, "new line 1\nline 2\n");
    assert_eq!(plan.base_text.unwrap(), "old line 1\nline 2\n");
    assert_eq!(plan.base_text_change, Some(true));
    assert_eq!(plan.language, Some(&"new language"));
    let plain = snapshot("", None);
    assert_eq!(build_buffer_diff(&old, &plain).language, None);
}

#[test]
fn changes_on_disk_reach_the_diff() {
    let view = view(Some(1), true);
    let step: Step = view.recalculate_diff_task();
    assert_eq!(step, RecalculateStep::WaitForChange);

    let old = "old line 1\nline 2\nold line 3\nline 4\n";
    let new = "new line 1\nline 2\nnew line 3\nline 4\nnew line 5\n";
    let (step, base_text, buffer_text) = recalculate(step, old, new);
    assert_eq!(step, RecalculateStep::WaitForChange);
    assert_eq!(base_text, old);
    assert_eq!(buffer_text, new);

    let old = "new line 1\nline 2\nold line 3\nline 4\n";
    let (step, base_text, buffer_text) = recalculate(step, old, new);
    assert_eq!(step, RecalculateStep::WaitForChange);
    assert_eq!(base_text, old);
    assert_eq!(buffer_text, new);
}

#[test]
fn a_burst_of_changes_is_recalculated_once() {
    let mut step: Step = RecalculateStep::WaitForChange;
    for _ in 0..10 {
        step = step.next(RecalculateEvent::Changed);
        assert_eq!(step, DEBOUNCE);
    }
    step = step.next(RecalculateEvent::TimerElapsed);
    assert_eq!(step, RecalculateStep::ReadSnapshots);
}

#[test]
fn a_change_during_a_recalculation_leads_to_another() {
    let step: Step = RecalculateStep::ReadSnapshots;
    let step = step.next(snapshots("old", "new"));
    // The new buffer is edited here, which the task learns of when it waits.
    let step = step.next(RecalculateEvent::BaseTextSet { succeeded: true });
    assert_eq!(step, RecalculateStep::WaitForChange);
    let (step, base_text, buffer_text) = recalculate(step, "old", "newer");
    assert_eq!(step, RecalculateStep::WaitForChange);
    assert_eq!(base_text, "old");
    assert_eq!(buffer_text, "newer");
}

#[test]
fn a_change_while_the_timer_runs_restarts_it() {
    let step = DEBOUNCE.next(RecalculateEvent::Changed);
    assert_eq!(step, DEBOUNCE);
    let stale: Step = RecalculateStep::Debounce { timer_millis: 1 };
    assert_eq!(stale.next(RecalculateEvent::Changed), DEBOUNCE);
}

#[test]
fn a_failed_diff_does_not_end_the_task() {
    let step: Step = RecalculateStep::SetBaseText {
        base_text: Some("old".to_string()),
        language: None,
        buffer_text: "new".to_string(),
    };
    let step = step.next(RecalculateEvent::BaseTextSet { succeeded: false });
    assert_eq!(step, RecalculateStep::WaitForChange);
}

#[test]
fn a_task_that_nobody_can_wake_is_over() {
    let step: Step = RecalculateStep::WaitForChange;
    assert_eq!(
        step.next(RecalculateEvent::SenderDropped),
        RecalculateStep::Finished(Ok(()))
    );
}

#[test]
fn a_dropped_sender_restarts_a_running_timer() {
    assert_eq!(DEBOUNCE.next(RecalculateEvent::SenderDropped), DEBOUNCE);
    assert_eq!(
        DEBOUNCE.next(RecalculateEvent::TimerElapsed),
        RecalculateStep::ReadSnapshots
    );
}

#[test]
fn a_view_that_is_gone_ends_the_task() {
    let step: Step = RecalculateStep::ReadSnapshots;
    let step = step.next(RecalculateEvent::SnapshotsRead(Err("released")));
    assert_eq!(
        step,
        RecalculateStep::Finished(Err(RecalculateError::ViewUnavailable("released")))
    );
    let error: RecalculateError<&str> = RecalculateError::ViewUnavailable("released");
    assert_eq!(error.message(), None);
}

#[test]
fn a_missing_old_buffer_ends_the_task() {
    let step: Step = RecalculateStep::ReadSnapshots;
    let step = step.next(RecalculateEvent::SnapshotsRead(Ok(ViewSnapshots {
        old: None,
        new: snapshot("new", None),
    })));
    assert_eq!(
        step,
        RecalculateStep::Finished(Err(RecalculateError::MissingOldBuffer))
    );
    let error: RecalculateError<&str> = RecalculateError::MissingOldBuffer;
    assert_eq!(
        error.message(),
        Some("missing old buffer for recalculating file diff")
    );
}

#[test]
fn a_finished_task_stays_finished() {
    let events: Vec<Event> = vec![
        RecalculateEvent::Changed,
        RecalculateEvent::TimerElapsed,
        snapshots("old", "new"),
        RecalculateEvent::BaseTextSet { succeeded: true },
        RecalculateEvent::SenderDropped,
    ];
    let mut step: Step = RecalculateStep::Finished(Ok(()));
    for event in events {
        step = step.next(event);
        assert_eq!(step, RecalculateStep::Finished(Ok(())));
    }
}

#[test]
fn events_out_of_turn_change_nothing() {
    let step: Step = RecalculateStep::WaitForChange;
    let step = step.next(RecalculateEvent::TimerElapsed);
    assert_eq!(step, RecalculateStep::WaitForChange);
    let step = step.next(snapshots("old", "new"));
    assert_eq!(step, RecalculateStep::WaitForChange);
    let step: Step = RecalculateStep::ReadSnapshots;
    let step = step.next(RecalculateEvent::Changed);
    assert_eq!(step, RecalculateStep::ReadSnapshots);
}

#[test]
fn only_some_buffer_events_affect_the_diff() {
    assert!(BufferEvent::Edited.affects_diff());
    assert!(BufferEvent::LanguageChanged.affects_diff());
    assert!(BufferEvent::Reparsed.affects_diff());
    assert!(!BufferEvent::Other.affects_diff());
}

#[test]
fn both_buffers_are_watched_if_the_diff_is_kept_up_to_date() {
    assert_eq!(view(Some(1), true).watched_buffers(), vec![&1, &2]);
    assert!(view(Some(1), false).watched_buffers().is_empty());
    assert!(view(None, true).watched_buffers().is_empty());
    assert!(view(None, false).watched_buffers().is_empty());
}

#[test]
fn a_view_that_does_not_recalculate_has_no_task() {
    let step: Step = view(Some(1), false).recalculate_diff_task();
    assert_eq!(step, RecalculateStep::Finished(Ok(())));
    let step: Step = view(None, true).recalculate_diff_task();
    assert_eq!(step, RecalculateStep::WaitForChange);
}

/// When recalculations start if buffers change at the given times, recalculations
/// take the given time and nothing else does.
fn recalculation_times(changes: &[u64], duration: u64) -> Vec<u64> {
    let mut step: Step = view(Some(1), true).recalculate_diff_task();
    let mut now = 0;
    let mut timer_end = 0;
    let mut started = Vec::new();
    let mut changes = changes.iter().copied().peekable();
    loop {
        step = match step {
            RecalculateStep::WaitForChange => match changes.next() {
                Some(time) => {
                    now = now.max(time);
                    // Changes that came in the meantime are received as one.
                    while changes.next_if(|time| *time <= now).is_some() {}
                    timer_end = now + RECALCULATE_DIFF_DEBOUNCE_MILLIS;
                    step.next(RecalculateEvent::Changed)
                }
                None => return started,
            },
            RecalculateStep::Debounce { timer_millis } => {
                match changes.next_if(|time| *time < timer_end) {
                    Some(time) => {
                        timer_end = time + timer_millis;
                        step.next(RecalculateEvent::Changed)
                    }
                    None => {
                        now = timer_end;
                        started.push(now);
                        step.next(RecalculateEvent::TimerElapsed)
                    }
                }
            }
            RecalculateStep::ReadSnapshots => step.next(snapshots("old", "new")),
            RecalculateStep::SetBaseText { .. } => {
                now += duration;
                step.next(RecalculateEvent::BaseTextSet { succeeded: true })
            }
            RecalculateStep::Finished(result) => panic!("unexpected end {result:?}"),
        };
    }
}

#[test]
fn recalculations_end_quiet_times() {
    assert_eq!(recalculation_times(&[], 0), vec![]);
    assert_eq!(recalculation_times(&[100], 0), vec![350]);
    assert_eq!(recalculation_times(&[100, 349], 0), vec![599]);
    assert_eq!(recalculation_times(&[100, 350], 0), vec![350, 600]);
    assert_eq!(recalculation_times(&[0, 100, 200, 1000, 1001], 0), vec![450, 1251]);
}

#[test]
fn changes_at_the_same_time_count_once() {
    assert_eq!(recalculation_times(&[100, 100], 0), vec![350]);
    assert_eq!(recalculation_times(&[100, 350, 350], 0), vec![350, 600]);
}

#[test]
fn a_change_during_a_recalculation_waits_for_its_end() {
    assert_eq!(recalculation_times(&[100, 400], 550), vec![350, 1150]);
    assert_eq!(recalculation_times(&[100, 400, 500, 899], 550), vec![350, 1150]);
    assert_eq!(recalculation_times(&[100, 350], 1000), vec![350, 1600]);
    assert_eq!(recalculation_times(&[100, 901], 550), vec![350, 1151]);
}

#[test]
fn a_view_without_an_old_buffer_never_touches_the_diff() {
    let step: Step = view(None, true).recalculate_diff_task();
    let step = step.next(RecalculateEvent::Changed);
    let step = step.next(RecalculateEvent::TimerElapsed);
    let step = step.next(RecalculateEvent::SnapshotsRead(Ok(ViewSnapshots {
        old: None,
        new: snapshot("new", None),
    })));
    assert_eq!(
        step,
        RecalculateStep::Finished(Err(RecalculateError::MissingOldBuffer))
    );
}
