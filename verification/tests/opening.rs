use file_diff_view::label::BufferFile;
use file_diff_view::opening::{OpenReply, OpenStep};
use file_diff_view::recalculate::RecalculateStep;
use file_diff_view::view::{FileDiffView, LabelColor, OpenedView, Placement, TargetPane};

type Step = OpenStep<char, &'static str, u64, &'static str, &'static str>;
type Reply = OpenReply<char, u64, &'static str, &'static str>;

fn file(full_path: &str) -> Option<BufferFile> {
    Some(BufferFile {
        full_path: full_path.as_bytes().to_vec(),
        compact_path: full_path.as_bytes().to_vec(),
    })
}

fn start() -> Step {
    FileDiffView::open("/test/old_file.txt", "/test/new_file.txt")
}

fn granted() -> Vec<Reply> {
    vec![
        OpenReply::Project(Ok('p')),
        OpenReply::Buffer(Ok(1)),
        OpenReply::Buffer(Ok(2)),
        OpenReply::Diff(Ok("diff")),
        OpenReply::Workspace(Ok((file("test/old_file.txt"), file("test/new_file.txt")))),
    ]
}

fn refused(reply: &Reply) -> Reply {
    match reply {
        OpenReply::Project(_) => OpenReply::Project(Err("refused")),
        OpenReply::Buffer(_) => OpenReply::Buffer(Err("refused")),
        OpenReply::Diff(_) => OpenReply::Diff(Err("refused")),
        OpenReply::Workspace(_) => OpenReply::Workspace(Err("refused")),
    }
}

fn existing(split: bool) -> OpenedView<u64> {
    let workspace: Result<_, &str> = Ok(file("project/src/main.rs"));
    FileDiffView::open_existing_diff(7, "HEAD", workspace, split).unwrap()
}

#[test]
fn opening_asks_for_the_old_file_first() {
    let step = start();
    assert_eq!(
        step,
        OpenStep::ReadProject {
            old_path: "/test/old_file.txt",
            new_path: "/test/new_file.txt"
        }
    );
    let step = step.next(OpenReply::Project(Ok('p')));
    assert_eq!(
        step,
        OpenStep::OpenOldBuffer {
            project: 'p',
            old_path: "/test/old_file.txt",
            new_path: "/test/new_file.txt"
        }
    );
    let step = step.next(OpenReply::Buffer(Ok(1)));
    assert_eq!(
        step,
        OpenStep::OpenNewBuffer { project: 'p', old_buffer: 1, new_path: "/test/new_file.txt" }
    );
    let step = step.next(OpenReply::Buffer(Ok(2)));
    assert_eq!(step, OpenStep::BuildDiff { project: 'p', old_buffer: 1, new_buffer: 2 });
    let step = step.next(OpenReply::Diff(Ok("diff")));
    assert_eq!(
        step,
        OpenStep::EnterWorkspace { project: 'p', old_buffer: 1, new_buffer: 2, diff: "diff" }
    );
}

#[test]
fn a_granted_opening_shows_the_diff() {
    let mut step = start();
    for reply in granted() {
        step = step.next(reply);
    }
    match step {
        OpenStep::Show { project, opened, diff } => {
            assert_eq!(project, 'p');
            assert_eq!(diff, "diff");
            assert_eq!(
                opened.placement,
                Placement {
                    pane: TargetPane::Active,
                    activate_pane: true,
                    focus_item: true,
                    destination_index: None
                }
            );
            let view = opened.view;
            assert_eq!(view.old_buffer(), Some(&1));
            assert_eq!(view.new_buffer(), &2);
            assert_eq!(view.tab_content_text(0), "old_file.txt ↔ new_file.txt");
            assert_eq!(
                view.tab_tooltip_text().unwrap(),
                format!("{} ↔ {}", "test/old_file.txt", "test/new_file.txt")
            );
            assert_eq!(view.watched_buffers(), vec![&1, &2]);
            let task: RecalculateStep<String, (), ()> = view.recalculate_diff_task();
            assert_eq!(task, RecalculateStep::WaitForChange);
        }
        other => panic!("unexpected step {other:?}"),
    }
}

#[test]
fn the_first_refusal_ends_the_opening() {
    for failing in 0..granted().len() {
        let mut step = start();
        for (i, reply) in granted().into_iter().enumerate() {
            let reply = if i == failing { refused(&reply) } else { reply };
            step = step.next(reply);
            if i >= failing {
                assert_eq!(step, OpenStep::Failed("refused"));
            }
        }
    }
}

#[test]
fn a_reply_to_something_else_changes_nothing() {
    let step = start().next(OpenReply::Diff(Ok("diff")));
    assert_eq!(step, start());
    let step = step.next(OpenReply::Buffer(Err("refused")));
    assert_eq!(step, start());
}

#[test]
fn an_existing_diff_is_labelled_by_its_base() {
    let view = existing(false).view;
    assert_eq!(view.tab_content_text(0), "HEAD ↔ main.rs");
    assert_eq!(
        view.tab_tooltip_text(),
        Some("HEAD ↔ project/src/main.rs".to_string())
    );
    assert_eq!(view.old_buffer(), None);
    assert_eq!(view.new_buffer(), &7);
}

#[test]
fn an_existing_diff_is_left_as_it_is() {
    let view = existing(false).view;
    assert!(view.watched_buffers().is_empty());
    let task: RecalculateStep<String, (), ()> = view.recalculate_diff_task();
    assert_eq!(task, RecalculateStep::Finished(Ok(())));
}

#[test]
fn an_existing_diff_can_be_split_off() {
    assert_eq!(existing(false).placement.pane, TargetPane::Active);
    assert_eq!(existing(true).placement.pane, TargetPane::Adjacent);
    assert!(existing(true).placement.activate_pane);
    assert!(existing(true).placement.focus_item);
    assert_eq!(existing(true).placement.destination_index, None);
}

#[test]
fn an_existing_diff_needs_its_workspace() {
    let opened = FileDiffView::open_existing_diff(7, "HEAD", Err("released"), true);
    assert_eq!(opened, Err("released"));
}

#[test]
fn a_selected_tab_stands_out() {
    let view = existing(false).view;
    let selected = view.tab_content(Some(3), true);
    assert_eq!(selected.text, "HEAD ↔ main.rs");
    assert_eq!(selected.color, LabelColor::Default);
    let other = view.tab_content(None, false);
    assert_eq!(other.text, "HEAD ↔ main.rs");
    assert_eq!(other.color, LabelColor::Muted);
}

#[test]
fn the_opening_of_a_view_is_counted() {
    assert_eq!(existing(false).view.telemetry_event_text(), Some("Diff View Opened"));
}

#[test]
fn a_view_acts_as_itself_or_as_its_editor() {
    let view = existing(false).view;
    assert_eq!(view.act_as_type(false, "view", || Some("editor")), Some("editor"));
    assert_eq!(view.act_as_type(false, "view", || None), None);
    let own = view.act_as_type(true, "view", || panic!("the editor is not asked"));
    assert_eq!(own, Some("view"));
}
