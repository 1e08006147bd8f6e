//! Opening a view of the diff between two files.
//!
//! Each step says what is to be asked of the host next. The host's reply leads
//! to the next step, and a refusal ends the opening.

use crate::label::{title_for_buffers, tooltip_for_buffers, BufferFile};
use crate::view::{FileDiffView, OpenedView, Placement, TargetPane};
use vstd::prelude::*;

verus! {

/// What is to be done next to open a view. Projects, paths, buffers, diffs and
/// errors are the host's own values.
#[derive(Debug, PartialEq, Eq)]
pub enum OpenStep<J, P, B, D, E> {
    /// Find the project of the workspace.
    ReadProject { old_path: P, new_path: P },
    /// Open the buffer of `old_path`.
    OpenOldBuffer { project: J, old_path: P, new_path: P },
    /// Open the buffer of `new_path`.
    OpenNewBuffer { project: J, old_buffer: B, new_path: P },
    /// Compute the diff of the buffers.
    BuildDiff { project: J, old_buffer: B, new_buffer: B },
    /// Enter the workspace and look up the files of the buffers.
    EnterWorkspace { project: J, old_buffer: B, new_buffer: B, diff: D },
    /// Add the view to its pane.
    Show { project: J, opened: OpenedView<B>, diff: D },
    /// Report the error.
    Failed(E),
}

/// The host's reply to a step.
#[derive(Debug, PartialEq, Eq)]
pub enum OpenReply<J, B, D, E> {
    Project(Result<J, E>),
    Buffer(Result<B, E>),
    Diff(Result<D, E>),
    /// The files of the old and of the new buffer.
    Workspace(Result<(Option<BufferFile>, Option<BufferFile>), E>),
}

impl<J, P, B, D, E> OpenStep<J, P, B, D, E> {
    /// Whether `reply` is a reply to what this step asks.
    pub open spec fn is_answered_by(self, reply: OpenReply<J, B, D, E>) -> bool {
        match self {
            OpenStep::ReadProject { .. } => reply is Project,
            OpenStep::OpenOldBuffer { .. } | OpenStep::OpenNewBuffer { .. } => reply is Buffer,
            OpenStep::BuildDiff { .. } => reply is Diff,
            OpenStep::EnterWorkspace { .. } => reply is Workspace,
            OpenStep::Show { .. } | OpenStep::Failed(_) => false,
        }
    }

    /// Whether this step shows `diff` in a view of the two buffers that keeps it
    /// up to date, labelled by their files, in the active pane.
    pub open spec fn shows(
        self,
        project: J,
        old_buffer: B,
        new_buffer: B,
        diff: D,
        old_file: Option<BufferFile>,
        new_file: Option<BufferFile>,
    ) -> bool {
        self matches OpenStep::Show { project: home, opened, diff: shown } && {
            &&& home == project
            &&& shown == diff
            &&& opened.view@ == (crate::view::FileDiffViewModel {
                old_buffer: Some(old_buffer),
                new_buffer,
                title: crate::label::comparison_label(
                    crate::label::buffer_filename(old_file),
                    crate::label::buffer_filename(new_file),
                ),
                tooltip: Some(
                    crate::label::comparison_label(
                        crate::label::buffer_path(old_file),
                        crate::label::buffer_path(new_file),
                    ),
                ),
                recalculates: true,
            })
            &&& crate::label::ends_in_file_name(opened.view@.tooltip->0, new_file)
            &&& opened.placement == Placement::focused_in(TargetPane::Active)
        }
    }

    /// Whether `next` is the step that follows on `reply`. The files are opened
    /// one after the other, then compared, then shown. A refusal ends the
    /// opening, and a reply to something else changes nothing.
    pub open spec fn leads_to(self, reply: OpenReply<J, B, D, E>, next: Self) -> bool {
        match (self, reply) {
            (OpenStep::ReadProject { old_path, new_path }, OpenReply::Project(Ok(project))) => next
                == (OpenStep::<J, P, B, D, E>::OpenOldBuffer { project, old_path, new_path }),
            (
                OpenStep::OpenOldBuffer { project, old_path, new_path },
                OpenReply::Buffer(Ok(old_buffer)),
            ) => next == (OpenStep::<J, P, B, D, E>::OpenNewBuffer {
                project,
                old_buffer,
                new_path,
            }),
            (
                OpenStep::OpenNewBuffer { project, old_buffer, new_path },
                OpenReply::Buffer(Ok(new_buffer)),
            ) => next == (OpenStep::<J, P, B, D, E>::BuildDiff { project, old_buffer, new_buffer }),
            (OpenStep::BuildDiff { project, old_buffer, new_buffer }, OpenReply::Diff(Ok(diff))) =>
            next == (OpenStep::<J, P, B, D, E>::EnterWorkspace {
                project,
                old_buffer,
                new_buffer,
                diff,
            }),
            (
                OpenStep::EnterWorkspace { project, old_buffer, new_buffer, diff },
                OpenReply::Workspace(Ok((old_file, new_file))),
            ) => next.shows(project, old_buffer, new_buffer, diff, old_file, new_file),
            (OpenStep::ReadProject { .. }, OpenReply::Project(Err(error)))
            | (
                OpenStep::OpenOldBuffer { .. } | OpenStep::OpenNewBuffer { .. },
                OpenReply::Buffer(Err(error)),
            )
            | (OpenStep::BuildDiff { .. }, OpenReply::Diff(Err(error)))
            | (OpenStep::EnterWorkspace { .. }, OpenReply::Workspace(Err(error))) => next
                == OpenStep::<J, P, B, D, E>::Failed(error),
            _ => next == self,
        }
    }

    /// Goes on to the step that follows on `reply`.
    pub fn next(self, reply: OpenReply<J, B, D, E>) -> (step: Self)
        ensures
            self.leads_to(reply, step),
            self.is_answered_by(reply) && refusal(reply) is Some ==> step == OpenStep::<
                J,
                P,
                B,
                D,
                E,
            >::Failed(refusal(reply)->0),
            !self.is_answered_by(reply) ==> step == self,
            self matches OpenStep::EnterWorkspace { project, old_buffer, new_buffer, diff } ==> (
            reply matches OpenReply::Workspace(Ok(files)) ==> {
                &&& step is Show
                &&& step->Show_project == project
                &&& step->Show_diff == diff
                &&& step->opened.view@.old_buffer == Some(old_buffer)
                &&& step->opened.view@.new_buffer == new_buffer
                &&& step->opened.view@.recalculates
                &&& step->opened.view@.title == crate::label::buffer_filename(files.0)
                    + " \u{2194} "@ + crate::label::buffer_filename(files.1)
                &&& step->opened.view@.tooltip == Some(
                    crate::label::buffer_path(files.0) + " \u{2194} "@
                        + crate::label::buffer_path(files.1),
                )
                &&& step->opened.placement.pane == TargetPane::Active
                &&& step->opened.placement.activate_pane
                &&& step->opened.placement.focus_item
                &&& step->opened.placement.destination_index is None
            }),
    {
        match (self, reply) {
            (OpenStep::ReadProject { old_path, new_path }, OpenReply::Project(project)) => {
                match project {
                    Ok(project) => OpenStep::OpenOldBuffer { project, old_path, new_path },
                    Err(error) => OpenStep::Failed(error),
                }
            },
            (OpenStep::OpenOldBuffer { project, new_path, .. }, OpenReply::Buffer(buffer)) => {
                match buffer {
                    Ok(old_buffer) => OpenStep::OpenNewBuffer { project, old_buffer, new_path },
                    Err(error) => OpenStep::Failed(error),
                }
            },
            (OpenStep::OpenNewBuffer { project, old_buffer, .. }, OpenReply::Buffer(buffer)) => {
                match buffer {
                    Ok(new_buffer) => OpenStep::BuildDiff { project, old_buffer, new_buffer },
                    Err(error) => OpenStep::Failed(error),
                }
            },
            (OpenStep::BuildDiff { project, old_buffer, new_buffer }, OpenReply::Diff(diff)) => {
                match diff {
                    Ok(diff) => OpenStep::EnterWorkspace { project, old_buffer, new_buffer, diff },
                    Err(error) => OpenStep::Failed(error),
                }
            },
            (
                OpenStep::EnterWorkspace { project, old_buffer, new_buffer, diff },
                OpenReply::Workspace(workspace),
            ) => {
                match workspace {
                    Ok((old_file, new_file)) => {
                        let title = title_for_buffers(&old_file, &new_file);
                        let tooltip = tooltip_for_buffers(&old_file, &new_file);
                        let view = FileDiffView::new(
                            Some(old_buffer),
                            new_buffer,
                            title,
                            tooltip,
                            true,
                        );
                        let placement = Placement::focused(TargetPane::Active);
                        OpenStep::Show { project, opened: OpenedView { view, placement }, diff }
                    },
                    Err(error) => OpenStep::Failed(error),
                }
            },
            (step, _) => step,
        }
    }
}

/// Whether `steps` are the steps of an opening to which the host gives
/// `replies`.
pub open spec fn is_opening<J, P, B, D, E>(
    steps: Seq<OpenStep<J, P, B, D, E>>,
    replies: Seq<OpenReply<J, B, D, E>>,
) -> bool {
    &&& steps.len() == replies.len() + 1
    &&& steps[0] is ReadProject
    &&& forall|i: int|
        0 <= i < replies.len() ==> (#[trigger] steps[i]).leads_to(replies[i], steps[i + 1])
}

/// The error of a reply that refuses what was asked.
pub open spec fn refusal<J, B, D, E>(reply: OpenReply<J, B, D, E>) -> Option<E> {
    match reply {
        OpenReply::Project(Err(error))
        | OpenReply::Buffer(Err(error))
        | OpenReply::Diff(Err(error))
        | OpenReply::Workspace(Err(error)) => Some(error),
        _ => None,
    }
}

/// What is granted is asked for next in a fixed order, and nothing that was had
/// is lost on the way: the project first, then the old file, then the new one,
/// then the diff of the buffers opened for them.
pub proof fn law_grants_are_carried_on<J, P, B, D, E>(
    project: J,
    old_path: P,
    new_path: P,
    old_buffer: B,
    new_buffer: B,
    diff: D,
    next: OpenStep<J, P, B, D, E>,
)
    ensures
        (OpenStep::<J, P, B, D, E>::ReadProject { old_path, new_path }).leads_to(
            OpenReply::Project(Ok(project)),
            next,
        ) <==> next == (OpenStep::<J, P, B, D, E>::OpenOldBuffer { project, old_path, new_path }),
        (OpenStep::<J, P, B, D, E>::OpenOldBuffer { project, old_path, new_path }).leads_to(
            OpenReply::Buffer(Ok(old_buffer)),
            next,
        ) <==> next == (OpenStep::<J, P, B, D, E>::OpenNewBuffer { project, old_buffer, new_path }),
        (OpenStep::<J, P, B, D, E>::OpenNewBuffer { project, old_buffer, new_path }).leads_to(
            OpenReply::Buffer(Ok(new_buffer)),
            next,
        ) <==> next == (OpenStep::<J, P, B, D, E>::BuildDiff { project, old_buffer, new_buffer }),
        (OpenStep::<J, P, B, D, E>::BuildDiff { project, old_buffer, new_buffer }).leads_to(
            OpenReply::Diff(Ok(diff)),
            next,
        ) <==> next == (OpenStep::<J, P, B, D, E>::EnterWorkspace {
            project,
            old_buffer,
            new_buffer,
            diff,
        }),
{
}

/// Whatever the files of the buffers are: once the workspace is entered, the view
/// shown has the old buffer as its old one and the new buffer as its new one,
/// keeps the diff that was built up to date, names the old file before the new
/// one, and gets the focus in the active pane.
pub proof fn law_view_shows_buffers_as_opened<J, P, B, D, E>(
    project: J,
    old_buffer: B,
    new_buffer: B,
    diff: D,
    old_file: Option<BufferFile>,
    new_file: Option<BufferFile>,
    next: OpenStep<J, P, B, D, E>,
)
    requires
        (OpenStep::<J, P, B, D, E>::EnterWorkspace {
            project,
            old_buffer,
            new_buffer,
            diff,
        }).leads_to(OpenReply::Workspace(Ok((old_file, new_file))), next),
    ensures
        next is Show,
        next->Show_project == project,
        next->Show_diff == diff,
        next->opened.view@.old_buffer == Some(old_buffer),
        next->opened.view@.new_buffer == new_buffer,
        next->opened.view@.recalculates == true,
        next->opened.view@.title == crate::label::buffer_filename(old_file) + seq![
            ' ',
            '\u{2194}',
            ' ',
        ] + crate::label::buffer_filename(new_file),
        next->opened.view@.tooltip == Some(
            crate::label::buffer_path(old_file) + seq![' ', '\u{2194}', ' ']
                + crate::label::buffer_path(new_file),
        ),
        next->opened.view@.watched() == seq![old_buffer, new_buffer],
        next->opened.placement.pane == TargetPane::Active,
        next->opened.placement.activate_pane == true,
        next->opened.placement.focus_item == true,
        next->opened.placement.destination_index == None::<usize>,
{
    crate::label::law_label_is_two_names_and_an_arrow(
        crate::label::buffer_filename(old_file),
        crate::label::buffer_filename(new_file),
    );
    crate::label::law_label_is_two_names_and_an_arrow(
        crate::label::buffer_path(old_file),
        crate::label::buffer_path(new_file),
    );
}

/// Whatever is refused, the opening fails with the error of the refusal.
pub proof fn law_every_refusal_is_reported<J, P, B, D, E>(
    project: J,
    old_path: P,
    new_path: P,
    old_buffer: B,
    new_buffer: B,
    diff: D,
    error: E,
    next: OpenStep<J, P, B, D, E>,
)
    ensures
        (OpenStep::<J, P, B, D, E>::ReadProject { old_path, new_path }).leads_to(
            OpenReply::Project(Err(error)),
            next,
        ) <==> next == OpenStep::<J, P, B, D, E>::Failed(error),
        (OpenStep::<J, P, B, D, E>::OpenOldBuffer { project, old_path, new_path }).leads_to(
            OpenReply::Buffer(Err(error)),
            next,
        ) <==> next == OpenStep::<J, P, B, D, E>::Failed(error),
        (OpenStep::<J, P, B, D, E>::OpenNewBuffer { project, old_buffer, new_path }).leads_to(
            OpenReply::Buffer(Err(error)),
            next,
        ) <==> next == OpenStep::<J, P, B, D, E>::Failed(error),
        (OpenStep::<J, P, B, D, E>::BuildDiff { project, old_buffer, new_buffer }).leads_to(
            OpenReply::Diff(Err(error)),
            next,
        ) <==> next == OpenStep::<J, P, B, D, E>::Failed(error),
        (OpenStep::<J, P, B, D, E>::EnterWorkspace {
            project,
            old_buffer,
            new_buffer,
            diff,
        }).leads_to(OpenReply::Workspace(Err(error)), next) <==> next == OpenStep::<
            J,
            P,
            B,
            D,
            E,
        >::Failed(error),
{
}

/// A reply to something that was not asked leaves the opening as it is, and so
/// does any reply once it is over.
pub proof fn law_stray_reply_changes_nothing<J, P, B, D, E>(
    step: OpenStep<J, P, B, D, E>,
    reply: OpenReply<J, B, D, E>,
    next: OpenStep<J, P, B, D, E>,
)
    requires
        step.leads_to(reply, next),
        step is ReadProject ==> !(reply is Project),
        step is OpenOldBuffer || step is OpenNewBuffer ==> !(reply is Buffer),
        step is BuildDiff ==> !(reply is Diff),
        step is EnterWorkspace ==> !(reply is Workspace),
    ensures
        next == step,
{
}

/// The first refusal ends an opening with its error, and nothing is asked or
/// shown from then on.
pub proof fn law_refusal_ends_opening<J, P, B, D, E>(
    steps: Seq<OpenStep<J, P, B, D, E>>,
    replies: Seq<OpenReply<J, B, D, E>>,
    refused: int,
    later: int,
)
    requires
        is_opening(steps, replies),
        0 <= refused < later < steps.len(),
        steps[refused].is_answered_by(replies[refused]),
        refusal(replies[refused]) is Some,
    ensures
        steps[later] == OpenStep::<J, P, B, D, E>::Failed(refusal(replies[refused])->0),
    decreases later,
{
    assert(steps[later - 1].leads_to(replies[later - 1], steps[later]));
    if refused < later - 1 {
        law_refusal_ends_opening(steps, replies, refused, later - 1);
    }
}

/// If the host grants every step, the opening asks the project for the old file,
/// then for the new one, and ends by showing the diff of their buffers.
pub proof fn law_granted_opening_shows_diff<J, P, B, D, E>(
    steps: Seq<OpenStep<J, P, B, D, E>>,
    project: J,
    old_path: P,
    new_path: P,
    old_buffer: B,
    new_buffer: B,
    diff: D,
    old_file: Option<BufferFile>,
    new_file: Option<BufferFile>,
)
    requires
        is_opening(
            steps,
            seq![
                OpenReply::Project(Ok(project)),
                OpenReply::Buffer(Ok(old_buffer)),
                OpenReply::Buffer(Ok(new_buffer)),
                OpenReply::Diff(Ok(diff)),
                OpenReply::Workspace(Ok((old_file, new_file))),
            ],
        ),
        steps[0] == (OpenStep::<J, P, B, D, E>::ReadProject { old_path, new_path }),
    ensures
        steps[1] == (OpenStep::<J, P, B, D, E>::OpenOldBuffer { project, old_path, new_path }),
        steps[2] == (OpenStep::<J, P, B, D, E>::OpenNewBuffer { project, old_buffer, new_path }),
        steps[3] == (OpenStep::<J, P, B, D, E>::BuildDiff { project, old_buffer, new_buffer }),
        steps[4] == (OpenStep::<J, P, B, D, E>::EnterWorkspace {
            project,
            old_buffer,
            new_buffer,
            diff,
        }),
        steps[5].shows(project, old_buffer, new_buffer, diff, old_file, new_file),
        steps[5] is Show,
        steps[5]->Show_project == project,
        steps[5]->Show_diff == diff,
        steps[5]->opened.view@.old_buffer == Some(old_buffer),
        steps[5]->opened.view@.new_buffer == new_buffer,
        steps[5]->opened.view@.recalculates == true,
        steps[5]->opened.view@.title == crate::label::buffer_filename(old_file) + seq![
            ' ',
            '\u{2194}',
            ' ',
        ] + crate::label::buffer_filename(new_file),
        steps[5]->opened.view@.tooltip == Some(
            crate::label::buffer_path(old_file) + seq![' ', '\u{2194}', ' ']
                + crate::label::buffer_path(new_file),
        ),
        steps[5]->opened.placement.pane == TargetPane::Active,
        steps[5]->opened.placement.activate_pane == true,
        steps[5]->opened.placement.focus_item == true,
        steps[5]->opened.placement.destination_index == None::<usize>,
{
    let replies: Seq<OpenReply<J, B, D, E>> = seq![
        OpenReply::Project(Ok(project)),
        OpenReply::Buffer(Ok(old_buffer)),
        OpenReply::Buffer(Ok(new_buffer)),
        OpenReply::Diff(Ok(diff)),
        OpenReply::Workspace(Ok((old_file, new_file))),
    ];
    assert(steps[0].leads_to(replies[0], steps[1]));
    assert(steps[1].leads_to(replies[1], steps[2]));
    assert(steps[2].leads_to(replies[2], steps[3]));
    assert(steps[3].leads_to(replies[3], steps[4]));
    assert(steps[4].leads_to(replies[4], steps[5]));
    law_view_shows_buffers_as_opened(
        project,
        old_buffer,
        new_buffer,
        diff,
        old_file,
        new_file,
        steps[5],
    );
}

} // verus!
