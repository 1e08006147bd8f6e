//! The view that compares two buffers.

use crate::label::{compare_names, filename_for_buffer, path_for_buffer, BufferFile};
use crate::opening::OpenStep;
use crate::recalculate::{RecalculateEvent, RecalculateStep, ViewSnapshots};
use vstd::prelude::*;

verus! {

/// A view of the diff between two buffers. A buffer is the host's own handle.
#[derive(Debug, PartialEq, Eq)]
pub struct FileDiffView<B> {
    old_buffer: Option<B>,
    new_buffer: B,
    title: String,
    tooltip: Option<String>,
    recalculate_diff_on_buffer_change: bool,
}

/// What a view holds.
pub struct FileDiffViewModel<B> {
    /// The buffer that is compared with, where the view knows it.
    pub old_buffer: Option<B>,
    pub new_buffer: B,
    pub title: Seq<char>,
    pub tooltip: Option<Seq<char>>,
    /// Whether the view keeps its diff up to date.
    pub recalculates: bool,
}

impl<B> FileDiffViewModel<B> {
    /// The buffers whose changes the view is told of: both, if it knows both
    /// and keeps its diff up to date.
    pub open spec fn watched(self) -> Seq<B> {
        match self.old_buffer {
            Some(old_buffer) if self.recalculates => seq![old_buffer, self.new_buffer],
            _ => Seq::empty(),
        }
    }

    /// The first step of the task that keeps the diff up to date. It is over
    /// before it starts if the view does not do that.
    pub open spec fn first_step<T, L, E>(self) -> RecalculateStep<T, L, E> {
        if self.recalculates {
            RecalculateStep::WaitForChange
        } else {
            RecalculateStep::Finished(Ok(()))
        }
    }
}

impl<B> View for FileDiffView<B> {
    type V = FileDiffViewModel<B>;

    closed spec fn view(&self) -> FileDiffViewModel<B> {
        FileDiffViewModel {
            old_buffer: self.old_buffer,
            new_buffer: self.new_buffer,
            title: self.title@,
            tooltip: optional_text(self.tooltip),
            recalculates: self.recalculate_diff_on_buffer_change,
        }
    }
}

/// The characters of a text, where there is one.
pub open spec fn optional_text(text: Option<String>) -> Option<Seq<char>> {
    match text {
        Some(text) => Some(text@),
        None => None,
    }
}

/// The pane that a view is added to.
#[derive(Debug, Clone, Copy, PartialEq, Eq, Structural)]
pub enum TargetPane {
    Active,
    /// The pane beside the active one.
    Adjacent,
}

/// How a view is added to a pane.
#[derive(Debug, Clone, Copy, PartialEq, Eq, Structural)]
pub struct Placement {
    pub pane: TargetPane,
    pub activate_pane: bool,
    pub focus_item: bool,
    /// The index of the view among the items of the pane, where it is given.
    pub destination_index: Option<usize>,
}

impl Placement {
    /// In `pane`, which becomes active and gives the view the focus.
    pub open spec fn focused_in(pane: TargetPane) -> Self {
        Placement { pane, activate_pane: true, focus_item: true, destination_index: None }
    }

    /// Places a view in `pane` and focuses it there.
    pub fn focused(pane: TargetPane) -> (placement: Self)
        ensures
            placement == Self::focused_in(pane),
            placement.pane == pane,
            placement.activate_pane,
            placement.focus_item,
            placement.destination_index is None,
    {
        Placement { pane, activate_pane: true, focus_item: true, destination_index: None }
    }
}

/// A view, and how it is added to a pane.
#[derive(Debug, PartialEq, Eq)]
pub struct OpenedView<B> {
    pub view: FileDiffView<B>,
    pub placement: Placement,
}

/// The color of the label on a tab.
#[derive(Debug, Clone, Copy, PartialEq, Eq, Structural)]
pub enum LabelColor {
    Default,
    Muted,
}

/// The label on the tab of a view.
#[derive(Debug, PartialEq, Eq)]
pub struct TabLabel {
    pub text: String,
    pub color: LabelColor,
}

impl<B> FileDiffView<B> {
    /// Starts to open a view of the diff between two files.
    pub fn open<J, P, D, E>(old_path: P, new_path: P) -> (step: OpenStep<J, P, B, D, E>)
        ensures
            step == (OpenStep::<J, P, B, D, E>::ReadProject { old_path, new_path }),
    {
        OpenStep::ReadProject { old_path, new_path }
    }

    /// Opens a view of a diff that is there already, between a version that
    /// goes by `base_label` and a buffer. The view leaves the diff as it is.
    /// `workspace` is the file of the buffer, as found in the workspace, or the
    /// reason why the workspace could not be entered.
    pub fn open_existing_diff<E>(
        new_buffer: B,
        base_label: &str,
        workspace: Result<Option<BufferFile>, E>,
        split: bool,
    ) -> (opened: Result<OpenedView<B>, E>)
        ensures
            match workspace {
                Ok(file) => opened matches Ok(opened) && {
                    &&& opened.view@ == (FileDiffViewModel {
                        old_buffer: None,
                        new_buffer,
                        title: crate::label::comparison_label(
                            base_label@,
                            crate::label::buffer_filename(file),
                        ),
                        tooltip: Some(
                            crate::label::comparison_label(
                                base_label@,
                                crate::label::buffer_path(file),
                            ),
                        ),
                        recalculates: false,
                    })
                    &&& crate::label::ends_in_file_name(opened.view@.tooltip->0, file)
                    &&& opened.view@.title == base_label@ + " \u{2194} "@
                        + crate::label::buffer_filename(file)
                    &&& opened.view@.tooltip == Some(
                        base_label@ + " \u{2194} "@ + crate::label::buffer_path(file),
                    )
                    &&& opened.view@.watched().len() == 0
                    &&& opened.placement.pane == TargetPane::Adjacent <==> split
                    &&& opened.placement.activate_pane
                    &&& opened.placement.focus_item
                    &&& opened.placement.destination_index is None
                    &&& opened.placement == Placement::focused_in(
                        if split {
                            TargetPane::Adjacent
                        } else {
                            TargetPane::Active
                        },
                    )
                },
                Err(error) => opened == Err::<OpenedView<B>, E>(error),
            },
    {
        let file = match workspace {
            Ok(file) => file,
            Err(error) => return Err(error),
        };
        let filename = filename_for_buffer(&file);
        let path = path_for_buffer(&file);
        let title = compare_names(base_label, filename.as_str());
        let tooltip = Some(compare_names(base_label, path.as_str()));
        proof {
            crate::label::lemma_label_ends_in_file_name(base_label@, path@, file);
        }
        let view = FileDiffView::new(None, new_buffer, title, tooltip, false);
        let pane = if split {
            TargetPane::Adjacent
        } else {
            TargetPane::Active
        };
        Ok(OpenedView { view, placement: Placement::focused(pane) })
    }

    /// A view of the diff between two buffers, the old one of which may be
    /// unknown. The view can be told to keep the diff up to date.
    pub fn new(
        old_buffer: Option<B>,
        new_buffer: B,
        title: String,
        tooltip: Option<String>,
        recalculate_diff_on_buffer_change: bool,
    ) -> (view: Self)
        ensures
            view@ == (FileDiffViewModel {
                old_buffer,
                new_buffer,
                title: title@,
                tooltip: optional_text(tooltip),
                recalculates: recalculate_diff_on_buffer_change,
            }),
            view@.tooltip is Some <==> tooltip is Some,
            tooltip matches Some(text) ==> view@.tooltip == Some(text@),
            recalculate_diff_on_buffer_change && old_buffer is Some ==> view@.watched() == seq![
                old_buffer->0,
                new_buffer,
            ],
            !recalculate_diff_on_buffer_change || old_buffer is None ==> view@.watched().len() == 0,
    {
        FileDiffView { old_buffer, new_buffer, title, tooltip, recalculate_diff_on_buffer_change }
    }

    /// The buffers whose changes the view is told of.
    pub fn watched_buffers(&self) -> (buffers: Vec<&B>)
        ensures
            buffers@.len() == self@.watched().len(),
            forall|i: int| 0 <= i < buffers@.len() ==> *#[trigger] buffers@[i] == self@.watched()[i],
            self@.recalculates && self@.old_buffer is Some ==> {
                &&& buffers@.len() == 2
                &&& *buffers@[0] == self@.old_buffer->0
                &&& *buffers@[1] == self@.new_buffer
            },
            !self@.recalculates || self@.old_buffer is None ==> buffers@.len() == 0,
    {
        let mut buffers: Vec<&B> = Vec::new();
        if self.recalculate_diff_on_buffer_change {
            if let Some(old_buffer) = &self.old_buffer {
                buffers.push(old_buffer);
                buffers.push(&self.new_buffer);
            }
        }
        buffers
    }

    /// The first step of the task that keeps the diff up to date.
    pub fn recalculate_diff_task<T, L, E>(&self) -> (step: RecalculateStep<T, L, E>)
        ensures
            step == self@.first_step::<T, L, E>(),
            self@.recalculates ==> step is WaitForChange,
            !self@.recalculates ==> step == RecalculateStep::<T, L, E>::Finished(Ok(())),
    {
        if self.recalculate_diff_on_buffer_change {
            RecalculateStep::WaitForChange
        } else {
            RecalculateStep::Finished(Ok(()))
        }
    }

    /// The buffer that is compared with, where the view knows it.
    pub fn old_buffer(&self) -> (buffer: Option<&B>)
        ensures
            match self@.old_buffer {
                Some(old_buffer) => buffer == Some(&old_buffer),
                None => buffer is None,
            },
    {
        self.old_buffer.as_ref()
    }

    /// The buffer that is shown.
    pub fn new_buffer(&self) -> (buffer: &B)
        ensures
            *buffer == self@.new_buffer,
    {
        &self.new_buffer
    }

    /// The label on the tab, which stands out if the tab is selected.
    pub fn tab_content(&self, detail: Option<usize>, selected: bool) -> (label: TabLabel)
        ensures
            label.text@ == self@.title,
            label.color == if selected {
                LabelColor::Default
            } else {
                LabelColor::Muted
            },
    {
        let text = self.tab_content_text(detail.unwrap_or(0));
        let color = if selected {
            LabelColor::Default
        } else {
            LabelColor::Muted
        };
        TabLabel { text, color }
    }

    /// The text on the tab: the title, however much detail is asked for.
    pub fn tab_content_text(&self, _detail: usize) -> (text: String)
        ensures
            text@ == self@.title,
    {
        self.title.clone()
    }

    /// The text shown when the pointer rests on the tab.
    pub fn tab_tooltip_text(&self) -> (text: Option<String>)
        ensures
            optional_text(text) == self@.tooltip,
            text is Some <==> self@.tooltip is Some,
            text matches Some(text) ==> self@.tooltip == Some(text@),
    {
        match &self.tooltip {
            Some(tooltip) => Some(tooltip.clone()),
            None => None,
        }
    }

    /// The name under which the opening of a view is counted.
    pub fn telemetry_event_text(&self) -> (text: Option<&'static str>)
        ensures
            text matches Some(text) && text@ == "Diff View Opened"@,
    {
        Some("Diff View Opened")
    }

    /// What stands for the view where an item of some type is asked for: the
    /// view itself if that is its own type, else what its editor offers. The
    /// editor is only asked then.
    pub fn act_as_type<H, F: FnOnce() -> Option<H>>(
        &self,
        is_own_type: bool,
        self_handle: H,
        ask_editor: F,
    ) -> (handle: Option<H>)
        requires
            !is_own_type ==> call_requires(ask_editor, ()),
        ensures
            is_own_type ==> handle == Some(self_handle),
            !is_own_type ==> call_ensures(ask_editor, (), handle),
    {
        if is_own_type {
            Some(self_handle)
        } else {
            ask_editor()
        }
    }
}

/// A view that is to keep its diff up to date and knows its old buffer watches
/// exactly the old and the new buffer, whatever it is called.
pub proof fn law_both_buffers_are_watched<B>(view: FileDiffViewModel<B>)
    requires
        view.recalculates,
        view.old_buffer is Some,
    ensures
        view.watched() == seq![view.old_buffer->0, view.new_buffer],
        view.watched().contains(view.old_buffer->0),
        view.watched().contains(view.new_buffer),
{
    assert(view.watched()[0] == view.old_buffer->0);
    assert(view.watched()[1] == view.new_buffer);
}

/// What a view is called has no part in which buffers it watches and in whether
/// it keeps its diff up to date.
pub proof fn law_labels_do_not_matter<B, T, L, E>(
    view: FileDiffViewModel<B>,
    title: Seq<char>,
    tooltip: Option<Seq<char>>,
)
    ensures
        (FileDiffViewModel { title, tooltip, ..view }).watched() == view.watched(),
        (FileDiffViewModel { title, tooltip, ..view }).first_step::<T, L, E>()
            == view.first_step::<T, L, E>(),
        view.first_step::<T, L, E>() == if view.recalculates {
            RecalculateStep::<T, L, E>::WaitForChange
        } else {
            RecalculateStep::<T, L, E>::Finished(Ok(()))
        },
{
}

/// A tooltip is taken over and given back whole, if there is one.
pub proof fn law_optional_text_is_whole(text: String)
    ensures
        optional_text(None) is None,
        optional_text(Some(text)) == Some(text@),
{
}

/// A view is placed in the pane that is asked for, at no particular index, and
/// always gets the focus there.
pub proof fn law_placed_view_gets_focus(pane: TargetPane)
    ensures
        Placement::focused_in(pane).pane == pane,
        Placement::focused_in(pane).activate_pane,
        Placement::focused_in(pane).focus_item,
        Placement::focused_in(pane).destination_index is None,
{
}

/// A view that is not to keep its diff up to date watches no buffer, and its
/// task does nothing.
pub proof fn law_static_view_does_nothing<B, T, L, E>(
    view: FileDiffViewModel<B>,
    events: Seq<RecalculateEvent<T, L, E>>,
)
    requires
        !view.recalculates,
    ensures
        view.watched().len() == 0,
        view.first_step::<T, L, E>().run(events) == RecalculateStep::<T, L, E>::Finished(Ok(())),
        view.first_step::<T, L, E>().recalculations(events) == 0,
{
    crate::recalculate::law_finished_is_final(view.first_step::<T, L, E>(), events);
}

/// A view that is to keep its diff up to date but knows no old buffer watches
/// nothing either, and whatever its task is told, it never touches the diff.
pub proof fn law_view_without_old_buffer_never_recalculates<B, T, L, E>(
    view: FileDiffViewModel<B>,
    events: Seq<RecalculateEvent<T, L, E>>,
)
    requires
        view.recalculates,
        view.old_buffer is None,
        forall|i: int|
            0 <= i < events.len() ==> (#[trigger] events[i] matches RecalculateEvent::SnapshotsRead(
                Ok(snapshots),
            ) ==> snapshots.old is None),
    ensures
        view.watched().len() == 0,
        !(view.first_step::<T, L, E>().run(events) is SetBaseText),
    decreases events.len(),
{
    if events.len() != 0 {
        law_view_without_old_buffer_never_recalculates::<B, T, L, E>(view, events.drop_last());
        assert(events.last() == events[events.len() - 1]);
    }
}

/// A view that is told of changes can always recalculate: what it is told of
/// includes the old buffer, so that is never missing.
pub proof fn law_watching_view_can_recalculate<B, T, L, E>(
    view: FileDiffViewModel<B>,
    snapshots: ViewSnapshots<T, L>,
)
    requires
        view.watched().len() > 0,
        snapshots.old is Some <==> view.old_buffer is Some,
    ensures
        view.watched() == seq![view.old_buffer->0, view.new_buffer],
        view.first_step::<T, L, E>() is WaitForChange,
        RecalculateStep::<T, L, E>::ReadSnapshots.after(
            RecalculateEvent::SnapshotsRead(Ok(snapshots)),
        ) is SetBaseText,
{
}

} // verus!
