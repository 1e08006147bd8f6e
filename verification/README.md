# file_diff_view

The logic of a view that shows the differences between two buffers of an
editor, verified with Verus.

- `src/path.rs`, `src/text.rs`, `src/label.rs`: from the files of two buffers to
  the title and the tooltip of their comparison. Paths are bytes, with `/` between
  their segments.
- `src/diff.rs`: what a diff of two buffers is computed from.
- `src/recalculate.rs`: the task that keeps a diff up to date, step by step. It
  recalculates when no change has come for 250 ms.
- `src/opening.rs`: how a view is opened, step by step.
- `src/view.rs`: the view itself.
- `src/session.rs`: what the task achieves together with buffers that change and
  the signal between them. This is specification only.
- `src/schedule.rs`: when recalculations start, if nothing is late. This is
  specification only, too.
- `app/`: the part that talks to the editor. It performs the steps and reports
  their outcomes.
