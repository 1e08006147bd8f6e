//! What a diff of two buffers is computed from.
//!
//! Texts and languages are the host's own values: they are handed on, never
//! looked into, so `T` and `L` can be any types.

use vstd::prelude::*;

verus! {

/// A buffer's text and language at one moment.
#[derive(Debug, PartialEq, Eq)]
pub struct BufferSnapshot<T, L> {
    pub text: T,
    pub language: Option<L>,
}

/// The arguments of the calls that compute the first diff of two buffers.
#[derive(Debug, PartialEq, Eq)]
pub struct BufferDiffPlan<'a, T, L> {
    /// The text that the diff is made for, at its creation, when it is computed
    /// and when the result is taken over.
    pub buffer_text: &'a T,
    /// The text that the diff compares with.
    pub base_text: Option<&'a T>,
    /// Whether the base text counts as changed.
    pub base_text_change: Option<bool>,
    /// The language of the base text, when the diff is computed and when it is
    /// told of its language.
    pub language: Option<&'a L>,
}

impl<'a, T, L> BufferDiffPlan<'a, T, L> {
    /// Whether this is the plan for the diff between two buffers: the old one is
    /// the base, and both texts are read in the language of the new one.
    pub open spec fn compares(self, old: BufferSnapshot<T, L>, new: BufferSnapshot<T, L>) -> bool {
        &&& *self.buffer_text == new.text
        &&& self.base_text matches Some(text) && *text == old.text
        &&& self.base_text_change == Some(true)
        &&& match new.language {
            Some(language) => self.language == Some(&language),
            None => self.language is None,
        }
    }
}

/// Plans the first diff of two buffers.
pub fn build_buffer_diff<'a, T, L>(
    old_snapshot: &'a BufferSnapshot<T, L>,
    new_snapshot: &'a BufferSnapshot<T, L>,
) -> (plan: BufferDiffPlan<'a, T, L>)
    ensures
        plan.compares(*old_snapshot, *new_snapshot),
        plan.base_text == Some(&old_snapshot.text),
        plan.base_text_change == Some(true),
        plan.buffer_text == &new_snapshot.text,
        plan.language is Some <==> new_snapshot.language is Some,
        plan.language matches Some(language) ==> *language == new_snapshot.language->0,
{
    BufferDiffPlan {
        buffer_text: &new_snapshot.text,
        base_text: Some(&old_snapshot.text),
        base_text_change: Some(true),
        language: new_snapshot.language.as_ref(),
    }
}

/// The plan for the diff between two buffers is fixed by them, whatever their
/// languages: the whole old text is the base and counts as changed, the whole new
/// text is compared with it, and the language is the new buffer's, or none.
pub proof fn law_plan_is_fixed_by_buffers<'a, T, L>(
    plan: BufferDiffPlan<'a, T, L>,
    old: BufferSnapshot<T, L>,
    new: BufferSnapshot<T, L>,
)
    ensures
        plan.compares(old, new) <==> {
            &&& plan.base_text == Some(&old.text)
            &&& plan.base_text_change == Some(true)
            &&& plan.buffer_text == &new.text
            &&& plan.language is Some <==> new.language is Some
            &&& plan.language is Some ==> *plan.language->0 == new.language->0
        },
{
}

/// Two plans for the same texts differ in nothing but the language, and the old
/// buffer's language has no part in either.
pub proof fn law_old_language_has_no_part_in_plan<'a, 'b, T, L>(
    plan: BufferDiffPlan<'a, T, L>,
    other: BufferDiffPlan<'b, T, L>,
    old: BufferSnapshot<T, L>,
    other_old: BufferSnapshot<T, L>,
    new: BufferSnapshot<T, L>,
)
    requires
        plan.compares(old, new),
        other.compares(other_old, new),
        old.text == other_old.text,
    ensures
        *plan.base_text->0 == *other.base_text->0,
        plan.base_text_change == other.base_text_change,
        *plan.buffer_text == *other.buffer_text,
        plan.language is Some <==> other.language is Some,
        plan.language is Some ==> *plan.language->0 == *other.language->0,
{
}

} // verus!
