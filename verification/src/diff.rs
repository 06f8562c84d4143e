//! Deterministic text diff, patch and three-way merge.
//!
//! The heavy lifting is done by the diffy crate; its results are pure
//! functions of the inputs and are named by the uninterpreted spec functions
//! below, so every caller's contract is stated over those names.

use vstd::prelude::*;

verus! {

/// The unified-diff patch that turns `old` into `new`; a pure function of
/// the two texts.
pub uninterp spec fn make_patch_of(old: Seq<char>, new: Seq<char>) -> Seq<char>;

/// The result of applying a unified-diff patch to a base text: the patched
/// text, or `None` when some hunk cannot locate its context.
pub uninterp spec fn apply_of(base: Seq<char>, patch: Seq<char>) -> Option<Seq<char>>;

/// The result of a line-level three-way merge of `ours` and `theirs`
/// against their common `ancestor`: the merged text on a clean merge, or
/// the conflict-marker-annotated text when both sides changed the same
/// region differently.
pub uninterp spec fn merge_of(ancestor: Seq<char>, ours: Seq<char>, theirs: Seq<char>) -> Result<
    Seq<char>,
    Seq<char>,
>;

/// A unified-diff patch failed to apply: some hunk could not locate its
/// context in the base text, or the patch text itself could not be parsed.
#[derive(Clone, Copy, Debug, PartialEq, Eq, Structural)]
pub struct ApplyError;

/// Relies on diffy::create_patch and diffy::Patch::to_string: the unified
/// diff between the two texts, in a form that diffy::apply takes back to
/// recover the new text ("Once you have a Patch you can apply it to a base
/// image in order to recover the new text").
#[verifier::external_body]
fn diffy_create_patch(old: &str, new: &str) -> (r: String)
    ensures
        r@ == make_patch_of(old@, new@),
        apply_of(old@, r@) == Some(new@),
{
    diffy::create_patch(old, new).to_string()
}

/// Relies on diffy::Patch::from_str and diffy::apply: applies each hunk of
/// the patch to the base text, erring when a hunk cannot locate its context
/// or the patch does not parse.
#[verifier::external_body]
fn diffy_apply(base: &str, patch: &str) -> (r: Result<String, ApplyError>)
    ensures
        match r {
            Ok(s) => apply_of(base@, patch@) == Some(s@),
            Err(_) => apply_of(base@, patch@) is None,
        },
{
    match diffy::Patch::from_str(patch) {
        Ok(p) => match diffy::apply(base, &p) {
            Ok(s) => Ok(s),
            Err(_) => Err(ApplyError),
        },
        Err(_) => Err(ApplyError),
    }
}

/// Relies on diffy::merge, a diff3-style three-way merge: when the two
/// sides "modified different regions of the original file (or the same
/// region in the same way) then the files can be merged without conflict";
/// in particular a side equal to the ancestor changed nothing, so the merge
/// is clean and yields the other side. A conflict returns the text with
/// both sides between conflict markers.
#[verifier::external_body]
fn diffy_merge(ancestor: &str, ours: &str, theirs: &str) -> (r: Result<String, String>)
    ensures
        match r {
            Ok(s) => merge_of(ancestor@, ours@, theirs@) == Ok::<Seq<char>, Seq<char>>(s@)
                && (ours@ == ancestor@ ==> s@ == theirs@)
                && (theirs@ == ancestor@ ==> s@ == ours@),
            Err(c) => merge_of(ancestor@, ours@, theirs@) == Err::<Seq<char>, Seq<char>>(c@)
                && ours@ != ancestor@
                && theirs@ != ancestor@,
        },
{
    diffy::merge(ancestor, ours, theirs)
}

/// The unified-diff patch that turns `old` into `new`. Applying the
/// returned patch to `old` recovers `new` exactly.
pub fn make_patch(old: &str, new: &str) -> (r: String)
    ensures
        r@ == make_patch_of(old@, new@),
        apply_of(old@, r@) == Some(new@),
{
    diffy_create_patch(old, new)
}

/// Applies a unified-diff patch to a base text with fuzzy context matching.
/// Returns the patched text exactly when the patch applies.
pub fn apply(base: &str, patch: &str) -> (r: Result<String, ApplyError>)
    ensures
        match r {
            Ok(s) => apply_of(base@, patch@) == Some(s@),
            Err(_) => apply_of(base@, patch@) is None,
        },
{
    diffy_apply(base, patch)
}

/// Line-level three-way merge of `ours` and `theirs` against `ancestor`.
/// A side that is equal to the ancestor changed nothing, so the merge is
/// clean and yields the other side; in particular merging three equal texts
/// yields that text. On conflict the returned text holds both sides between
/// conflict markers and may be stored for later human resolution.
pub fn three_way_merge(ancestor: &str, ours: &str, theirs: &str) -> (r: Result<String, String>)
    ensures
        match r {
            Ok(s) => merge_of(ancestor@, ours@, theirs@) == Ok::<Seq<char>, Seq<char>>(s@),
            Err(c) => merge_of(ancestor@, ours@, theirs@) == Err::<Seq<char>, Seq<char>>(c@),
        },
        ours@ == ancestor@ ==> (r matches Ok(s) && s@ == theirs@),
        theirs@ == ancestor@ ==> (r matches Ok(s) && s@ == ours@),
{
    diffy_merge(ancestor, ours, theirs)
}

/// The text reached by applying a chain of diffs in order, starting from
/// the empty text; `None` when some diff fails to apply.
pub open spec fn replay(diffs: Seq<Seq<char>>) -> Option<Seq<char>>
    decreases diffs.len(),
{
    if diffs.len() == 0 {
        Some(Seq::<char>::empty())
    } else {
        match replay(diffs.drop_last()) {
            Some(t) => apply_of(t, diffs.last()),
            None => None,
        }
    }
}

/// Replaying one more diff applies it to the replay of the rest.
pub proof fn lemma_replay_push(diffs: Seq<Seq<char>>, d: Seq<char>)
    ensures
        replay(diffs.push(d)) == match replay(diffs) {
            Some(t) => apply_of(t, d),
            None => None::<Seq<char>>,
        },
{
    assert(diffs.push(d).drop_last() =~= diffs);
    assert(diffs.push(d).last() == d);
}

/// When a whole chain replays, so does every prefix of it.
pub proof fn lemma_replay_prefix(diffs: Seq<Seq<char>>, i: int)
    requires
        replay(diffs) is Some,
        0 <= i <= diffs.len(),
    ensures
        replay(diffs.take(i)) is Some,
    decreases diffs.len(),
{
    if i < diffs.len() {
        assert(diffs.drop_last().take(i) =~= diffs.take(i));
        lemma_replay_prefix(diffs.drop_last(), i);
    } else {
        assert(diffs.take(i) =~= diffs);
    }
}

} // verus!
