//! The two questions about text that the library asks of std.
use vstd::prelude::*;

verus! {

/// The text with every character replaced by its lowercase form.
pub uninterp spec fn lowercase_of(text: Seq<char>) -> Seq<char>;

/// `==` of `str`: two strings are equal exactly when they hold the same
/// characters.
#[verifier::external_body]
pub(crate) fn text_eq(a: &str, b: &str) -> (same: bool)
    ensures
        same == (a@ == b@),
{
    a == b
}

/// `str::to_lowercase`: the lowercase form of a string.
#[verifier::external_body]
pub(crate) fn to_lowercase(text: &str) -> (lower: String)
    ensures
        lower@ == lowercase_of(text@),
{
    text.to_lowercase()
}

/// Whether `part` stands somewhere in `text`, character for character.
pub open spec fn holds(text: Seq<char>, part: Seq<char>) -> bool {
    exists|at: int|
        0 <= at && at + part.len() <= text.len() && #[trigger] text.subrange(
            at,
            at + part.len(),
        ) == part
}

/// A text that is written between two others stands in the whole.
pub proof fn lemma_holds_between(before: Seq<char>, part: Seq<char>, after: Seq<char>)
    ensures
        holds(before + part + after, part),
{
    let whole = before + part + after;
    let at = before.len() as int;
    assert(whole.subrange(at, at + part.len()) =~= part);
}

/// What stands in a part of a text stands in the text.
pub proof fn lemma_holds_within(text: Seq<char>, part: Seq<char>, piece: Seq<char>)
    requires
        holds(text, part),
        holds(part, piece),
    ensures
        holds(text, piece),
{
    let a = choose|at: int|
        0 <= at && at + part.len() <= text.len() && #[trigger] text.subrange(at, at + part.len())
            == part;
    let b = choose|at: int|
        0 <= at && at + piece.len() <= part.len() && #[trigger] part.subrange(at, at + piece.len())
            == piece;
    assert(text.subrange(a + b, a + b + piece.len()) =~= text.subrange(
        a,
        a + part.len(),
    ).subrange(b, b + piece.len()));
}

} // verus!
