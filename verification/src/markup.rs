//! Text as it stands in markup.

use vstd::prelude::*;

verus! {

/// A character as it is written in markup: those that markup is made of are
/// named, all others stand for themselves.
pub open spec fn entity(c: char) -> Seq<char> {
    if c == '&' {
        "&amp;"@
    } else if c == '<' {
        "&lt;"@
    } else if c == '>' {
        "&gt;"@
    } else if c == '"' {
        "&quot;"@
    } else {
        seq![c]
    }
}

/// A text as it is written in markup, character by character.
pub open spec fn escaped(text: Seq<char>) -> Seq<char>
    decreases text.len(),
{
    if text.len() == 0 {
        Seq::empty()
    } else {
        escaped(text.drop_last()) + entity(text.last())
    }
}

/// Calls `maud::Render::render` on a `str`. Claims that `&`, `<`, `>` and `"`
/// come out as their entities and every other character as it is, in order.
#[verifier::external_body]
pub(crate) fn escape_text(text: &str) -> (r: String)
    ensures
        r@ == escaped(text@),
{
    maud::Render::render(text).into_string()
}

/// No text opens or closes a tag, or ends the attribute that it stands in.
pub proof fn escaped_text_stays_text(text: Seq<char>)
    ensures
        forall|i: int|
            0 <= i < escaped(text).len() ==> (#[trigger] escaped(text)[i]) != '<' && escaped(text)[i]
                != '>' && escaped(text)[i] != '"',
    decreases text.len(),
{
    reveal_strlit("&amp;");
    reveal_strlit("&lt;");
    reveal_strlit("&gt;");
    reveal_strlit("&quot;");
    if text.len() > 0 {
        let before = escaped(text.drop_last());
        escaped_text_stays_text(text.drop_last());
        assert forall|i: int| 0 <= i < escaped(text).len() implies (#[trigger] escaped(text)[i])
            != '<' && escaped(text)[i] != '>' && escaped(text)[i] != '"' by {
            if i < before.len() {
                assert(escaped(text)[i] == before[i]);
            } else {
                assert(escaped(text)[i] == entity(text.last())[i - before.len()]);
            }
        }
    }
}

/// Text is written character by character: the four that markup is made of by
/// their names, and every other one as it is.
pub proof fn text_is_written_character_by_character(before: Seq<char>, c: char)
    ensures
        escaped(Seq::empty()).len() == 0,
        c == '&' ==> escaped(before.push(c)) == escaped(before) + "&amp;"@,
        c == '<' ==> escaped(before.push(c)) == escaped(before) + "&lt;"@,
        c == '>' ==> escaped(before.push(c)) == escaped(before) + "&gt;"@,
        c == '"' ==> escaped(before.push(c)) == escaped(before) + "&quot;"@,
        c != '&' && c != '<' && c != '>' && c != '"' ==> escaped(before.push(c)) == escaped(
            before,
        ).push(c),
{
    assert(before.push(c).drop_last() =~= before);
    if c != '&' && c != '<' && c != '>' && c != '"' {
        assert(escaped(before) + seq![c] =~= escaped(before).push(c));
    }
}

} // verus!
