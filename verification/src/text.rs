//! Character and string predicates shared by the field validators.

use vstd::prelude::*;

verus! {

/// Whether `c` carries the Unicode `White_Space` property.
pub open spec fn is_space(c: char) -> bool {
    let n = c as u32;
    ||| 0x09 <= n <= 0x0D
    ||| n == 0x20
    ||| n == 0x85
    ||| n == 0xA0
    ||| n == 0x1680
    ||| 0x2000 <= n <= 0x200A
    ||| n == 0x2028
    ||| n == 0x2029
    ||| n == 0x202F
    ||| n == 0x205F
    ||| n == 0x3000
}

/// A text is blank when nothing is left of it once surrounding white space
/// is trimmed away: every one of its characters is white space. The empty
/// text is blank.
pub open spec fn is_blank(s: Seq<char>) -> bool {
    forall|i: int| 0 <= i < s.len() ==> is_space(#[trigger] s[i])
}

/// Decides [`is_space`].
pub fn char_is_space(c: char) -> (r: bool)
    ensures
        r == is_space(c),
{
    let n: u32 = c as u32;
    (0x09 <= n && n <= 0x0D) || n == 0x20 || n == 0x85 || n == 0xA0 || n == 0x1680 || (0x2000 <= n
        && n <= 0x200A) || n == 0x2028 || n == 0x2029 || n == 0x202F || n == 0x205F || n == 0x3000
}

/// Decides [`is_blank`] in one pass over the characters.
pub fn text_is_blank(s: &str) -> (r: bool)
    ensures
        r == is_blank(s@),
{
    let mut blank: bool = true;
    for c in it: s.chars()
        invariant
            it.seq() == s@,
            blank == is_blank(s@.take(it.index())),
    {
        let ghost k = it.index();
        if !char_is_space(c) {
            blank = false;
            assert(!is_space(s@.take(k + 1)[k]));
        }
    }
    assert(s@.take(s@.len() as int) =~= s@);
    blank
}

/// A field value passes when it is not blank and holds at most `max`
/// characters, counted as Unicode scalar values.
pub open spec fn within_bounds(s: Seq<char>, max: nat) -> bool {
    !is_blank(s) && s.len() <= max
}

/// The message that turns a value down: the value in single quotes, then
/// what kind of field it was meant for.
pub open spec fn rejection_text(value: Seq<char>, kind: Seq<char>) -> Seq<char> {
    "'"@ + value + "' is not a valid "@ + kind + "."@
}

/// The limit is sharp: a value that is not blank passes with exactly `max`
/// characters, and no value passes with one more.
pub proof fn lemma_limit_is_sharp(s: Seq<char>, max: nat)
    ensures
        s.len() == max && !is_blank(s) ==> within_bounds(s, max),
        s.len() == max + 1 ==> !within_bounds(s, max),
{
}

/// A blank value fails whatever the limit, and the empty text is blank.
pub proof fn lemma_blank_never_passes(s: Seq<char>, max: nat)
    ensures
        is_blank(s) ==> !within_bounds(s, max),
        s.len() == 0 ==> is_blank(s),
{
}

/// Decides [`within_bounds`].
pub fn text_within_bounds(s: &str, max: usize) -> (r: bool)
    ensures
        r == within_bounds(s@, max as nat),
{
    !text_is_blank(s) && s.unicode_len() <= max
}

/// Builds [`rejection_text`] for `value` and `kind`.
pub fn rejection(value: &str, kind: &str) -> (r: String)
    ensures
        r@ == rejection_text(value@, kind@),
{
    let mut message = String::from_str("'");
    message.append(value);
    message.append("' is not a valid ");
    message.append(kind);
    message.append(".");
    message
}

} // verus!
