//! The shape of an e-mail address.
//!
//! An address is a local part, an `@` and a domain. The local part is one or
//! more letters, digits and a few signs. The domain is two or more labels
//! parted by dots; a label is 1 to 63 letters, digits and hyphens, and
//! neither begins nor ends with a hyphen. Letters are the 26 of ASCII, and
//! nothing may stand before or after the address.

use vstd::prelude::*;

verus! {

/// Most characters a label of a domain may hold.
pub const LABEL_MAX: usize = 63;

/// An ASCII letter or digit.
pub open spec fn is_alphanumeric(c: char) -> bool {
    ('a' <= c && c <= 'z') || ('A' <= c && c <= 'Z') || ('0' <= c && c <= '9')
}

/// A character that may stand in a label: a letter, a digit or a hyphen.
pub open spec fn is_label_char(c: char) -> bool {
    is_alphanumeric(c) || c == '-'
}

/// A character that may stand in a local part: a letter, a digit or one of
/// the signs ``.!#$%&'*+/=?^_`{|}~-``.
pub open spec fn is_local_char(c: char) -> bool {
    is_alphanumeric(c) || c == '.' || c == '!' || c == '#' || c == '$' || c == '%' || c == '&'
        || c == '\'' || c == '*' || c == '+' || c == '/' || c == '=' || c == '?' || c == '^'
        || c == '_' || c == '`' || c == '{' || c == '|' || c == '}' || c == '~' || c == '-'
}

/// A local part: one or more characters, each of which may stand in one.
pub open spec fn is_local_part(s: Seq<char>) -> bool {
    s.len() >= 1 && forall|i: int| 0 <= i < s.len() ==> is_local_char(#[trigger] s[i])
}

/// A label: 1 to [`LABEL_MAX`] letters, digits and hyphens, the first and
/// the last of them no hyphen.
pub open spec fn is_label(s: Seq<char>) -> bool {
    &&& 1 <= s.len() <= LABEL_MAX
    &&& is_alphanumeric(s.first())
    &&& is_alphanumeric(s.last())
    &&& forall|i: int| 0 <= i < s.len() ==> is_label_char(#[trigger] s[i])
}

/// The stretch of `s` from `from` up to `to` lies between two dots, or
/// between a dot and an end of `s`, or spans all of `s`, and holds no dot
/// itself: it is what one of the dots of `s` parts from the rest.
pub open spec fn is_stretch(s: Seq<char>, from: int, to: int) -> bool {
    &&& 0 <= from <= to <= s.len()
    &&& from == 0 || s[from - 1] == '.'
    &&& to == s.len() || s[to] == '.'
    &&& forall|i: int| from <= i < to ==> #[trigger] s[i] != '.'
}

/// A domain: it holds a dot, and every stretch that its dots part it into
/// is a label.
pub open spec fn is_domain(s: Seq<char>) -> bool {
    &&& s.contains('.')
    &&& forall|from: int, to: int| #[trigger]
        is_stretch(s, from, to) ==> is_label(s.subrange(from, to))
}

/// `s` is an address whose `@` stands at `at`.
pub open spec fn is_address_split_at(s: Seq<char>, at: int) -> bool {
    &&& 0 <= at < s.len()
    &&& s[at] == '@'
    &&& is_local_part(s.take(at))
    &&& is_domain(s.skip(at + 1))
}

/// An e-mail address: a local part, an `@` and a domain, and nothing else.
pub open spec fn is_email_address(s: Seq<char>) -> bool {
    exists|at: int| is_address_split_at(s, at)
}

/// Decides [`is_alphanumeric`].
pub fn char_is_alphanumeric(c: char) -> (r: bool)
    ensures
        r == is_alphanumeric(c),
{
    ('a' <= c && c <= 'z') || ('A' <= c && c <= 'Z') || ('0' <= c && c <= '9')
}

/// Decides [`is_label_char`].
pub fn char_is_label_char(c: char) -> (r: bool)
    ensures
        r == is_label_char(c),
{
    char_is_alphanumeric(c) || c == '-'
}

/// Decides [`is_local_char`].
pub fn char_is_local_char(c: char) -> (r: bool)
    ensures
        r == is_local_char(c),
{
    char_is_alphanumeric(c) || c == '.' || c == '!' || c == '#' || c == '$' || c == '%' || c == '&'
        || c == '\'' || c == '*' || c == '+' || c == '/' || c == '=' || c == '?' || c == '^'
        || c == '_' || c == '`' || c == '{' || c == '|' || c == '}' || c == '~' || c == '-'
}

/// Decides [`is_label`] for the characters of `d` from `from` up to `to`.
fn label_has_shape(d: &Vec<char>, from: usize, to: usize) -> (r: bool)
    requires
        from <= to <= d.len(),
    ensures
        r == is_label(d@.subrange(from as int, to as int)),
{
    let ghost label = d@.subrange(from as int, to as int);
    if to == from || to - from > LABEL_MAX {
        return false;
    }
    if !char_is_alphanumeric(d[from]) || !char_is_alphanumeric(d[to - 1]) {
        return false;
    }
    let mut i: usize = from;
    while i < to
        invariant
            from <= i <= to <= d.len(),
            label == d@.subrange(from as int, to as int),
            forall|j: int| 0 <= j < i - from ==> is_label_char(#[trigger] label[j]),
        decreases to - i,
    {
        assert(label[i - from] == d[i as int]);
        if !char_is_label_char(d[i]) {
            return false;
        }
        i += 1;
    }
    true
}

/// Decides [`is_domain`]: goes through `d` stretch by stretch and holds
/// each against the shape of a label.
fn domain_has_shape(d: &Vec<char>) -> (r: bool)
    ensures
        r == is_domain(d@),
{
    let n = d.len();
    let mut start: usize = 0;
    loop
        invariant
            n == d.len(),
            start <= n,
            start == 0 || d[start - 1] == '.',
            forall|from: int, to: int| #[trigger]
                is_stretch(d@, from, to) && to < start ==> is_label(d@.subrange(from, to)),
        decreases n - start,
    {
        let mut end: usize = start;
        while end < n && d[end] != '.'
            invariant
                n == d.len(),
                start <= end <= n,
                forall|j: int| start <= j < end ==> #[trigger] d[j] != '.',
            decreases n - end,
        {
            end += 1;
        }
        assert(is_stretch(d@, start as int, end as int));
        if !label_has_shape(d, start, end) {
            return false;
        }
        if end == n {
            return start > 0;
        }
        start = end + 1;
    }
}

/// Decides [`is_email_address`] in one pass over the characters of `s`: up
/// to the first `@` they are held against the local part, and those after
/// it are gathered and held against the domain.
pub fn text_is_email_address(s: &str) -> (r: bool)
    ensures
        r == is_email_address(s@),
{
    let mut local_empty: bool = true;
    let mut local_fits: bool = true;
    let mut at_seen: bool = false;
    let mut domain: Vec<char> = Vec::new();
    let ghost mut at: int = 0;
    for c in it: s.chars()
        invariant
            it.seq() == s@,
            !at_seen ==> at == it.index() && domain@.len() == 0,
            at_seen ==> 0 <= at < it.index() && s@[at] == '@',
            at_seen ==> domain@ == s@.subrange(at + 1, it.index()),
            forall|j: int| 0 <= j < at ==> #[trigger] s@[j] != '@',
            local_fits == (forall|j: int| 0 <= j < at ==> is_local_char(#[trigger] s@[j])),
            local_empty == (at == 0),
    {
        if at_seen {
            domain.push(c);
        } else if c == '@' {
            at_seen = true;
        } else {
            if !char_is_local_char(c) {
                local_fits = false;
            }
            local_empty = false;
            proof {
                at = at + 1;
            }
        }
    }
    if !at_seen {
        return false;
    }
    let shaped = !local_empty && local_fits && domain_has_shape(&domain);
    proof {
        assert(forall|j: int| 0 <= j < at ==> s@.take(at)[j] == s@[j]);
        if shaped {
            assert(is_address_split_at(s@, at));
        } else if is_email_address(s@) {
            let k = choose|k: int| is_address_split_at(s@, k);
            if at < k {
                assert(s@.take(k)[at] == '@');
            }
        }
    }
    shaped
}

} // verus!
