//! Text handling shared by the codecs: comparing two texts, and splitting a
//! text at its first `:`.

use vstd::prelude::*;
use vstd::string::StrSliceExecFns;
use vstd::string::StringSliceAdditionalSpecFns;
use vstd::utf8::encode_utf8_decode_utf8;

verus! {

/// No character of `s` is a `:`.
pub open spec fn no_colon(s: Seq<char>) -> bool {
    forall|i: int| 0 <= i < s.len() ==> #[trigger] s[i] != ':'
}

/// How many characters stand before the first `:` of `s`; the length of `s`
/// if it holds none.
pub open spec fn head_len(s: Seq<char>) -> int
    decreases s.len(),
{
    if s.len() == 0 || s[0] == ':' {
        0
    } else {
        1 + head_len(s.drop_first())
    }
}

/// The operation token of `s`: what stands before its first `:`, or all of
/// `s` if it holds none.
pub open spec fn operation(s: Seq<char>) -> Seq<char> {
    s.take(head_len(s))
}

/// The parameter of `s`: everything after its first `:`, further `:`
/// included; nothing if `s` holds no `:`.
pub open spec fn parameter(s: Seq<char>) -> Option<Seq<char>> {
    if head_len(s) < s.len() {
        Some(s.skip(head_len(s) + 1))
    } else {
        None
    }
}

/// The view of an optional text.
pub open spec fn text_of(t: Option<&str>) -> Option<Seq<char>> {
    match t {
        Some(s) => Some(s@),
        None => None,
    }
}

/// `head_len` lies within the text, no `:` stands before it, and one stands
/// at it unless it is the end.
pub proof fn lemma_head_len(s: Seq<char>)
    ensures
        0 <= head_len(s) <= s.len(),
        no_colon(s.take(head_len(s))),
        head_len(s) < s.len() ==> s[head_len(s)] == ':',
    decreases s.len(),
{
    if s.len() == 0 || s[0] == ':' {
    } else {
        let rest = s.drop_first();
        lemma_head_len(rest);
        let k = head_len(rest);
        assert forall|i: int| 0 <= i < k + 1 implies #[trigger] s.take(k + 1)[i] != ':' by {
            if i > 0 {
                assert(s.take(k + 1)[i] == rest.take(k)[i - 1]);
            }
        }
        if k < rest.len() {
            assert(s[k + 1] == rest[k]);
        }
    }
}

/// The position of the first `:` is `head_len`: if no `:` stands before `i`
/// and `i` is the end of the text or holds a `:`, then `head_len` is `i`.
pub proof fn lemma_head_len_is(s: Seq<char>, i: int)
    requires
        0 <= i <= s.len(),
        no_colon(s.take(i)),
        i < s.len() ==> s[i] == ':',
    ensures
        head_len(s) == i,
    decreases s.len(),
{
    if i == 0 {
    } else {
        assert(s.take(i)[0] == s[0]);
        let rest = s.drop_first();
        assert forall|j: int| 0 <= j < i - 1 implies #[trigger] rest.take(i - 1)[j] != ':' by {
            assert(rest.take(i - 1)[j] == s.take(i)[j + 1]);
        }
        if i - 1 < rest.len() {
            assert(rest[i - 1] == s[i]);
        }
        lemma_head_len_is(rest, i - 1);
    }
}

/// Splits a text at its first `:` into operation and parameter.
pub fn split_first<'a>(s: &'a str) -> (r: (&'a str, Option<&'a str>))
    ensures
        r.0@ == operation(s@),
        text_of(r.1) == parameter(s@),
{
    let len: usize = s.unicode_len();
    let mut at: usize = 0;
    for c in it: s.chars()
        invariant
            it.seq() == s@,
            len == s@.len(),
            at == it.index(),
            no_colon(s@.take(at as int)),
    {
        if c == ':' {
            proof {
                lemma_head_len_is(s@, at as int);
            }
            let head: &str = s.substring_char(0, at);
            let tail: &str = s.substring_char(at + 1, len);
            return (head, Some(tail));
        }
        assert(s@.take(at + 1) =~= s@.take(at as int).push(c));
        at = at + 1;
    }
    proof {
        lemma_head_len_is(s@, len as int);
        assert(s@.take(len as int) =~= s@);
    }
    (s, None)
}

/// Whether two texts hold the same characters.
pub fn same_text(a: &str, b: &str) -> (same: bool)
    ensures
        same == (a@ == b@),
{
    let x: &[u8] = a.as_bytes();
    let y: &[u8] = b.as_bytes();
    proof {
        encode_utf8_decode_utf8(a@);
        encode_utf8_decode_utf8(b@);
    }
    if x.len() != y.len() {
        return false;
    }
    let mut i: usize = 0;
    while i < x.len()
        invariant
            i <= x.len(),
            x.len() == y.len(),
            x@ == a.spec_bytes(),
            y@ == b.spec_bytes(),
            forall|j: int| 0 <= j < i ==> x@[j] == y@[j],
        decreases x.len() - i,
    {
        if x[i] != y[i] {
            return false;
        }
        i = i + 1;
    }
    assert(x@ =~= y@);
    true
}

/// A text without `:` is all operation and has no parameter.
pub proof fn lemma_split_plain(head: Seq<char>)
    requires
        no_colon(head),
    ensures
        operation(head) == head,
        parameter(head) is None,
{
    assert(head.take(head.len() as int) =~= head);
    lemma_head_len_is(head, head.len() as int);
}

/// Joining an operation without `:` and a parameter by a `:` is undone by
/// splitting: the operation and the parameter come back as they were,
/// whatever the parameter holds.
pub proof fn lemma_split_joined(head: Seq<char>, tail: Seq<char>)
    requires
        no_colon(head),
    ensures
        operation(head + seq![':'] + tail) == head,
        parameter(head + seq![':'] + tail) == Some(tail),
{
    let s = head + seq![':'] + tail;
    assert(s.take(head.len() as int) =~= head);
    lemma_head_len_is(s, head.len() as int);
    assert(s.skip(head.len() as int + 1) =~= tail);
}

} // verus!
