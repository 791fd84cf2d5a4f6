//! Text primitives: equality, containment and joining over `Seq<char>` views.

use vstd::prelude::*;
use vstd::string::StringExecFns;

verus! {

/// `needle` occurs in `hay` starting at character position `at`.
pub open spec fn occurs_at(hay: Seq<char>, needle: Seq<char>, at: int) -> bool {
    &&& 0 <= at
    &&& at + needle.len() <= hay.len()
    &&& hay.subrange(at, at + needle.len()) == needle
}

/// `needle` occurs somewhere in `hay` as a contiguous run of characters.
pub open spec fn contains_text(hay: Seq<char>, needle: Seq<char>) -> bool {
    exists|at: int| occurs_at(hay, needle, at)
}

/// The parts in order, with one line feed between neighbours.
pub open spec fn join_lines(parts: Seq<Seq<char>>) -> Seq<char>
    decreases parts.len(),
{
    if parts.len() == 0 {
        Seq::empty()
    } else if parts.len() == 1 {
        parts[0]
    } else {
        join_lines(parts.drop_last()) + seq!['\n'] + parts.last()
    }
}

/// The views of a vector of strings, in order.
pub open spec fn views_of(parts: Seq<String>) -> Seq<Seq<char>> {
    parts.map_values(|part: String| part@)
}

/// Calls `String::push`, which appends one character to the end of the string.
#[verifier::external_body]
pub(crate) fn push_char(target: &mut String, c: char)
    ensures
        final(target)@ == old(target)@.push(c),
{
    target.push(c);
}

/// Compares two strings byte for byte.
pub fn text_eq(a: &str, b: &str) -> (same: bool)
    ensures
        same == (a@ == b@),
{
    let x = a.as_bytes();
    let y = b.as_bytes();
    proof {
        vstd::utf8::encode_utf8_decode_utf8(a@);
        vstd::utf8::encode_utf8_decode_utf8(b@);
    }
    if x.len() != y.len() {
        return false;
    }
    let mut i: usize = 0;
    while i < x.len()
        invariant
            x@.len() == y@.len(),
            i <= x@.len(),
            forall|k: int| 0 <= k < i ==> x@[k] == y@[k],
            x@ == vstd::utf8::encode_utf8(a@),
            y@ == vstd::utf8::encode_utf8(b@),
            vstd::utf8::decode_utf8(x@) == a@,
            vstd::utf8::decode_utf8(y@) == b@,
        decreases x@.len() - i,
    {
        if x[i] != y[i] {
            return false;
        }
        i += 1;
    }
    assert(x@ =~= y@);
    true
}

/// The characters of `s`, in order.
pub fn chars_of(s: &str) -> (chars: Vec<char>)
    ensures
        chars@ == s@,
{
    let mut chars: Vec<char> = Vec::new();
    for c in it: s.chars()
        invariant
            chars@ == it.seq().take(it.index() as int),
            it.seq() == s@,
    {
        chars.push(c);
        assert(chars@ =~= it.seq().take(it.index() + 1));
    }
    assert(chars@ =~= s@);
    chars
}

/// Whether `needle` starts at position `at` of `hay`.
fn matches_at(hay: &Vec<char>, needle: &Vec<char>, at: usize) -> (hit: bool)
    requires
        at + needle@.len() <= hay@.len(),
    ensures
        hit == occurs_at(hay@, needle@, at as int),
{
    let width: usize = needle.len();
    let mut k: usize = 0;
    while k < width
        invariant
            width == needle@.len(),
            at + width <= hay.len(),
            k <= needle@.len(),
            forall|j: int| 0 <= j < k ==> hay@[at + j] == needle@[j],
        decreases needle@.len() - k,
    {
        if hay[at + k] != needle[k] {
            proof {
                let window = hay@.subrange(at as int, at + needle@.len());
                assert(window[k as int] == hay@[at + k]);
            }
            return false;
        }
        k += 1;
    }
    assert(hay@.subrange(at as int, at + needle@.len()) =~= needle@);
    true
}

/// Whether `needle` occurs in `hay` as a contiguous run of characters.
pub fn contains(hay: &str, needle: &str) -> (found: bool)
    ensures
        found == contains_text(hay@, needle@),
{
    let h = chars_of(hay);
    let n = chars_of(needle);
    if n.len() > h.len() {
        return false;
    }
    let last: usize = h.len() - n.len();
    let mut at: usize = 0;
    loop
        invariant
            h@ == hay@,
            n@ == needle@,
            last + n@.len() == h@.len(),
            at <= last,
            forall|p: int| 0 <= p < at ==> !occurs_at(h@, n@, p),
        decreases last - at,
    {
        if matches_at(&h, &n, at) {
            return true;
        }
        if at == last {
            return false;
        }
        at += 1;
    }
}

/// Joins the parts with one line feed between neighbours.
pub fn join_with_newlines(parts: &Vec<String>) -> (joined: String)
    ensures
        joined@ == join_lines(views_of(parts@)),
{
    let mut joined = String::new();
    let mut i: usize = 0;
    while i < parts.len()
        invariant
            i <= parts@.len(),
            joined@ == join_lines(views_of(parts@).take(i as int)),
        decreases parts@.len() - i,
    {
        let ghost done = views_of(parts@).take(i as int);
        let ghost next = views_of(parts@).take(i + 1);
        proof {
            assert(next.drop_last() =~= done);
            assert(next.last() == parts@[i as int]@);
        }
        if i > 0 {
            proof {
                reveal_strlit("\n");
                assert("\n"@ =~= seq!['\n']);
            }
            joined.append("\n");
        }
        joined.append(parts[i].as_str());
        proof {
            if i == 0 {
                assert(joined@ =~= next[0]);
            }
        }
        i += 1;
    }
    assert(views_of(parts@).take(parts@.len() as int) =~= views_of(parts@));
    joined
}

} // verus!
