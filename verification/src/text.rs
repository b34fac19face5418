//! Strings as sequences of characters: joining, copying, trimming, decoding.

use vstd::prelude::*;
use vstd::string::*;
use vstd::utf8::{decode_utf8, valid_utf8};

verus! {

/// The text of `a` followed by the text of `b`.
pub fn chain(a: &str, b: &str) -> (joined: String)
    ensures
        joined@ == a@ + b@,
{
    let mut joined = String::from_str(a);
    joined.append(b);
    joined
}

/// The texts of `a`, `b` and `c`, in that order.
pub fn chain3(a: &str, b: &str, c: &str) -> (joined: String)
    ensures
        joined@ == a@ + b@ + c@,
{
    let mut joined = String::from_str(a);
    joined.append(b);
    joined.append(c);
    joined
}

/// An independent copy of a list of strings.
pub fn copy_strings(list: &Vec<String>) -> (copy: Vec<String>)
    ensures
        copy.deep_view() == list.deep_view(),
{
    let mut copy: Vec<String> = Vec::new();
    let mut i: usize = 0;
    while i < list.len()
        invariant
            i <= list.len(),
            copy.len() == i,
            forall|j: int| 0 <= j < i ==> copy[j]@ == list[j]@,
        decreases list.len() - i,
    {
        copy.push(list[i].clone());
        i = i + 1;
    }
    assert(copy.deep_view() =~= list.deep_view());
    copy
}

/// An independent copy of a list of bytes.
pub fn copy_bytes(list: &Vec<u8>) -> (copy: Vec<u8>)
    ensures
        copy@ == list@,
{
    let mut copy: Vec<u8> = Vec::new();
    let mut i: usize = 0;
    while i < list.len()
        invariant
            i <= list.len(),
            copy.len() == i,
            forall|j: int| 0 <= j < i ==> copy[j] == list[j],
        decreases list.len() - i,
    {
        copy.push(list[i]);
        i = i + 1;
    }
    assert(copy@ =~= list@);
    copy
}

/// Which characters to strip from the ends of a text.
#[derive(Clone, Copy, Debug, PartialEq, Eq)]
pub enum Strip {
    /// The characters that Unicode classes as white space (`White_Space`).
    WhiteSpace,
    /// The one character given.
    Exactly { unwanted: char },
}

/// Whether Unicode classes the character as white space (`White_Space`).
pub open spec fn is_white_space(c: char) -> bool {
    let n = c as u32;
    ||| 0x09 <= n <= 0x0d
    ||| n == 0x20
    ||| n == 0x85
    ||| n == 0xa0
    ||| n == 0x1680
    ||| 0x2000 <= n <= 0x200a
    ||| n == 0x2028
    ||| n == 0x2029
    ||| n == 0x202f
    ||| n == 0x205f
    ||| n == 0x3000
}

impl Strip {
    /// Whether the character is one to strip.
    pub open spec fn strips(self, c: char) -> bool {
        match self {
            Strip::WhiteSpace => is_white_space(c),
            Strip::Exactly { unwanted } => c == unwanted,
        }
    }

    /// Whether the character is one to strip.
    pub fn test(&self, c: char) -> (stripped: bool)
        ensures
            stripped == self.strips(c),
    {
        match self {
            Strip::WhiteSpace => {
                let n: u32 = c as u32;
                (0x09 <= n && n <= 0x0d) || n == 0x20 || n == 0x85 || n == 0xa0 || n == 0x1680 || (
                0x2000 <= n && n <= 0x200a) || n == 0x2028 || n == 0x2029 || n == 0x202f || n
                    == 0x205f || n == 0x3000
            },
            Strip::Exactly { unwanted } => c == *unwanted,
        }
    }
}

/// The text without the stripped characters that it starts with.
pub open spec fn skip_front(s: Seq<char>, strip: Strip) -> Seq<char>
    decreases s.len(),
{
    if s.len() > 0 && strip.strips(s.first()) {
        skip_front(s.drop_first(), strip)
    } else {
        s
    }
}

/// The text without the stripped characters that it ends with.
pub open spec fn skip_back(s: Seq<char>, strip: Strip) -> Seq<char>
    decreases s.len(),
{
    if s.len() > 0 && strip.strips(s.last()) {
        skip_back(s.drop_last(), strip)
    } else {
        s
    }
}

/// The text without the stripped characters at either end.
pub open spec fn trimmed(s: Seq<char>, strip: Strip) -> Seq<char> {
    skip_back(skip_front(s, strip), strip)
}

/// The text without the stripped characters at either end.
pub fn trim(s: &str, strip: Strip) -> (kept: String)
    ensures
        kept@ == trimmed(s@, strip),
{
    let n = s.unicode_len();
    let mut start: usize = 0;
    assert(s@ =~= s@.subrange(0, n as int));
    while start < n && strip.test(s.get_char(start))
        invariant
            start <= n,
            n == s@.len(),
            skip_front(s@, strip) == skip_front(s@.subrange(start as int, n as int), strip),
        decreases n - start,
    {
        assert(s@.subrange(start as int, n as int).drop_first() =~= s@.subrange(
            start as int + 1,
            n as int,
        ));
        start = start + 1;
    }
    let mut end: usize = n;
    while end > start && strip.test(s.get_char(end - 1))
        invariant
            start <= end <= n,
            n == s@.len(),
            skip_back(s@.subrange(start as int, n as int), strip) == skip_back(
                s@.subrange(start as int, end as int),
                strip,
            ),
        decreases end - start,
    {
        assert(s@.subrange(start as int, end as int).drop_last() =~= s@.subrange(
            start as int,
            end as int - 1,
        ));
        end = end - 1;
    }
    s.substring_char(start, end).to_owned()
}

/// Where the text without its stripped start begins: everything before that
/// place is stripped, and the character at it, if there is one, is not.
pub proof fn lemma_skip_front_is_a_tail(s: Seq<char>, strip: Strip) -> (from: int)
    ensures
        0 <= from <= s.len(),
        skip_front(s, strip) == s.subrange(from, s.len() as int),
        forall|i: int| 0 <= i < from ==> strip.strips(s[i]),
        from < s.len() ==> !strip.strips(s[from]),
    decreases s.len(),
{
    if s.len() > 0 && strip.strips(s.first()) {
        let rest = lemma_skip_front_is_a_tail(s.drop_first(), strip);
        assert(s.drop_first().subrange(rest, s.len() - 1) =~= s.subrange(rest + 1, s.len() as int));
        assert forall|i: int| 0 <= i < rest + 1 implies strip.strips(s[i]) by {
            if i > 0 {
                assert(s[i] == s.drop_first()[i - 1]);
            }
        }
        rest + 1
    } else {
        assert(s =~= s.subrange(0, s.len() as int));
        0
    }
}

/// Where the text without its stripped end stops: everything from that
/// place on is stripped, and the character before it, if there is one, is
/// not.
pub proof fn lemma_skip_back_is_a_head(s: Seq<char>, strip: Strip) -> (to: int)
    ensures
        0 <= to <= s.len(),
        skip_back(s, strip) == s.subrange(0, to),
        forall|i: int| to <= i < s.len() ==> strip.strips(s[i]),
        0 < to ==> !strip.strips(s[to - 1]),
    decreases s.len(),
{
    if s.len() > 0 && strip.strips(s.last()) {
        let rest = lemma_skip_back_is_a_head(s.drop_last(), strip);
        assert(s.drop_last().subrange(0, rest) =~= s.subrange(0, rest));
        assert forall|i: int| rest <= i < s.len() implies strip.strips(s[i]) by {
            if i < s.len() - 1 {
                assert(s[i] == s.drop_last()[i]);
            }
        }
        rest
    } else {
        assert(s =~= s.subrange(0, s.len() as int));
        s.len() as int
    }
}

/// A trimmed text is the stretch of the text from its first character that
/// is not stripped to its last: it is a part of the text, all that lies
/// before and behind it is stripped, and unless it is empty it neither
/// starts nor ends with a stripped character. Trimming it again changes
/// nothing.
pub proof fn lemma_trimmed_is_the_core(s: Seq<char>, strip: Strip) -> (bounds: (int, int))
    ensures
        0 <= bounds.0 <= bounds.1 <= s.len(),
        trimmed(s, strip) == s.subrange(bounds.0, bounds.1),
        forall|i: int| 0 <= i < bounds.0 ==> strip.strips(s[i]),
        forall|i: int| bounds.1 <= i < s.len() ==> strip.strips(s[i]),
        bounds.0 < bounds.1 ==> !strip.strips(s[bounds.0]) && !strip.strips(s[bounds.1 - 1]),
        trimmed(trimmed(s, strip), strip) == trimmed(s, strip),
{
    let from = lemma_skip_front_is_a_tail(s, strip);
    let tail = s.subrange(from, s.len() as int);
    let to = lemma_skip_back_is_a_head(tail, strip);
    let core = tail.subrange(0, to);
    assert(core =~= s.subrange(from, from + to));
    assert forall|i: int| from + to <= i < s.len() implies strip.strips(s[i]) by {
        assert(s[i] == tail[i - from]);
    }
    if to > 0 {
        assert(tail[to - 1] == s[from + to - 1]);
        assert(tail[0] == s[from]);
        assert(core.first() == s[from]);
        assert(core.last() == s[from + to - 1]);
    }
    assert(skip_front(core, strip) == core);
    assert(skip_back(core, strip) == core);
    (from, from + to)
}

/// The path of `name` inside the directory `dir`, for a relative `name`:
/// the two are set side by side, with a separator between them unless
/// `dir` is empty or ends in one.
pub open spec fn joined(dir: Seq<char>, name: Seq<char>) -> Seq<char> {
    if dir.len() == 0 {
        name
    } else if dir.last() == '/' {
        dir + name
    } else {
        dir + "/"@ + name
    }
}

/// The path of `name` inside the directory `dir`, for a relative `name`.
pub fn join(dir: &str, name: &str) -> (path: String)
    ensures
        path@ == joined(dir@, name@),
{
    let n = dir.unicode_len();
    if n == 0 {
        String::from_str(name)
    } else if dir.get_char(n - 1) == '/' {
        chain(dir, name)
    } else {
        chain3(dir, "/", name)
    }
}

/// `String::from_utf8`: the text that the bytes encode when they are
/// well-formed UTF-8, and nothing otherwise.
#[verifier::external_body]
pub(crate) fn decode(bytes: Vec<u8>) -> (text: Option<String>)
    ensures
        text is Some <==> valid_utf8(bytes@),
        text matches Some(t) ==> t@ == decode_utf8(bytes@),
{
    String::from_utf8(bytes).ok()
}

} // verus!
