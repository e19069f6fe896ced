//! Scanning of character sequences: substring search and separator-delimited
//! fields.

use vstd::prelude::*;
use vstd::string::StrSliceExecFns;
use vstd::string::StringExecFns;

verus! {

/// `needle` stands in `hay` at position `at`.
pub open spec fn occurs_at(hay: Seq<char>, needle: Seq<char>, at: int) -> bool {
    &&& 0 <= at
    &&& at + needle.len() <= hay.len()
    &&& hay.subrange(at, at + needle.len()) == needle
}

/// `needle` stands somewhere in `hay`.
pub open spec fn occurs_in(hay: Seq<char>, needle: Seq<char>) -> bool {
    exists|at: int| occurs_at(hay, needle, at)
}

/// Number of leading characters of `s` before its first `sep`: the position
/// of that `sep`, or the length of `s` where it holds none.
pub open spec fn first_field_len(s: Seq<char>, sep: char) -> nat
    decreases s.len(),
{
    if s.len() == 0 || s[0] == sep {
        0
    } else {
        1 + first_field_len(s.drop_first(), sep)
    }
}

/// Number of times that `sep` stands in `s`.
pub open spec fn count_of(s: Seq<char>, sep: char) -> nat
    decreases s.len(),
{
    if s.len() == 0 {
        0
    } else if s[0] == sep {
        1 + count_of(s.drop_first(), sep)
    } else {
        count_of(s.drop_first(), sep)
    }
}

/// Number of fields that `sep` divides `s` into: every separator ends one
/// field and starts the next, so even the empty text has one field.
pub open spec fn field_count(s: Seq<char>, sep: char) -> nat {
    count_of(s, sep) + 1
}

/// Field number `k` of `s`, counted from 0: the characters after separator
/// number `k` and before the next one. Empty where `s` has no such field.
pub open spec fn field(s: Seq<char>, sep: char, k: nat) -> Seq<char>
    decreases k,
{
    let n = first_field_len(s, sep) as int;
    if k == 0 {
        s.take(n)
    } else if n < s.len() {
        field(s.skip(n + 1), sep, (k - 1) as nat)
    } else {
        Seq::empty()
    }
}

/// What `first_field_len` is, and how it divides the count of separators:
/// no separator stands before that position; either one stands at it, and
/// the rest of the text holds all the others, or the text holds none.
pub proof fn lemma_first_field(s: Seq<char>, sep: char)
    ensures
        ({
            let n = first_field_len(s, sep) as int;
            &&& n <= s.len()
            &&& forall|i: int| 0 <= i < n ==> s[i] != sep
            &&& n < s.len() ==> s[n] == sep && count_of(s, sep) == 1 + count_of(s.skip(n + 1), sep)
            &&& n == s.len() ==> count_of(s, sep) == 0
        }),
    decreases s.len(),
{
    if s.len() == 0 {
    } else if s[0] == sep {
        assert(s.skip(1) =~= s.drop_first());
    } else {
        let rest = s.drop_first();
        lemma_first_field(rest, sep);
        let n = first_field_len(rest, sep) as int;
        assert forall|i: int| 0 <= i < n + 1 implies s[i] != sep by {
            if i > 0 {
                assert(s[i] == rest[i - 1]);
            }
        }
        if n < rest.len() {
            assert(rest.skip(n + 1) =~= s.skip(n + 2));
        }
    }
}

/// The fields of `s` up to number `k`, put together again with a `sep`
/// between each two.
pub open spec fn fields_through(s: Seq<char>, sep: char, k: nat) -> Seq<char>
    decreases k,
{
    if k == 0 {
        field(s, sep, 0)
    } else {
        fields_through(s, sep, (k - 1) as nat).push(sep) + field(s, sep, k)
    }
}

/// Behind the first separator of a text, the fields are those of the rest of
/// the text, so what they rebuild starts with the first field and that
/// separator.
proof fn lemma_fields_through_rest(s: Seq<char>, sep: char, k: nat)
    requires
        first_field_len(s, sep) < s.len(),
    ensures
        ({
            let n = first_field_len(s, sep) as int;
            fields_through(s, sep, k + 1) == s.take(n).push(sep) + fields_through(
                s.skip(n + 1),
                sep,
                k,
            )
        }),
    decreases k,
{
    let n = first_field_len(s, sep) as int;
    let rest = s.skip(n + 1);
    if k == 0 {
        assert(fields_through(s, sep, 0) == s.take(n));
    } else {
        lemma_fields_through_rest(s, sep, (k - 1) as nat);
        let head = s.take(n).push(sep);
        let before = fields_through(rest, sep, (k - 1) as nat);
        let last = field(rest, sep, k);
        assert((head + before).push(sep) + last =~= head + (before.push(sep) + last));
    }
}

/// No field holds the separator.
pub proof fn law_field_holds_no_separator(s: Seq<char>, sep: char, k: nat)
    ensures
        forall|i: int| 0 <= i < field(s, sep, k).len() ==> field(s, sep, k)[i] != sep,
    decreases k,
{
    lemma_first_field(s, sep);
    let n = first_field_len(s, sep) as int;
    if k == 0 {
        assert forall|i: int| 0 <= i < field(s, sep, k).len() implies field(s, sep, k)[i]
            != sep by {
            assert(field(s, sep, k)[i] == s[i]);
        }
    } else if n < s.len() {
        law_field_holds_no_separator(s.skip(n + 1), sep, (k - 1) as nat);
        assert(field(s, sep, k) == field(s.skip(n + 1), sep, (k - 1) as nat));
    } else {
        assert(field(s, sep, k) == Seq::<char>::empty());
    }
}

/// The fields divide the whole text: put together again with a separator
/// between each two, all the fields of a text give the text back.
pub proof fn law_fields_rebuild_text(s: Seq<char>, sep: char)
    ensures
        fields_through(s, sep, count_of(s, sep)) == s,
    decreases s.len(),
{
    lemma_first_field(s, sep);
    let n = first_field_len(s, sep) as int;
    if n < s.len() {
        let rest = s.skip(n + 1);
        law_fields_rebuild_text(rest, sep);
        lemma_fields_through_rest(s, sep, count_of(rest, sep));
        assert(s.take(n).push(sep) + rest =~= s);
    } else {
        assert(s.take(n) =~= s);
    }
}

/// The characters of `s`, in order.
pub fn chars_of(s: &str) -> (chars: Vec<char>)
    ensures
        chars@ == s@,
{
    let mut chars: Vec<char> = Vec::new();
    for c in it: s.chars()
        invariant
            it.seq() == s@,
            chars@ == it.seq().take(it.index() as int),
    {
        chars.push(c);
    }
    chars
}

/// Tells whether `needle` stands in `hay` at position `at`.
fn matches_at(hay: &Vec<char>, needle: &Vec<char>, at: usize) -> (found: bool)
    requires
        at + needle@.len() <= hay@.len(),
    ensures
        found == occurs_at(hay@, needle@, at as int),
{
    let hay_len: usize = hay.len();
    let mut i: usize = 0;
    while i < needle.len()
        invariant
            i <= needle@.len(),
            at + needle@.len() <= hay@.len() == hay_len,
            forall|j: int| 0 <= j < i ==> hay@[at + j] == needle@[j],
        decreases needle@.len() - i,
    {
        if hay[at + i] != needle[i] {
            assert(hay@.subrange(at as int, at + needle@.len())[i as int] != needle@[i as int]);
            return false;
        }
        i += 1;
    }
    assert(hay@.subrange(at as int, at + needle@.len()) =~= needle@);
    true
}

/// Tells whether `needle` stands somewhere in `hay`.
pub fn contains_chars(hay: &Vec<char>, needle: &Vec<char>) -> (found: bool)
    ensures
        found == occurs_in(hay@, needle@),
{
    if needle.len() > hay.len() {
        return false;
    }
    let last: usize = hay.len() - needle.len();
    let mut at: usize = 0;
    loop
        invariant
            last == hay@.len() - needle@.len(),
            at <= last,
            forall|k: int| 0 <= k < at ==> !occurs_at(hay@, needle@, k),
        decreases last - at,
    {
        if matches_at(hay, needle, at) {
            return true;
        }
        if at == last {
            return false;
        }
        at += 1;
    }
}

/// Position of the first `sep` at or after `from`, or the length of `chars`
/// where none follows.
fn field_end(chars: &Vec<char>, sep: char, from: usize) -> (end: usize)
    requires
        from <= chars@.len(),
    ensures
        end == from + first_field_len(chars@.skip(from as int), sep),
        from <= end <= chars@.len(),
{
    let mut i: usize = from;
    while i < chars.len() && chars[i] != sep
        invariant
            from <= i <= chars@.len(),
            first_field_len(chars@.skip(from as int), sep) == (i - from) + first_field_len(
                chars@.skip(i as int),
                sep,
            ),
        decreases chars@.len() - i,
    {
        assert(chars@.skip(i as int).drop_first() =~= chars@.skip(i + 1));
        i += 1;
    }
    i
}

/// Where field number `k` of `chars` starts and ends, or `None` where `sep`
/// divides `chars` into `k` fields or fewer.
fn field_bounds(chars: &Vec<char>, sep: char, k: usize) -> (bounds: Option<(usize, usize)>)
    ensures
        bounds is Some <==> k < field_count(chars@, sep),
        bounds matches Some((start, end)) ==> {
            &&& start <= end <= chars@.len()
            &&& chars@.subrange(start as int, end as int) == field(chars@, sep, k as nat)
        },
{
    let mut start: usize = 0;
    let mut done: usize = 0;
    assert(chars@.skip(0) =~= chars@);
    while done < k
        invariant
            done <= k,
            start <= chars@.len(),
            field(chars@, sep, k as nat) == field(
                chars@.skip(start as int),
                sep,
                (k - done) as nat,
            ),
            count_of(chars@, sep) == done + count_of(chars@.skip(start as int), sep),
        decreases k - done,
    {
        let end = field_end(chars, sep, start);
        proof {
            lemma_first_field(chars@.skip(start as int), sep);
        }
        if end == chars.len() {
            return None;
        }
        assert(chars@.skip(start as int).skip(end - start + 1) =~= chars@.skip(end + 1));
        start = end + 1;
        done += 1;
    }
    let end = field_end(chars, sep, start);
    assert(chars@.skip(start as int).take(end - start) =~= chars@.subrange(
        start as int,
        end as int,
    ));
    Some((start, end))
}

/// Field number `k` of the text `s`, or `None` where `sep` divides `s` into
/// `k` fields or fewer.
pub fn nth_field(s: &str, sep: char, k: usize) -> (piece: Option<String>)
    ensures
        piece is Some <==> k < field_count(s@, sep),
        piece matches Some(p) ==> p@ == field(s@, sep, k as nat),
{
    let chars = chars_of(s);
    match field_bounds(&chars, sep, k) {
        Some((start, end)) => Some(String::from_str(s.substring_char(start, end))),
        None => None,
    }
}

/// Tells whether the text `needle` stands somewhere in the text `hay`.
pub fn contains(hay: &str, needle: &str) -> (found: bool)
    ensures
        found == occurs_in(hay@, needle@),
{
    let hay_chars = chars_of(hay);
    let needle_chars = chars_of(needle);
    contains_chars(&hay_chars, &needle_chars)
}

} // verus!
