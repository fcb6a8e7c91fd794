//! Text primitives shared by the suggestion providers: searching, splitting,
//! joining and case folding, each with a model over `Seq<char>`.

use vstd::prelude::*;

verus! {

/// The texts held by a list of strings.
pub open spec fn texts(list: Seq<String>) -> Seq<Seq<char>> {
    list.map_values(|s: String| s@)
}

/// `needle` stands in `hay` starting at position `at`.
pub open spec fn occurs_at(needle: Seq<char>, hay: Seq<char>, at: int) -> bool {
    &&& 0 <= at
    &&& at + needle.len() <= hay.len()
    &&& hay.subrange(at, at + needle.len()) == needle
}

/// `needle` stands somewhere in `hay`.
pub open spec fn is_substring(needle: Seq<char>, hay: Seq<char>) -> bool {
    exists|at: int| occurs_at(needle, hay, at)
}

/// The least position at or after `from` where `needle` stands in `hay`.
pub open spec fn first_occurrence(needle: Seq<char>, hay: Seq<char>, from: int) -> Option<int>
    decreases hay.len() - from,
{
    if from < 0 || from + needle.len() > hay.len() {
        None
    } else if occurs_at(needle, hay, from) {
        Some(from)
    } else if from < hay.len() {
        first_occurrence(needle, hay, from + 1)
    } else {
        None
    }
}

/// The pieces of `s` from position `from` on, cut at each occurrence of `sep`
/// taken from left to right without overlap.
pub open spec fn split_from(s: Seq<char>, sep: Seq<char>, from: int) -> Seq<Seq<char>>
    decreases s.len() - from,
{
    let hit = first_occurrence(sep, s, from);
    if hit is Some && sep.len() > 0 && from <= hit->0 && hit->0 + sep.len() <= s.len() {
        seq![s.subrange(from, hit->0)] + split_from(s, sep, hit->0 + sep.len())
    } else {
        seq![s.subrange(from, s.len() as int)]
    }
}

/// The pieces of `s` between the occurrences of `sep`; `s` alone where `sep`
/// is empty.
pub open spec fn split_text(s: Seq<char>, sep: Seq<char>) -> Seq<Seq<char>> {
    split_from(s, sep, 0)
}

/// The pieces of `parts` written one after another with `sep` between them.
pub open spec fn join_text(parts: Seq<Seq<char>>, sep: Seq<char>) -> Seq<char>
    decreases parts.len(),
{
    if parts.len() == 0 {
        Seq::empty()
    } else if parts.len() == 1 {
        parts[0]
    } else {
        join_text(parts.drop_last(), sep) + sep + parts.last()
    }
}

/// `s` with every occurrence of `from` replaced by `to`.
pub open spec fn replace_text(s: Seq<char>, from: Seq<char>, to: Seq<char>) -> Seq<char> {
    join_text(split_text(s, from), to)
}

/// What `str::to_uppercase` makes of a text.
pub uninterp spec fn uppercase(s: Seq<char>) -> Seq<char>;

/// What `str::to_lowercase` makes of a text.
pub uninterp spec fn lowercase(s: Seq<char>) -> Seq<char>;

/// White space as Unicode defines it (the property `White_Space`).
pub open spec fn is_white_space(c: char) -> bool {
    let code = c as u32;
    ||| 0x09 <= code <= 0x0D
    ||| code == 0x20
    ||| code == 0x85
    ||| code == 0xA0
    ||| code == 0x1680
    ||| 0x2000 <= code <= 0x200A
    ||| code == 0x2028
    ||| code == 0x2029
    ||| code == 0x202F
    ||| code == 0x205F
    ||| code == 0x3000
}

/// The first position at or after `from` that holds no white space; the
/// length of `s` where there is none.
pub open spec fn skip_white_space(s: Seq<char>, from: int) -> int
    decreases s.len() - from,
{
    if 0 <= from < s.len() && is_white_space(s[from]) {
        skip_white_space(s, from + 1)
    } else {
        from
    }
}

/// The position after the last character before `to` that is no white space,
/// looking no further back than `start`; `start` where there is none.
pub open spec fn drop_white_space(s: Seq<char>, start: int, to: int) -> int
    decreases to,
{
    if 0 <= start < to <= s.len() && is_white_space(s[to - 1]) {
        drop_white_space(s, start, to - 1)
    } else {
        to
    }
}

/// `s` without the white space at its two ends.
pub open spec fn trimmed(s: Seq<char>) -> Seq<char> {
    let start = skip_white_space(s, 0);
    s.subrange(start, drop_white_space(s, start, s.len() as int))
}

/// `needle` stands in `hay` when letter case is ignored.
pub open spec fn contains_ignoring_case(hay: Seq<char>, needle: Seq<char>) -> bool {
    is_substring(uppercase(needle), uppercase(hay))
}

/// `first_occurrence` names an occurrence, and no occurrence lies between
/// `from` and it; where it names none, there is none from `from` on.
pub proof fn lemma_first_occurrence(needle: Seq<char>, hay: Seq<char>, from: int)
    requires
        0 <= from,
    ensures
        match first_occurrence(needle, hay, from) {
            Some(at) => {
                &&& from <= at
                &&& occurs_at(needle, hay, at)
                &&& forall|k: int| from <= k < at ==> !occurs_at(needle, hay, k)
            },
            None => forall|k: int| from <= k ==> !occurs_at(needle, hay, k),
        },
    decreases hay.len() - from,
{
    if from + needle.len() > hay.len() {
    } else if occurs_at(needle, hay, from) {
    } else if from < hay.len() {
        lemma_first_occurrence(needle, hay, from + 1);
    } else {
        assert(hay.subrange(from, from + needle.len()) =~= needle);
    }
}

/// A text contains another exactly when a first occurrence exists.
pub proof fn lemma_substring_has_first_occurrence(needle: Seq<char>, hay: Seq<char>)
    ensures
        is_substring(needle, hay) <==> first_occurrence(needle, hay, 0) is Some,
{
    lemma_first_occurrence(needle, hay, 0);
    if first_occurrence(needle, hay, 0) is Some {
        assert(occurs_at(needle, hay, first_occurrence(needle, hay, 0)->0));
    }
}

/// The upper-case form of `s` by `str::to_uppercase`. The contract claims
/// only that the outcome is a function of the text.
#[verifier::external_body]
pub(crate) fn to_uppercase(s: &str) -> (upper: String)
    ensures
        upper@ == uppercase(s@),
{
    s.to_uppercase()
}

/// The lower-case form of `s` by `str::to_lowercase`. The contract claims
/// only that the outcome is a function of the text.
#[verifier::external_body]
pub(crate) fn to_lowercase(s: &str) -> (lower: String)
    ensures
        lower@ == lowercase(s@),
{
    s.to_lowercase()
}

/// Whether `c` is white space.
pub fn white_space(c: char) -> (white: bool)
    ensures
        white == is_white_space(c),
{
    let code = c as u32;
    (0x09 <= code && code <= 0x0D) || code == 0x20 || code == 0x85 || code == 0xA0 || code
        == 0x1680 || (0x2000 <= code && code <= 0x200A) || code == 0x2028 || code == 0x2029
        || code == 0x202F || code == 0x205F || code == 0x3000
}

/// `s` without the white space at its two ends.
pub fn trim(s: &str) -> (inner: String)
    ensures
        inner@ == trimmed(s@),
{
    let chars = chars_of(s);
    let mut start: usize = 0;
    while start < chars.len() && white_space(chars[start])
        invariant
            chars@ == s@,
            start <= chars.len(),
            skip_white_space(s@, 0) == skip_white_space(s@, start as int),
        decreases chars.len() - start,
    {
        start += 1;
    }
    let mut end: usize = chars.len();
    while start < end && white_space(chars[end - 1])
        invariant
            chars@ == s@,
            start <= end <= chars.len(),
            drop_white_space(s@, start as int, s@.len() as int) == drop_white_space(
                s@,
                start as int,
                end as int,
            ),
        decreases end,
    {
        end -= 1;
    }
    s.substring_char(start, end).to_owned()
}

/// The characters of `s`, one by one.
pub fn chars_of(s: &str) -> (chars: Vec<char>)
    ensures
        chars@ == s@,
{
    let n = s.unicode_len();
    let mut chars: Vec<char> = Vec::new();
    let mut i: usize = 0;
    while i < n
        invariant
            n == s@.len(),
            i <= n,
            chars@ == s@.subrange(0, i as int),
        decreases n - i,
    {
        let c = s.get_char(i);
        chars.push(c);
        i += 1;
        assert(chars@ =~= s@.subrange(0, i as int));
    }
    assert(chars@ =~= s@);
    chars
}

/// Whether two texts are the same.
pub fn same_text(a: &str, b: &str) -> (same: bool)
    ensures
        same == (a@ == b@),
{
    let left = chars_of(a);
    let right = chars_of(b);
    if left.len() != right.len() {
        return false;
    }
    let mut i: usize = 0;
    while i < left.len()
        invariant
            left@ == a@,
            right@ == b@,
            left.len() == right.len(),
            i <= left.len(),
            forall|k: int| 0 <= k < i ==> left@[k] == right@[k],
        decreases left.len() - i,
    {
        if left[i] != right[i] {
            return false;
        }
        i += 1;
    }
    assert(left@ =~= right@);
    true
}

/// Whether `c` is one of the characters of `s`.
pub fn contains_char(s: &str, c: char) -> (found: bool)
    ensures
        found == s@.contains(c),
{
    let chars = chars_of(s);
    let mut i: usize = 0;
    while i < chars.len()
        invariant
            chars@ == s@,
            i <= chars.len(),
            forall|k: int| 0 <= k < i ==> chars@[k] != c,
        decreases chars.len() - i,
    {
        if chars[i] == c {
            return true;
        }
        i += 1;
    }
    false
}

/// Whether `needle` stands in `hay` at position `at`.
fn occurs_here(needle: &Vec<char>, hay: &Vec<char>, at: usize) -> (found: bool)
    requires
        at + needle.len() <= hay.len(),
    ensures
        found == occurs_at(needle@, hay@, at as int),
{
    let mut j: usize = 0;
    while j < needle.len()
        invariant
            at + needle.len() <= hay.len(),
            j <= needle.len(),
            forall|k: int| 0 <= k < j ==> hay@[at + k] == needle@[k],
        decreases needle.len() - j,
    {
        if hay[at + j] != needle[j] {
            assert(hay@.subrange(at as int, at + needle.len())[j as int] == hay@[at + j]);
            return false;
        }
        j += 1;
    }
    assert(hay@.subrange(at as int, at + needle.len()) =~= needle@);
    true
}

/// The first position at or after `from` where `needle` stands in `hay`.
pub fn find_from(needle: &Vec<char>, hay: &Vec<char>, from: usize) -> (found: Option<usize>)
    ensures
        found is Some <==> first_occurrence(needle@, hay@, from as int) is Some,
        found is Some ==> first_occurrence(needle@, hay@, from as int) == Some(found->0 as int),
{
    if needle.len() > hay.len() || from > hay.len() - needle.len() {
        return None;
    }
    let last = hay.len() - needle.len();
    let mut i: usize = from;
    loop
        invariant
            last == hay.len() - needle.len(),
            from <= i <= last,
            first_occurrence(needle@, hay@, from as int) == first_occurrence(
                needle@,
                hay@,
                i as int,
            ),
        decreases last - i,
    {
        if occurs_here(needle, hay, i) {
            return Some(i);
        }
        if i == last {
            assert(first_occurrence(needle@, hay@, i + 1) is None);
            return None;
        }
        i += 1;
    }
}

/// Whether `needle` stands somewhere in `hay`.
pub fn contains(hay: &str, needle: &str) -> (found: bool)
    ensures
        found == is_substring(needle@, hay@),
{
    let hay_chars = chars_of(hay);
    let needle_chars = chars_of(needle);
    proof {
        lemma_substring_has_first_occurrence(needle@, hay@);
    }
    find_from(&needle_chars, &hay_chars, 0).is_some()
}

/// Whether `needle` stands somewhere in `hay` when letter case is ignored.
pub fn contains_ignore_case(hay: &str, needle: &str) -> (found: bool)
    ensures
        found == contains_ignoring_case(hay@, needle@),
{
    let hay_upper = to_uppercase(hay);
    let needle_upper = to_uppercase(needle);
    contains(hay_upper.as_str(), needle_upper.as_str())
}

/// Cuts `s` at each occurrence of `sep`, from left to right. An empty `sep`
/// cuts nowhere.
pub fn split(s: &str, sep: &str) -> (parts: Vec<String>)
    ensures
        texts(parts@) == split_text(s@, sep@),
        parts@.len() >= 1,
{
    let hay = chars_of(s);
    let needle = chars_of(sep);
    let mut parts: Vec<String> = Vec::new();
    let mut start: usize = 0;
    if needle.len() == 0 {
        parts.push(s.to_owned());
        assert(s@.subrange(0, s@.len() as int) =~= s@);
        assert(texts(parts@) =~= seq![s@]);
        return parts;
    }
    loop
        invariant
            hay@ == s@,
            needle@ == sep@,
            sep@.len() > 0,
            start <= hay.len(),
            split_text(s@, sep@) == texts(parts@) + split_from(s@, sep@, start as int),
        decreases hay.len() - start,
    {
        let ghost before = parts@;
        proof {
            lemma_first_occurrence(sep@, s@, start as int);
        }
        match find_from(&needle, &hay, start) {
            Some(at) => {
                let piece = s.substring_char(start, at).to_owned();
                parts.push(piece);
                assert(texts(parts@) =~= texts(before) + seq![s@.subrange(start as int, at as int)]);
                start = at + needle.len();
            },
            None => {
                let piece = s.substring_char(start, hay.len()).to_owned();
                parts.push(piece);
                assert(texts(parts@) =~= texts(before) + seq![
                    s@.subrange(start as int, s@.len() as int),
                ]);
                return parts;
            },
        }
    }
}

/// Writes `parts` one after another with `sep` between them.
pub fn join(parts: &Vec<String>, sep: &str) -> (joined: String)
    ensures
        joined@ == join_text(texts(parts@), sep@),
{
    let mut joined = String::new();
    let mut i: usize = 0;
    while i < parts.len()
        invariant
            i <= parts.len(),
            joined@ == join_text(texts(parts@).take(i as int), sep@),
        decreases parts.len() - i,
    {
        let ghost done = texts(parts@).take(i as int);
        let ghost next = texts(parts@).take(i + 1);
        assert(next.drop_last() =~= done);
        assert(next.last() == parts@[i as int]@);
        if i > 0 {
            joined.append(sep);
        }
        joined.append(parts[i].as_str());
        assert(joined@ =~= join_text(next, sep@)) by {
            if i == 0 {
                assert(done.len() == 0);
                assert(join_text(done, sep@) =~= Seq::<char>::empty());
            }
        }
        i += 1;
    }
    assert(texts(parts@).take(parts.len() as int) =~= texts(parts@));
    joined
}

/// Replaces every occurrence of `from` in `s` by `to`. An empty `from`
/// occurs nowhere.
pub fn replace(s: &str, from: &str, to: &str) -> (replaced: String)
    ensures
        replaced@ == replace_text(s@, from@, to@),
{
    let parts = split(s, from);
    join(&parts, to)
}

/// A copy of a list of strings.
pub fn clone_strings(list: &Vec<String>) -> (copy: Vec<String>)
    ensures
        texts(copy@) == texts(list@),
{
    let mut copy: Vec<String> = Vec::new();
    let mut i: usize = 0;
    while i < list.len()
        invariant
            i <= list.len(),
            texts(copy@) == texts(list@).take(i as int),
        decreases list.len() - i,
    {
        let ghost before = copy@;
        copy.push(list[i].clone());
        assert(texts(copy@) =~= texts(before) + seq![list@[i as int]@]);
        assert(texts(copy@) =~= texts(list@).take(i + 1));
        i += 1;
    }
    assert(texts(list@).take(list.len() as int) =~= texts(list@));
    copy
}

} // verus!
