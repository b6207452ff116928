//! Character-level helpers shared by the components: Unicode white space,
//! trimming, decimal rendering, UTF-8 byte offsets.
use vstd::prelude::*;
use vstd::utf8::{encode_utf8, is_char_boundary};

verus! {

/// The Unicode `White_Space` property.
pub open spec fn is_white_space_spec(c: char) -> bool {
    ||| ('\u{9}' <= c && c <= '\u{d}')
    ||| c == ' '
    ||| c == '\u{85}'
    ||| c == '\u{a0}'
    ||| c == '\u{1680}'
    ||| ('\u{2000}' <= c && c <= '\u{200a}')
    ||| c == '\u{2028}'
    ||| c == '\u{2029}'
    ||| c == '\u{202f}'
    ||| c == '\u{205f}'
    ||| c == '\u{3000}'
}

/// Whether `c` has the Unicode `White_Space` property.
#[verifier::when_used_as_spec(is_white_space_spec)]
pub fn is_white_space(c: char) -> (b: bool)
    ensures
        b == is_white_space_spec(c),
{
    ('\u{9}' <= c && c <= '\u{d}') || c == ' ' || c == '\u{85}' || c == '\u{a0}' || c == '\u{1680}'
        || ('\u{2000}' <= c && c <= '\u{200a}') || c == '\u{2028}' || c == '\u{2029}' || c
        == '\u{202f}' || c == '\u{205f}' || c == '\u{3000}'
}

/// The characters of `s`, in order.
pub fn chars_of(s: &str) -> (v: Vec<char>)
    ensures
        v@ == s@,
{
    let mut v: Vec<char> = Vec::new();
    for c in it: s.chars()
        invariant
            v@ == it.seq().take(it.index()),
    {
        v.push(c);
    }
    v
}


/// `s` with its leading white space removed.
pub open spec fn trim_start(s: Seq<char>) -> Seq<char>
    decreases s.len(),
{
    if s.len() > 0 && is_white_space_spec(s[0]) {
        trim_start(s.drop_first())
    } else {
        s
    }
}

/// `s` with its trailing white space removed.
pub open spec fn trim_end(s: Seq<char>) -> Seq<char>
    decreases s.len(),
{
    if s.len() > 0 && is_white_space_spec(s.last()) {
        trim_end(s.drop_last())
    } else {
        s
    }
}

/// `s` with its leading and trailing white space removed.
pub open spec fn trim(s: Seq<char>) -> Seq<char> {
    trim_end(trim_start(s))
}

/// Every character of `s` is white space (the empty sequence included).
pub open spec fn is_blank(s: Seq<char>) -> bool {
    forall|i: int| 0 <= i < s.len() ==> is_white_space_spec(#[trigger] s[i])
}

/// When the first `k` characters are white space and the next is not (or
/// there is none), trimming the start drops exactly those `k`.
pub proof fn lemma_trim_start_at(s: Seq<char>, k: int)
    requires
        0 <= k <= s.len(),
        forall|i: int| 0 <= i < k ==> is_white_space_spec(#[trigger] s[i]),
        k < s.len() ==> !is_white_space_spec(s[k]),
    ensures
        trim_start(s) == s.subrange(k, s.len() as int),
    decreases k,
{
    if k == 0 {
        assert(s.subrange(0, s.len() as int) =~= s);
    } else {
        let t = s.drop_first();
        assert forall|i: int| 0 <= i < k - 1 implies is_white_space_spec(#[trigger] t[i]) by {
            assert(t[i] == s[i + 1]);
        }
        if k < s.len() {
            assert(t[k - 1] == s[k]);
        }
        lemma_trim_start_at(t, k - 1);
        assert(t.subrange(k - 1, t.len() as int) =~= s.subrange(k, s.len() as int));
    }
}

/// When the characters from `k` on are white space and the one before is not
/// (or there is none), trimming the end keeps exactly the first `k`.
pub proof fn lemma_trim_end_at(s: Seq<char>, k: int)
    requires
        0 <= k <= s.len(),
        forall|i: int| k <= i < s.len() ==> is_white_space_spec(#[trigger] s[i]),
        k > 0 ==> !is_white_space_spec(s[k - 1]),
    ensures
        trim_end(s) == s.subrange(0, k),
    decreases s.len() - k,
{
    if k == s.len() {
        assert(s.subrange(0, k) =~= s);
    } else {
        let t = s.drop_last();
        assert(is_white_space_spec(s[s.len() - 1]));
        assert forall|i: int| k <= i < t.len() implies is_white_space_spec(#[trigger] t[i]) by {
            assert(t[i] == s[i]);
        }
        if k > 0 {
            assert(t[k - 1] == s[k - 1]);
        }
        lemma_trim_end_at(t, k);
        assert(t.subrange(0, k) =~= s.subrange(0, k));
    }
}

/// `trim(s)` is the slice of `s` between its first and after its last
/// character that is not white space (empty when there is none).
pub proof fn lemma_trim_at(s: Seq<char>) -> (r: (int, int))
    ensures
        0 <= r.0 <= r.1 <= s.len(),
        trim(s) == s.subrange(r.0, r.1),
        forall|i: int| 0 <= i < r.0 ==> is_white_space_spec(#[trigger] s[i]),
        forall|i: int| r.1 <= i < s.len() ==> is_white_space_spec(#[trigger] s[i]),
        r.0 < r.1 ==> !is_white_space_spec(s[r.0]) && !is_white_space_spec(s[r.1 - 1]),
        r.0 == r.1 <==> is_blank(s),
{
    let start = choose_first_non_white(s, 0);
    lemma_trim_start_at(s, start);
    let u = s.subrange(start, s.len() as int);
    let e = choose_last_non_white(u, u.len() as int);
    lemma_trim_end_at(u, e);
    assert(u.subrange(0, e) =~= s.subrange(start, start + e));
    assert forall|i: int| start + e <= i < s.len() implies is_white_space_spec(#[trigger] s[i]) by {
        assert(u[i - start] == s[i]);
    }
    if e > 0 {
        assert(u[e - 1] == s[start + e - 1]);
    }
    if e == 0 {
        assert forall|i: int| 0 <= i < s.len() implies is_white_space_spec(#[trigger] s[i]) by {}
    }
    (start, start + e)
}

/// The first index at or after `i` whose character is not white space, or
/// the length.
proof fn choose_first_non_white(s: Seq<char>, i: int) -> (k: int)
    requires
        0 <= i <= s.len(),
        forall|j: int| 0 <= j < i ==> is_white_space_spec(#[trigger] s[j]),
    ensures
        i <= k <= s.len(),
        forall|j: int| 0 <= j < k ==> is_white_space_spec(#[trigger] s[j]),
        k < s.len() ==> !is_white_space_spec(s[k]),
    decreases s.len() - i,
{
    if i < s.len() && is_white_space_spec(s[i]) {
        choose_first_non_white(s, i + 1)
    } else {
        i
    }
}

/// The index after the last character before `i` that is not white space, or
/// zero.
proof fn choose_last_non_white(s: Seq<char>, i: int) -> (k: int)
    requires
        0 <= i <= s.len(),
        forall|j: int| i <= j < s.len() ==> is_white_space_spec(#[trigger] s[j]),
    ensures
        0 <= k <= i,
        forall|j: int| k <= j < s.len() ==> is_white_space_spec(#[trigger] s[j]),
        k > 0 ==> !is_white_space_spec(s[k - 1]),
    decreases i,
{
    if i > 0 && is_white_space_spec(s[i - 1]) {
        choose_last_non_white(s, i - 1)
    } else {
        i
    }
}

/// The bounds `(start, end)` of `trim(v)` inside `v`.
pub fn trim_bounds(v: &Vec<char>) -> (r: (usize, usize))
    ensures
        r.0 <= r.1 <= v@.len(),
        v@.subrange(r.0 as int, r.1 as int) == trim(v@),
        r.0 == r.1 <==> is_blank(v@),
{
    let n = v.len();
    let mut start: usize = 0;
    while start < n && is_white_space(v[start])
        invariant
            n == v@.len(),
            start <= n,
            forall|i: int| 0 <= i < start ==> is_white_space_spec(#[trigger] v@[i]),
        decreases n - start,
    {
        start = start + 1;
    }
    proof {
        lemma_trim_start_at(v@, start as int);
    }
    let mut end: usize = n;
    while end > start && is_white_space(v[end - 1])
        invariant
            n == v@.len(),
            start <= end <= n,
            forall|i: int| end <= i < n ==> is_white_space_spec(#[trigger] v@[i]),
        decreases end,
    {
        end = end - 1;
    }
    proof {
        let u = v@.subrange(start as int, n as int);
        assert forall|i: int| end - start <= i < u.len() implies is_white_space_spec(#[trigger] u[i]) by {
            assert(u[i] == v@[start + i]);
        }
        if end > start {
            assert(u[end - start - 1] == v@[end - 1]);
        }
        lemma_trim_end_at(u, end - start);
        assert(u.subrange(0, end - start) =~= v@.subrange(start as int, end as int));
        if end == start {
            assert forall|i: int| 0 <= i < v@.len() implies is_white_space_spec(#[trigger] v@[i]) by {
                if i >= start {
                    assert(v@[i] == v@[i]);
                }
            }
        } else {
            assert(!is_white_space_spec(v@[end - 1]));
        }
    }
    (start, end)
}

/// Appends `c` to `s`.
#[verifier::external_body]
pub(crate) fn push_char(s: &mut String, c: char)
    ensures
        final(s)@ == old(s)@.push(c),
{
    s.push(c);
}

/// The characters `v[start..end]` as a new string.
pub fn string_from_chars(v: &Vec<char>, start: usize, end: usize) -> (s: String)
    requires
        start <= end <= v@.len(),
    ensures
        s@ == v@.subrange(start as int, end as int),
{
    let mut s = String::new();
    let mut i = start;
    while i < end
        invariant
            start <= i <= end <= v@.len(),
            s@ == v@.subrange(start as int, i as int),
        decreases end - i,
    {
        push_char(&mut s, v[i]);
        assert(v@.subrange(start as int, i + 1) =~= v@.subrange(start as int, i as int).push(v@[i as int]));
        i = i + 1;
    }
    s
}

/// Whether `s` is empty or made of white space only.
pub fn str_is_blank(s: &str) -> (b: bool)
    ensures
        b == is_blank(s@),
{
    let v = chars_of(s);
    let n = v.len();
    let mut i: usize = 0;
    while i < n
        invariant
            n == v@.len(),
            v@ == s@,
            i <= n,
            forall|j: int| 0 <= j < i ==> is_white_space_spec(#[trigger] v@[j]),
        decreases n - i,
    {
        if !is_white_space(v[i]) {
            return false;
        }
        i = i + 1;
    }
    true
}


/// The decimal digit `d` (below ten) as a character.
pub open spec fn digit_char_spec(d: nat) -> char {
    if d == 0 {
        '0'
    } else if d == 1 {
        '1'
    } else if d == 2 {
        '2'
    } else if d == 3 {
        '3'
    } else if d == 4 {
        '4'
    } else if d == 5 {
        '5'
    } else if d == 6 {
        '6'
    } else if d == 7 {
        '7'
    } else if d == 8 {
        '8'
    } else {
        '9'
    }
}

/// The decimal digit `d` (below ten) as a character.
pub fn digit_char(d: usize) -> (c: char)
    requires
        d < 10,
    ensures
        c == digit_char_spec(d as nat),
{
    if d == 0 {
        '0'
    } else if d == 1 {
        '1'
    } else if d == 2 {
        '2'
    } else if d == 3 {
        '3'
    } else if d == 4 {
        '4'
    } else if d == 5 {
        '5'
    } else if d == 6 {
        '6'
    } else if d == 7 {
        '7'
    } else if d == 8 {
        '8'
    } else {
        '9'
    }
}

/// The decimal representation of `n`, without leading zeros.
pub open spec fn decimal_spec(n: nat) -> Seq<char>
    decreases n,
{
    if n < 10 {
        seq![digit_char_spec(n)]
    } else {
        decimal_spec(n / 10).push(digit_char_spec(n % 10))
    }
}

/// Appends the decimal representation of `n` to `s`.
pub fn push_decimal(s: &mut String, n: usize)
    ensures
        final(s)@ == old(s)@ + decimal_spec(n as nat),
    decreases n,
{
    if n >= 10 {
        push_decimal(s, n / 10);
    }
    push_char(s, digit_char(n % 10));
    proof {
        if n >= 10 {
            assert(old(s)@ + decimal_spec(n as nat) =~= old(s)@ + decimal_spec((n / 10) as nat)
                + seq![digit_char_spec((n % 10) as nat)]);
        }
    }
}

/// The parts joined by single spaces.
pub open spec fn join_with_spaces(parts: Seq<Seq<char>>) -> Seq<char>
    decreases parts.len(),
{
    if parts.len() == 0 {
        Seq::empty()
    } else if parts.len() == 1 {
        parts[0]
    } else {
        join_with_spaces(parts.drop_last()) + " "@ + parts.last()
    }
}

/// The views of a list of strings.
pub open spec fn string_views(v: Seq<String>) -> Seq<Seq<char>> {
    v.map_values(|s: String| s@)
}

/// The strings of `parts` joined by single spaces.
pub fn join_parts(parts: &Vec<String>) -> (s: String)
    ensures
        s@ == join_with_spaces(string_views(parts@)),
{
    let mut s = String::new();
    let n = parts.len();
    let mut i: usize = 0;
    while i < n
        invariant
            n == parts@.len(),
            i <= n,
            s@ == join_with_spaces(string_views(parts@).take(i as int)),
        decreases n - i,
    {
        let ghost views = string_views(parts@);
        if i > 0 {
            s.append(" ");
        }
        s.append(parts[i].as_str());
        proof {
            assert(views.take(i + 1).drop_last() =~= views.take(i as int));
            if i == 0 {
                assert(views.take(1)[0] == views[0]);
                assert(Seq::<char>::empty() + views[0] =~= views[0]);
            }
        }
        i = i + 1;
    }
    assert(string_views(parts@).take(n as int) =~= string_views(parts@));
    s
}


/// The UTF-8 length of `s` in bytes.
pub open spec fn byte_len(s: Seq<char>) -> int {
    encode_utf8(s).len() as int
}

/// The cursor at byte `offset` of `text`, moved onto the text: past the end
/// it goes to the end, and inside a character it goes back to that
/// character's first byte.
pub open spec fn clamp_cursor_spec(text: Seq<char>, offset: int) -> int
    decreases offset,
{
    if offset > byte_len(text) {
        if byte_len(text) >= 0 {
            clamp_cursor_spec(text, byte_len(text))
        } else {
            0
        }
    } else if offset <= 0 {
        0
    } else if is_char_boundary(encode_utf8(text), offset) {
        offset
    } else {
        clamp_cursor_spec(text, offset - 1)
    }
}

/// A byte offset that lies on `text`: within it and at a character boundary.
pub open spec fn is_cursor_on(text: Seq<char>, offset: int) -> bool {
    0 <= offset <= byte_len(text) && is_char_boundary(encode_utf8(text), offset)
}

/// Offset 0 and the end of the text are character boundaries.
pub proof fn lemma_text_ends_are_boundaries(text: Seq<char>)
    ensures
        is_char_boundary(encode_utf8(text), 0),
        is_char_boundary(encode_utf8(text), byte_len(text)),
{
    vstd::utf8::encode_utf8_valid_utf8(text);
    vstd::utf8::is_char_boundary_start_end_of_seq(encode_utf8(text));
}

/// A clamped cursor lies on the text, below `offset` where `offset` is not
/// negative, with no character boundary between it and `offset` (or the end
/// of the text); a cursor that already lies on the text is left as it is.
pub proof fn lemma_clamp_cursor(text: Seq<char>, offset: int)
    ensures
        is_cursor_on(text, clamp_cursor_spec(text, offset)),
        offset >= 0 ==> clamp_cursor_spec(text, offset) <= offset,
        forall|j: int|
            clamp_cursor_spec(text, offset) < j <= offset && j <= byte_len(text) ==> !is_char_boundary(
                encode_utf8(text),
                j,
            ),
        is_cursor_on(text, offset) ==> clamp_cursor_spec(text, offset) == offset,
    decreases offset,
{
    lemma_text_ends_are_boundaries(text);
    if offset > byte_len(text) {
        lemma_clamp_cursor(text, byte_len(text));
    } else if offset <= 0 {
    } else if is_char_boundary(encode_utf8(text), offset) {
    } else {
        lemma_clamp_cursor(text, offset - 1);
    }
}

/// The cursor at byte `offset` of `text`, moved onto the text.
pub fn clamp_cursor(text: &str, offset: usize) -> (r: usize)
    ensures
        r == clamp_cursor_spec(text@, offset as int),
        is_cursor_on(text@, r as int),
{
    proof {
        lemma_text_ends_are_boundaries(text@);
        lemma_clamp_cursor(text@, offset as int);
    }
    let len = text.as_bytes().len();
    let mut o = if offset < len {
        offset
    } else {
        len
    };
    assert(clamp_cursor_spec(text@, offset as int) == clamp_cursor_spec(text@, o as int));
    while !text.is_char_boundary(o)
        invariant
            len == byte_len(text@),
            o <= len,
            is_char_boundary(encode_utf8(text@), 0),
            clamp_cursor_spec(text@, offset as int) == clamp_cursor_spec(text@, o as int),
        decreases o,
    {
        o = o - 1;
    }
    o
}

/// `needle` occurs in `hay` starting at byte `i`.
pub open spec fn occurs_at(hay: Seq<u8>, needle: Seq<u8>, i: int) -> bool {
    0 <= i && i + needle.len() <= hay.len() && hay.subrange(i, i + needle.len()) == needle
}

/// The last start of `needle` in `hay` at or before `i`.
pub open spec fn last_occurrence_from(hay: Seq<u8>, needle: Seq<u8>, i: int) -> Option<int>
    decreases i + 1,
{
    if i < 0 {
        None
    } else if occurs_at(hay, needle, i) {
        Some(i)
    } else {
        last_occurrence_from(hay, needle, i - 1)
    }
}

/// The byte index of the last occurrence of `needle` in `hay`.
pub open spec fn rfind_spec(hay: Seq<char>, needle: Seq<char>) -> Option<int> {
    last_occurrence_from(
        encode_utf8(hay),
        encode_utf8(needle),
        byte_len(hay) - byte_len(needle),
    )
}

/// A found occurrence is an occurrence, and none starts after it (up to
/// where the search began).
pub proof fn lemma_last_occurrence(hay: Seq<u8>, needle: Seq<u8>, i: int)
    ensures
        last_occurrence_from(hay, needle, i) matches Some(k) ==> occurs_at(hay, needle, k) && k
            <= i && forall|j: int| k < j <= i ==> !occurs_at(hay, needle, j),
        last_occurrence_from(hay, needle, i) is None ==> forall|j: int|
            0 <= j <= i ==> !occurs_at(hay, needle, j),
    decreases i + 1,
{
    if i >= 0 && !occurs_at(hay, needle, i) {
        lemma_last_occurrence(hay, needle, i - 1);
    }
}

/// The last occurrence of a non-empty `needle` in `hay` starts at a
/// character boundary of `hay`.
pub proof fn lemma_occurrence_on_boundary(hay: Seq<char>, needle: Seq<char>)
    requires
        needle.len() > 0,
        rfind_spec(hay, needle) is Some,
    ensures
        is_cursor_on(hay, rfind_spec(hay, needle)->0),
{
    let h = encode_utf8(hay);
    let n = encode_utf8(needle);
    let i = rfind_spec(hay, needle)->0;
    lemma_last_occurrence(h, n, byte_len(hay) - byte_len(needle));
    assert(n.len() > 0);
    vstd::utf8::encode_utf8_valid_utf8(hay);
    vstd::utf8::encode_utf8_valid_utf8(needle);
    lemma_text_ends_are_boundaries(needle);
    vstd::utf8::is_char_boundary_iff_not_is_continuation_byte(n, 0);
    assert(h.subrange(i, i + n.len())[0] == h[i]);
    assert(h[i] == n[0]);
    vstd::utf8::is_char_boundary_iff_not_is_continuation_byte(h, i);
}

/// Whether `needle` occurs in `hay` starting at byte `i`.
fn occurs_at_exec(hay: &[u8], needle: &[u8], i: usize) -> (b: bool)
    requires
        i + needle@.len() <= hay@.len(),
    ensures
        b == occurs_at(hay@, needle@, i as int),
{
    let n = needle.len();
    let hl = hay.len();
    let mut k: usize = 0;
    while k < n
        invariant
            n == needle@.len(),
            hl == hay@.len(),
            i + n <= hay@.len(),
            k <= n,
            forall|j: int| 0 <= j < k ==> hay@[i + j] == needle@[j],
        decreases n - k,
    {
        if hay[i + k] != needle[k] {
            assert(hay@.subrange(i as int, i + n)[k as int] != needle@[k as int]);
            return false;
        }
        k = k + 1;
    }
    assert(hay@.subrange(i as int, i + n) =~= needle@);
    true
}

/// The byte index of the last occurrence of `needle` in `hay`.
pub fn rfind(hay: &str, needle: &str) -> (r: Option<usize>)
    ensures
        match r {
            Some(i) => rfind_spec(hay@, needle@) == Some(i as int),
            None => rfind_spec(hay@, needle@) is None,
        },
{
    let h = hay.as_bytes();
    let n = needle.as_bytes();
    if n.len() > h.len() {
        proof {
            assert(last_occurrence_from(h@, n@, h@.len() - n@.len()) is None);
        }
        return None;
    }
    let mut i: usize = h.len() - n.len();
    loop
        invariant
            n@.len() <= h@.len(),
            i + n@.len() <= h@.len(),
            h@ == encode_utf8(hay@),
            n@ == encode_utf8(needle@),
            rfind_spec(hay@, needle@) == last_occurrence_from(h@, n@, i as int),
        decreases i,
    {
        if occurs_at_exec(h, n, i) {
            return Some(i);
        }
        if i == 0 {
            assert(last_occurrence_from(h@, n@, -1) is None);
            return None;
        }
        i = i - 1;
    }
}

} // verus!
