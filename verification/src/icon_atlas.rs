//! Reading the icon atlas index.
//!
//! The index is text.  Its first line holds the icon size and the number of
//! icon columns and rows of the atlas; after it comes one line per icon,
//! holding the icon's file name followed by its x and y position in the atlas,
//! all separated by whitespace.
use vstd::prelude::*;
use crate::text::{
    char_is_whitespace, is_whitespace, lemma_line_end_at, lemma_line_end_bounds, line_at, line_end,
    str_chars,
};

verus! {

broadcast use vstd::string::group_string_axioms;

/// The first line of `s` (from position `start` on) that begins with `id`, as
/// `str::lines` splits it.
pub open spec fn first_line_with_prefix(s: Seq<char>, start: int, id: Seq<char>) -> Option<
    Seq<char>,
>
    decreases s.len() + 1 - start,
{
    if start < 0 || start >= s.len() {
        None
    } else if id.is_prefix_of(line_at(s, start)) {
        Some(line_at(s, start))
    } else {
        proof {
            lemma_line_end_bounds(s, start);
        }
        first_line_with_prefix(s, line_end(s, start) + 1, id)
    }
}

/// The index of the first whitespace character of `l` at or after `i`, or the
/// length of `l`.
pub open spec fn token_end(l: Seq<char>, i: int) -> int
    decreases l.len() - i,
{
    if i >= l.len() {
        l.len() as int
    } else if is_whitespace(l[i]) {
        i
    } else {
        token_end(l, i + 1)
    }
}

pub proof fn lemma_token_end_bounds(l: Seq<char>, i: int)
    requires
        0 <= i <= l.len(),
    ensures
        i <= token_end(l, i) <= l.len(),
        token_end(l, i) < l.len() ==> is_whitespace(l[token_end(l, i)]),
        forall|k: int| i <= k < token_end(l, i) ==> !is_whitespace(l[k]),
    decreases l.len() - i,
{
    if i < l.len() && !is_whitespace(l[i]) {
        lemma_token_end_bounds(l, i + 1);
    }
}

/// The whitespace-separated words of `l` from position `i` on
/// (`str::split_whitespace`).
pub open spec fn words_from(l: Seq<char>, i: int) -> Seq<Seq<char>>
    decreases l.len() - i,
{
    if i < 0 || i >= l.len() {
        Seq::empty()
    } else if is_whitespace(l[i]) {
        words_from(l, i + 1)
    } else {
        proof {
            lemma_token_end_bounds(l, i);
        }
        seq![l.subrange(i, token_end(l, i))] + words_from(l, token_end(l, i))
    }
}

/// Whether every character of `d` is an ASCII digit.
pub open spec fn all_digits(d: Seq<char>) -> bool {
    forall|k: int| 0 <= k < d.len() ==> '0' <= #[trigger] d[k] <= '9'
}

/// The number that a string of decimal digits denotes.
pub open spec fn decimal_value(d: Seq<char>) -> nat
    decreases d.len(),
{
    if d.len() == 0 {
        0
    } else {
        decimal_value(d.drop_last()) * 10 + ((d.last() as u32) - ('0' as u32)) as nat
    }
}

/// `str::parse::<u32>`: an optional `+`, then at least one decimal digit and
/// nothing else, denoting a number that fits in 32 bits.
pub open spec fn parse_u32(t: Seq<char>) -> Option<u32> {
    let d = if t.len() > 0 && t[0] == '+' {
        t.drop_first()
    } else {
        t
    };
    if d.len() == 0 || !all_digits(d) || decimal_value(d) > u32::MAX {
        None
    } else {
        Some(decimal_value(d) as u32)
    }
}

/// The atlas position recorded for `id`: the second and third words of the
/// first line that begins with `id`.
pub open spec fn spec_atlas_pos(atlas: Seq<char>, id: Seq<char>) -> Option<(u32, u32)> {
    match first_line_with_prefix(atlas, 0, id) {
        None => None,
        Some(line) => {
            let words = words_from(line, 0);
            if words.len() < 3 {
                None
            } else {
                match (parse_u32(words[1]), parse_u32(words[2])) {
                    (Some(x), Some(y)) => Some((x, y)),
                    _ => None,
                }
            }
        },
    }
}

/// The atlas layout recorded on the first line of the index: the icon size,
/// then the number of icon columns and rows.  The result is the icon size and
/// the atlas width and height in pixels (columns and rows times the icon
/// size); `None` when the index is empty, the first line has fewer than three
/// words, one of them is not a `u32`, or a product does not fit in a `u32`.
pub open spec fn spec_atlas_metadata(atlas: Seq<char>) -> Option<(u32, u32, u32)> {
    if atlas.len() == 0 {
        None
    } else {
        let words = words_from(line_at(atlas, 0), 0);
        if words.len() < 3 {
            None
        } else {
            match (parse_u32(words[0]), parse_u32(words[1]), parse_u32(words[2])) {
                (Some(size), Some(cols), Some(rows)) => {
                    if cols * size <= u32::MAX && rows * size <= u32::MAX {
                        Some((size, (cols * size) as u32, (rows * size) as u32))
                    } else {
                        None
                    }
                },
                _ => None,
            }
        }
    }
}

proof fn lemma_decimal_step(d: Seq<char>, k: int)
    requires
        0 <= k < d.len(),
    ensures
        decimal_value(d.subrange(0, k + 1)) == decimal_value(d.subrange(0, k)) * 10 + ((d[k] as u32)
            - ('0' as u32)) as nat,
{
    assert(d.subrange(0, k + 1).drop_last() =~= d.subrange(0, k));
}

proof fn lemma_decimal_grows(d: Seq<char>, k: int, j: int)
    requires
        0 <= k <= j <= d.len(),
        all_digits(d),
    ensures
        decimal_value(d.subrange(0, k)) <= decimal_value(d.subrange(0, j)),
    decreases j - k,
{
    if k < j {
        lemma_decimal_grows(d, k, j - 1);
        lemma_decimal_step(d, j - 1);
    }
}

proof fn lemma_digits_extend(d: Seq<char>, n: int)
    requires
        0 <= n < d.len(),
        all_digits(d.subrange(0, n)),
        '0' <= d[n] <= '9',
    ensures
        all_digits(d.subrange(0, n + 1)),
{
    assert forall|k: int| 0 <= k < n + 1 implies '0' <= #[trigger] d.subrange(0, n + 1)[k] <= '9' by {
        if k < n {
            assert(d.subrange(0, n + 1)[k] == d.subrange(0, n)[k]);
        }
    }
}

/// Parses `l[a..b]` as `str::parse::<u32>` does.
fn parse_u32_range(l: &Vec<char>, a: usize, b: usize) -> (r: Option<u32>)
    requires
        a <= b <= l@.len(),
    ensures
        r == parse_u32(l@.subrange(a as int, b as int)),
{
    let ghost t = l@.subrange(a as int, b as int);
    let mut start = a;
    if a < b && l[a] == '+' {
        start = a + 1;
    }
    let ghost d = l@.subrange(start as int, b as int);
    assert(d =~= (if t.len() > 0 && t[0] == '+' {
        t.drop_first()
    } else {
        t
    }));
    if start == b {
        return None;
    }
    let mut value: u64 = 0;
    let mut i = start;
    while i < b
        invariant
            start <= i <= b <= l@.len(),
            d == l@.subrange(start as int, b as int),
            t == l@.subrange(a as int, b as int),
            d == (if t.len() > 0 && t[0] == '+' {
                t.drop_first()
            } else {
                t
            }),
            d.len() > 0,
            all_digits(d.subrange(0, i - start)),
            value == decimal_value(d.subrange(0, i - start)),
            value <= u32::MAX,
        decreases b - i,
    {
        let c = l[i];
        if !('0' <= c && c <= '9') {
            assert(d[i - start] == c);
            assert(!all_digits(d));
            return None;
        }
        let digit = (c as u32 - '0' as u32) as u64;
        proof {
            lemma_decimal_step(d, i - start);
            assert(d[i - start] == c);
        }
        value = value * 10 + digit;
        assert(d.subrange(0, i + 1 - start) =~= d.subrange(0, i - start).push(c));
        if value > u32::MAX as u64 {
            proof {
                lemma_digits_extend(d, i - start);
                assert(value == decimal_value(d.subrange(0, i + 1 - start)));
                if all_digits(d) {
                    lemma_decimal_grows(d, i + 1 - start, d.len() as int);
                    assert(d.subrange(0, d.len() as int) =~= d);
                    assert(decimal_value(d) > u32::MAX);
                }
            }
            return None;
        }
        proof {
            lemma_digits_extend(d, i - start);
        }
        i = i + 1;
    }
    assert(d.subrange(0, b - start) =~= d);
    Some(value as u32)
}

proof fn lemma_words_skip_space(l: Seq<char>, i: int, p: int)
    requires
        0 <= i <= p <= l.len(),
        forall|k: int| i <= k < p ==> is_whitespace(#[trigger] l[k]),
    ensures
        words_from(l, i) == words_from(l, p),
    decreases p - i,
{
    if i < p {
        lemma_words_skip_space(l, i + 1, p);
    }
}

proof fn lemma_token_end_at(l: Seq<char>, p: int, e: int)
    requires
        0 <= p <= e <= l.len(),
        forall|k: int| p <= k < e ==> !is_whitespace(#[trigger] l[k]),
        e < l.len() ==> is_whitespace(l[e]),
    ensures
        token_end(l, p) == e,
    decreases e - p,
{
    if p < e {
        lemma_token_end_at(l, p + 1, e);
    }
}

/// The next word of `l` at or after `i`: its start and end, or `None` when only
/// whitespace is left.
fn next_word(l: &Vec<char>, i: usize) -> (r: Option<(usize, usize)>)
    requires
        i <= l@.len(),
    ensures
        r is None ==> words_from(l@, i as int).len() == 0,
        r matches Some((p, e)) ==> i <= p < e <= l@.len() && words_from(l@, i as int) == seq![
            l@.subrange(p as int, e as int),
        ] + words_from(l@, e as int),
{
    let mut p = i;
    while p < l.len() && char_is_whitespace(l[p])
        invariant
            i <= p <= l@.len(),
            forall|k: int| i <= k < p ==> is_whitespace(#[trigger] l@[k]),
        decreases l@.len() - p,
    {
        p = p + 1;
    }
    proof {
        lemma_words_skip_space(l@, i as int, p as int);
    }
    if p == l.len() {
        return None;
    }
    let mut e = p;
    while e < l.len() && !char_is_whitespace(l[e])
        invariant
            p <= e <= l@.len(),
            forall|k: int| p <= k < e ==> !is_whitespace(#[trigger] l@[k]),
        decreases l@.len() - e,
    {
        e = e + 1;
    }
    proof {
        lemma_token_end_at(l@, p as int, e as int);
        assert(!is_whitespace(l@[p as int]));
    }
    Some((p, e))
}

/// The position recorded on one line of the index.
fn parse_atlas_line(l: &Vec<char>) -> (r: Option<(u32, u32)>)
    ensures
        r == (if words_from(l@, 0).len() < 3 {
            None
        } else {
            match (parse_u32(words_from(l@, 0)[1]), parse_u32(words_from(l@, 0)[2])) {
                (Some(x), Some(y)) => Some((x, y)),
                _ => None,
            }
        }),
{
    let (_p1, e1) = match next_word(l, 0) {
        None => return None,
        Some(w) => w,
    };
    let (p2, e2) = match next_word(l, e1) {
        None => return None,
        Some(w) => w,
    };
    let (p3, e3) = match next_word(l, e2) {
        None => return None,
        Some(w) => w,
    };
    let ghost words = words_from(l@, 0);
    assert(words[1] == l@.subrange(p2 as int, e2 as int));
    assert(words[2] == l@.subrange(p3 as int, e3 as int));
    let x = parse_u32_range(l, p2, e2);
    let y = parse_u32_range(l, p3, e3);
    match (x, y) {
        (Some(x), Some(y)) => Some((x, y)),
        _ => None,
    }
}

/// The line of `s` that starts at `start`, without its line ending, and the
/// position of the `'\n'` that ends it (or the length of `s`).
fn line_from(s: &Vec<char>, start: usize) -> (r: (Vec<char>, usize))
    requires
        start <= s@.len(),
    ensures
        r.0@ == line_at(s@, start as int),
        r.1 == line_end(s@, start as int),
        start <= r.1 <= s@.len(),
{
    let n = s.len();
    let mut end = start;
    while end < n && s[end] != '\n'
        invariant
            start <= end <= n,
            n == s@.len(),
            forall|k: int| start <= k < end ==> #[trigger] s@[k] != '\n',
        decreases n - end,
    {
        end = end + 1;
    }
    proof {
        lemma_line_end_at(s@, start as int, end as int);
    }
    let mut content_end = end;
    if end < n && end > start && s[end - 1] == '\r' {
        content_end = end - 1;
    }
    let mut line: Vec<char> = Vec::new();
    let mut k = start;
    while k < content_end
        invariant
            start <= k <= content_end <= end <= n,
            n == s@.len(),
            line@ == s@.subrange(start as int, k as int),
        decreases content_end - k,
    {
        line.push(s[k]);
        k = k + 1;
    }
    proof {
        assert(line@ =~= line_at(s@, start as int));
    }
    (line, end)
}

/// Looks up the atlas position of the icon `id`: the second and third words
/// of the first line of `atlas` that begins with `id`, or `None` when there is
/// no such line or its words are not two positions.
pub fn find_icon_atlas_pos(atlas: &str, id: &str) -> (r: Option<(u32, u32)>)
    ensures
        r == spec_atlas_pos(atlas@, id@),
{
    let s = str_chars(atlas);
    let idc = str_chars(id);
    let n = s.len();
    let mut start: usize = 0;
    while start < n
        invariant
            n == s@.len(),
            s@ == atlas@,
            idc@ == id@,
            first_line_with_prefix(s@, 0, idc@) == first_line_with_prefix(s@, start as int, idc@),
        decreases n - start,
    {
        let (line, end) = line_from(&s, start);
        let mut is_prefix = idc.len() <= line.len();
        let mut j: usize = 0;
        while is_prefix && j < idc.len()
            invariant
                is_prefix ==> idc@.len() <= line@.len(),
                j <= idc@.len(),
                is_prefix ==> forall|q: int| 0 <= q < j ==> #[trigger] idc@[q] == line@[q],
                !is_prefix ==> !idc@.is_prefix_of(line@),
            decreases idc@.len() - j,
        {
            if idc[j] != line[j] {
                is_prefix = false;
            }
            j = j + 1;
        }
        if is_prefix {
            assert(idc@ =~= line@.subrange(0, idc@.len() as int));
            return parse_atlas_line(&line);
        }
        if end == n {
            assert(first_line_with_prefix(s@, n + 1, idc@) is None);
            return None;
        }
        start = end + 1;
    }
    None
}

/// The atlas position of the icon `id` (see `find_icon_atlas_pos`), for an
/// index that records it.
pub fn get_icon_atlas_pos(atlas: &str, id: &str) -> (r: (u32, u32))
    requires
        spec_atlas_pos(atlas@, id@) is Some,
    ensures
        r == spec_atlas_pos(atlas@, id@).unwrap(),
{
    match find_icon_atlas_pos(atlas, id) {
        Some(pos) => pos,
        None => (0, 0),
    }
}

/// Reads the atlas layout from the first line of the index (see
/// `spec_atlas_metadata`): the icon size and the atlas width and height.
pub fn parse_atlas_metadata(atlas: &str) -> (r: Option<(u32, u32, u32)>)
    ensures
        r == spec_atlas_metadata(atlas@),
{
    let s = str_chars(atlas);
    if s.len() == 0 {
        return None;
    }
    let (line, _end) = line_from(&s, 0);
    let (p1, e1) = match next_word(&line, 0) {
        None => return None,
        Some(w) => w,
    };
    let (p2, e2) = match next_word(&line, e1) {
        None => return None,
        Some(w) => w,
    };
    let (p3, e3) = match next_word(&line, e2) {
        None => return None,
        Some(w) => w,
    };
    let ghost words = words_from(line@, 0);
    assert(words[0] == line@.subrange(p1 as int, e1 as int));
    assert(words[1] == line@.subrange(p2 as int, e2 as int));
    assert(words[2] == line@.subrange(p3 as int, e3 as int));
    let size = parse_u32_range(&line, p1, e1);
    let cols = parse_u32_range(&line, p2, e2);
    let rows = parse_u32_range(&line, p3, e3);
    match (size, cols, rows) {
        (Some(size), Some(cols), Some(rows)) => {
            match (cols.checked_mul(size), rows.checked_mul(size)) {
                (Some(w), Some(h)) => Some((size, w, h)),
                _ => None,
            }
        },
        _ => None,
    }
}

} // verus!
