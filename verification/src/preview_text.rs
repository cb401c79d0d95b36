//! The text of the OCR preview: tabs widened, blank results dropped, and
//! optionally a pilcrow shown at the end of every line.
use vstd::prelude::*;
use crate::text::{
    char_is_whitespace, chars_to_string, is_whitespace, lemma_line_end_at, lemma_line_end_bounds, line_at, line_end,
    str_chars,
};

verus! {

broadcast use vstd::string::group_string_axioms;

/// The pilcrow sign shown at line ends.
pub const PILCROW: char = '\u{b6}';

/// `s` with every tab replaced by two spaces.
pub open spec fn tab_expanded(s: Seq<char>) -> Seq<char>
    decreases s.len(),
{
    if s.len() == 0 {
        Seq::empty()
    } else {
        tab_expanded(s.drop_last()) + if s.last() == '\t' {
            seq![' ', ' ']
        } else {
            seq![s.last()]
        }
    }
}

/// Whether `s` holds nothing but whitespace (so that `trim` leaves nothing).
pub open spec fn is_blank(s: Seq<char>) -> bool {
    forall|i: int| 0 <= i < s.len() ==> is_whitespace(#[trigger] s[i])
}

/// The lines of `s` from position `start` on, as `str::lines` gives them.
pub open spec fn lines_from(s: Seq<char>, start: int) -> Seq<Seq<char>>
    decreases s.len() + 1 - start,
{
    if start < 0 || start >= s.len() {
        Seq::empty()
    } else {
        proof {
            lemma_line_end_bounds(s, start);
        }
        seq![line_at(s, start)] + lines_from(s, line_end(s, start) + 1)
    }
}

/// The lines of `s` (`str::lines`).
pub open spec fn text_lines(s: Seq<char>) -> Seq<Seq<char>> {
    lines_from(s, 0)
}

/// The pieces of `parts` with `sep` between each two (`join`).
pub open spec fn joined(parts: Seq<Seq<char>>, sep: Seq<char>) -> Seq<char>
    decreases parts.len(),
{
    if parts.len() == 0 {
        Seq::empty()
    } else if parts.len() == 1 {
        parts[0]
    } else {
        joined(parts.drop_last(), sep) + sep + parts.last()
    }
}

/// A line with ` ¶` appended.
pub open spec fn with_pilcrow(l: Seq<char>) -> Seq<char> {
    l + seq![' ', PILCROW]
}

/// The lines of `s`, each ending in ` ¶`, joined by newlines, with the very
/// last character (the last pilcrow) removed.
pub open spec fn with_pilcrows(s: Seq<char>) -> Seq<char> {
    joined(text_lines(s).map_values(|l: Seq<char>| with_pilcrow(l)), seq!['\n']).drop_last()
}

/// The preview text for an OCR result, or `None` when the result is blank.
pub open spec fn spec_preview_text(s: Seq<char>, add_pilcrow: bool) -> Option<Seq<char>> {
    let t = tab_expanded(s);
    if is_blank(t) {
        None
    } else if add_pilcrow {
        Some(with_pilcrows(t))
    } else {
        Some(t)
    }
}

/// The length of the longest of `lines`, or 0 when there are none.
pub open spec fn longest_line(lines: Seq<Seq<char>>) -> nat
    decreases lines.len(),
{
    if lines.len() == 0 {
        0
    } else if longest_line(lines.drop_last()) >= lines.last().len() {
        longest_line(lines.drop_last())
    } else {
        lines.last().len()
    }
}

/// The text to show in the preview, with the number of its lines and the
/// length of the longest one.
pub struct PreviewText {
    pub text: String,
    pub line_count: usize,
    pub max_line_characters: usize,
}

/// The views of a list of character vectors.
pub open spec fn views(v: Seq<Vec<char>>) -> Seq<Seq<char>> {
    v.map_values(|l: Vec<char>| l@)
}

fn expand_tabs(s: &Vec<char>) -> (r: Vec<char>)
    ensures
        r@ == tab_expanded(s@),
{
    let mut out: Vec<char> = Vec::new();
    let mut i: usize = 0;
    while i < s.len()
        invariant
            i <= s@.len(),
            out@ == tab_expanded(s@.subrange(0, i as int)),
        decreases s@.len() - i,
    {
        let ghost before = out@;
        if s[i] == '\t' {
            out.push(' ');
            out.push(' ');
        } else {
            out.push(s[i]);
        }
        let ghost prefix = s@.subrange(0, i + 1);
        assert(prefix.drop_last() =~= s@.subrange(0, i as int));
        assert(out@ =~= tab_expanded(prefix));
        i = i + 1;
    }
    assert(s@.subrange(0, s@.len() as int) =~= s@);
    out
}

fn blank(s: &Vec<char>) -> (r: bool)
    ensures
        r == is_blank(s@),
{
    let mut i: usize = 0;
    while i < s.len()
        invariant
            i <= s@.len(),
            forall|k: int| 0 <= k < i ==> is_whitespace(#[trigger] s@[k]),
        decreases s@.len() - i,
    {
        if !char_is_whitespace(s[i]) {
            assert(!is_whitespace(s@[i as int]));
            return false;
        }
        i = i + 1;
    }
    true
}

/// The lines of `s` (`str::lines`).
fn split_lines(s: &Vec<char>) -> (r: Vec<Vec<char>>)
    ensures
        views(r@) == text_lines(s@),
{
    let n = s.len();
    let mut lines: Vec<Vec<char>> = Vec::new();
    let mut start: usize = 0;
    while start < n
        invariant
            n == s@.len(),
            views(lines@) + lines_from(s@, start as int) == text_lines(s@),
        decreases n - start,
    {
        let mut end = start;
        while end < n && s[end] != '\n'
            invariant
                start <= end <= n,
                n == s@.len(),
                forall|k: int| start <= k < end ==> #[trigger] s@[k] != '\n',
            decreases n - end,
        {
            end = end + 1;
        }
        proof {
            lemma_line_end_at(s@, start as int, end as int);
        }
        let mut content_end = end;
        if end < n && end > start && s[end - 1] == '\r' {
            content_end = end - 1;
        }
        let mut line: Vec<char> = Vec::new();
        let mut k = start;
        while k < content_end
            invariant
                start <= k <= content_end <= end <= n,
                n == s@.len(),
                line@ == s@.subrange(start as int, k as int),
            decreases content_end - k,
        {
            line.push(s[k]);
            k = k + 1;
        }
        assert(line@ =~= line_at(s@, start as int));
        let ghost old_lines = views(lines@);
        lines.push(line);
        proof {
            assert(views(lines@) =~= old_lines.push(line_at(s@, start as int)));
            assert(lines_from(s@, start as int) == seq![line_at(s@, start as int)] + lines_from(
                s@,
                end + 1,
            ));
            assert(views(lines@) + lines_from(s@, end + 1) =~= old_lines + lines_from(
                s@,
                start as int,
            ));
        }
        if end == n {
            assert(lines_from(s@, n + 1) =~= Seq::<Seq<char>>::empty());
            assert(views(lines@) =~= text_lines(s@));
            return lines;
        }
        start = end + 1;
    }
    assert(lines_from(s@, start as int) =~= Seq::<Seq<char>>::empty());
    assert(views(lines@) =~= text_lines(s@));
    lines
}

/// The lines joined by newlines, each followed by ` ¶`.
fn join_with_pilcrows(lines: &Vec<Vec<char>>) -> (r: Vec<char>)
    ensures
        r@ == joined(views(lines@).map_values(|l: Seq<char>| with_pilcrow(l)), seq!['\n']),
{
    let ghost parts = views(lines@).map_values(|l: Seq<char>| with_pilcrow(l));
    let mut out: Vec<char> = Vec::new();
    let mut i: usize = 0;
    while i < lines.len()
        invariant
            i <= lines@.len(),
            parts == views(lines@).map_values(|l: Seq<char>| with_pilcrow(l)),
            out@ == joined(parts.subrange(0, i as int), seq!['\n']),
        decreases lines@.len() - i,
    {
        let ghost before = out@;
        if i > 0 {
            out.push('\n');
        }
        let line = &lines[i];
        let mut k: usize = 0;
        let ghost with_sep = out@;
        while k < line.len()
            invariant
                k <= line@.len(),
                out@ == with_sep + line@.subrange(0, k as int),
            decreases line@.len() - k,
        {
            out.push(line[k]);
            assert(line@.subrange(0, k + 1) =~= line@.subrange(0, k as int).push(line@[k as int]));
            k = k + 1;
        }
        out.push(' ');
        out.push(PILCROW);
        proof {
            assert(line@.subrange(0, line@.len() as int) =~= line@);
            assert(parts[i as int] == with_pilcrow(line@));
            let prefix = parts.subrange(0, i + 1);
            assert(prefix.drop_last() =~= parts.subrange(0, i as int));
            if i == 0 {
                assert(out@ =~= joined(prefix, seq!['\n']));
            } else {
                assert(out@ =~= joined(parts.subrange(0, i as int), seq!['\n']) + seq!['\n']
                    + with_pilcrow(line@));
            }
        }
        i = i + 1;
    }
    assert(parts.subrange(0, lines@.len() as int) =~= parts);
    out
}

/// The length of the longest line.
fn longest(lines: &Vec<Vec<char>>) -> (m: usize)
    ensures
        m == longest_line(views(lines@)),
{
    let mut m: usize = 0;
    let mut i: usize = 0;
    while i < lines.len()
        invariant
            i <= lines@.len(),
            m == longest_line(views(lines@).subrange(0, i as int)),
        decreases lines@.len() - i,
    {
        let len = lines[i].len();
        proof {
            let prefix = views(lines@).subrange(0, i + 1);
            assert(prefix.drop_last() =~= views(lines@).subrange(0, i as int));
            assert(prefix.last() == lines@[i as int]@);
        }
        if len > m {
            m = len;
        }
        i = i + 1;
    }
    assert(views(lines@).subrange(0, lines@.len() as int) =~= views(lines@));
    m
}

/// Prepares an OCR result for the preview: tabs become two spaces, a blank
/// result gives `None`, and with `add_pilcrow` every line ends in a pilcrow
/// (but the last, whose pilcrow is dropped).  Also counts the lines and the
/// characters of the longest one.
pub fn prepare_preview_text(text: &str, add_pilcrow: bool) -> (r: Option<PreviewText>)
    ensures
        r is None <==> spec_preview_text(text@, add_pilcrow) is None,
        r matches Some(p) ==> {
            &&& Some(p.text@) == spec_preview_text(text@, add_pilcrow)
            &&& p.line_count == text_lines(p.text@).len()
            &&& p.max_line_characters == longest_line(text_lines(p.text@))
        },
{
    let chars = str_chars(text);
    let expanded = expand_tabs(&chars);
    if blank(&expanded) {
        return None;
    }
    let mut shown = expanded;
    if add_pilcrow {
        let lines = split_lines(&shown);
        let mut joined_text = join_with_pilcrows(&lines);
        joined_text.pop();
        shown = joined_text;
    }
    let final_lines = split_lines(&shown);
    let max_line_characters = longest(&final_lines);
    proof {
        assert(final_lines@.len() == views(final_lines@).len());
    }
    Some(
        PreviewText {
            text: chars_to_string(&shown),
            line_count: final_lines.len(),
            max_line_characters,
        },
    )
}

} // verus!
