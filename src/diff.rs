use vstd::prelude::*;
use vstd::utf8::{decode_utf8, valid_utf8};

verus! {

/// One line of a unified patch as the object store prints it: its origin tag
/// (`'+'`, `'-'`, `' '` for context, or another tag for file and hunk
/// headers) and its raw bytes, line terminator included.
#[derive(Debug)]
pub struct DiffLine {
    pub origin: char,
    pub content: Vec<u8>,
}

/// Added and removed line counts of a diff, with the condensed marker string
/// (one `+`, `-` or space per content line, in patch order).
#[derive(Debug)]
pub struct DiffStats {
    pub marker: String,
    pub added: usize,
    pub removed: usize,
}

/// The marker a content line contributes to the condensed diff string.
pub open spec fn marker_of(c: char) -> Seq<char> {
    if c == '+' || c == '-' || c == ' ' {
        seq![c]
    } else {
        Seq::empty()
    }
}

/// The condensed marker string of a sequence of patch lines.
pub open spec fn diff_marker(lines: Seq<DiffLine>) -> Seq<char>
    decreases lines.len(),
{
    if lines.len() == 0 {
        Seq::empty()
    } else {
        diff_marker(lines.drop_last()) + marker_of(lines.last().origin)
    }
}

/// How many of the lines carry the origin tag `c`.
pub open spec fn count_origin(lines: Seq<DiffLine>, c: char) -> nat
    decreases lines.len(),
{
    if lines.len() == 0 {
        0
    } else {
        count_origin(lines.drop_last(), c) + if lines.last().origin == c {
            1nat
        } else {
            0nat
        }
    }
}

proof fn lemma_count_origin_bound(lines: Seq<DiffLine>, c: char)
    ensures
        count_origin(lines, c) <= lines.len(),
    decreases lines.len(),
{
    if lines.len() > 0 {
        lemma_count_origin_bound(lines.drop_last(), c);
    }
}

/// Counts added and removed lines and builds the condensed marker string.
pub fn diff_info(lines: &Vec<DiffLine>) -> (r: DiffStats)
    ensures
        r.marker@ == diff_marker(lines@),
        r.added as nat == count_origin(lines@, '+'),
        r.removed as nat == count_origin(lines@, '-'),
{
    let mut marker = String::new();
    let mut added: usize = 0;
    let mut removed: usize = 0;
    let mut i: usize = 0;
    while i < lines.len()
        invariant
            i <= lines@.len(),
            marker@ == diff_marker(lines@.subrange(0, i as int)),
            added as nat == count_origin(lines@.subrange(0, i as int), '+'),
            removed as nat == count_origin(lines@.subrange(0, i as int), '-'),
        decreases lines.len() - i,
    {
        let c = lines[i].origin;
        proof {
            assert(lines@.subrange(0, i as int + 1).drop_last() =~= lines@.subrange(0, i as int));
            lemma_count_origin_bound(lines@.subrange(0, i as int + 1), '+');
            lemma_count_origin_bound(lines@.subrange(0, i as int + 1), '-');
            reveal_strlit("+");
            reveal_strlit("-");
            reveal_strlit(" ");
        }
        if c == '+' {
            marker.append("+");
            added = added + 1;
        } else if c == '-' {
            marker.append("-");
            removed = removed + 1;
        } else if c == ' ' {
            marker.append(" ");
        }
        i = i + 1;
    }
    assert(lines@.subrange(0, lines@.len() as int) =~= lines@);
    DiffStats { marker, added, removed }
}


/// Relies on `std::str::from_utf8`: it succeeds exactly on valid UTF-8, and
/// then yields the decoded characters.
#[verifier::external_body]
pub(crate) fn utf8_text(b: &Vec<u8>) -> (r: Option<String>)
    ensures
        r is Some == valid_utf8(b@),
        r matches Some(s) ==> s@ == decode_utf8(b@),
{
    std::str::from_utf8(b).ok().map(|s| s.to_owned())
}

/// Relies on `char`'s `ToString`: a string holding that one character.
#[verifier::external_body]
fn char_text(c: char) -> (r: String)
    ensures
        r@ == seq![c],
{
    c.to_string()
}

/// The text of a patch line, where it is UTF-8.
pub open spec fn line_text(l: DiffLine) -> Option<Seq<char>> {
    if valid_utf8(l.content@) {
        Some(decode_utf8(l.content@))
    } else {
        None
    }
}

/// Whether the origin tag marks a content line (added, removed or context).
pub open spec fn is_content_tag(origin: char) -> bool {
    origin == '+' || origin == '-' || origin == ' '
}

/// The tag a patch line shows in the decorated rendering: its own origin for
/// added and removed lines, a space for every other line.
pub open spec fn shown_tag(origin: char) -> char {
    if origin == '+' || origin == '-' {
        origin
    } else {
        ' '
    }
}

/// One line formatted: verbatim when `raw`, else behind the tag `c` and a
/// space.
pub open spec fn formatted_line(line: Seq<char>, c: char, raw: bool) -> Seq<char> {
    if raw {
        line
    } else {
        seq![c, ' '] + line
    }
}

/// One patch line as rendered. Raw, it is the patch text itself: a content
/// line behind its `+`, `-` or space marker, a header line as it is.
/// Decorated, every line is behind its shown tag and a space.
pub open spec fn patch_line(origin: char, text: Seq<char>, raw: bool) -> Seq<char> {
    if raw {
        if is_content_tag(origin) {
            seq![origin] + text
        } else {
            text
        }
    } else {
        formatted_line(text, shown_tag(origin), false)
    }
}

/// The whole patch as rendered, or `None` when a line is not UTF-8.
pub open spec fn patch_text(lines: Seq<DiffLine>, raw: bool) -> Option<Seq<char>>
    decreases lines.len(),
{
    if lines.len() == 0 {
        Some(Seq::empty())
    } else {
        match (patch_text(lines.drop_last(), raw), line_text(lines.last())) {
            (Some(p), Some(t)) => Some(p + patch_line(lines.last().origin, t, raw)),
            _ => None,
        }
    }
}

proof fn lemma_patch_text_fails_on(lines: Seq<DiffLine>, raw: bool, k: int, j: int)
    requires
        0 <= k <= j <= lines.len(),
        patch_text(lines.subrange(0, k), raw) is None,
    ensures
        patch_text(lines.subrange(0, j), raw) is None,
    decreases j - k,
{
    if j > k {
        lemma_patch_text_fails_on(lines, raw, k, j - 1);
        assert(lines.subrange(0, j).drop_last() =~= lines.subrange(0, j - 1));
    }
}

/// Renders one line: verbatim when `raw`, else prefixed by the tag `c` and
/// a space.
pub fn format_line(line: &str, c: char, raw: bool) -> (r: String)
    ensures
        r@ == formatted_line(line@, c, raw),
{
    if raw {
        return line.to_owned();
    }
    let mut r = char_text(c);
    r.append(" ");
    r.append(line);
    proof {
        reveal_strlit(" ");
    }
    assert(r@ =~= formatted_line(line@, c, raw));
    r
}

/// Renders a whole patch, line by line; `None` when a line is not UTF-8.
pub fn render_patch(lines: &Vec<DiffLine>, raw: bool) -> (r: Option<String>)
    ensures
        r is Some == patch_text(lines@, raw) is Some,
        r matches Some(s) ==> patch_text(lines@, raw) == Some(s@),
{
    let mut out = String::new();
    let mut i: usize = 0;
    while i < lines.len()
        invariant
            i <= lines@.len(),
            patch_text(lines@.subrange(0, i as int), raw) == Some(out@),
        decreases lines.len() - i,
    {
        let origin = lines[i].origin;
        proof {
            assert(lines@.subrange(0, i as int + 1).drop_last() =~= lines@.subrange(0, i as int));
        }
        match utf8_text(&lines[i].content) {
            Some(text) => {
                let piece = if !raw {
                    let c = if origin == '+' || origin == '-' {
                        origin
                    } else {
                        ' '
                    };
                    format_line(text.as_str(), c, false)
                } else if origin == '+' || origin == '-' || origin == ' ' {
                    let mut marked = char_text(origin);
                    marked.append(text.as_str());
                    marked
                } else {
                    text
                };
                assert(piece@ == patch_line(origin, text@, raw));
                out.append(piece.as_str());
            },
            None => {
                proof {
                    lemma_patch_text_fails_on(lines@, raw, i as int + 1, lines@.len() as int);
                    assert(lines@.subrange(0, lines@.len() as int) =~= lines@);
                }
                return None;
            },
        }
        i = i + 1;
    }
    assert(lines@.subrange(0, lines@.len() as int) =~= lines@);
    Some(out)
}

} // verus!
