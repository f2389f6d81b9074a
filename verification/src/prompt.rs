//! Rendering of the prompt question line: the immutable text shown once at
//! the top of an interaction, wrapped to a fixed maximum width by greedily
//! packing whitespace-delimited words, never splitting a word.

use vstd::prelude::*;
use vstd::string::StringExecFns;

pub mod options;
pub mod slider;
pub mod text;

use crate::render;
use crate::render::ColorRole;

verus! {

broadcast use vstd::string::group_string_axioms;

/// The most characters greedily packed onto one question line.
pub const MAX_LINE_WIDTH: usize = 50;

/// Whitespace for the purpose of splitting the question into words: the
/// Unicode white-space characters, written out as code points.
pub open spec fn is_space(c: char) -> bool {
    let n = c as int;
    (0x9 <= n && n <= 0xd) || n == 0x20 || n == 0x85 || n == 0xa0 || n == 0x1680 || (0x2000 <= n
        && n <= 0x200a) || n == 0x2028 || n == 0x2029 || n == 0x202f || n == 0x205f || n == 0x3000
}

fn is_space_char(c: char) -> (r: bool)
    ensures
        r == is_space(c),
{
    let n = c as u32;
    (0x9 <= n && n <= 0xd) || n == 0x20 || n == 0x85 || n == 0xa0 || n == 0x1680 || (0x2000 <= n
        && n <= 0x200a) || n == 0x2028 || n == 0x2029 || n == 0x202f || n == 0x205f || n == 0x3000
}

/// One character of the splitting pass: whitespace closes the word under
/// construction, if any; anything else extends it.
pub open spec fn split_step(words: Seq<Seq<char>>, cur: Seq<char>, c: char) -> (
    Seq<Seq<char>>,
    Seq<char>,
) {
    if is_space(c) {
        if cur.len() == 0 {
            (words, cur)
        } else {
            (words.push(cur), Seq::empty())
        }
    } else {
        (words, cur.push(c))
    }
}

/// The splitting pass over the first `i` characters of `s`.
pub open spec fn split_fold(s: Seq<char>, i: int) -> (Seq<Seq<char>>, Seq<char>)
    decreases i,
{
    if i <= 0 {
        (Seq::empty(), Seq::empty())
    } else {
        let p = split_fold(s, i - 1);
        split_step(p.0, p.1, s[i - 1])
    }
}

/// The whitespace-delimited words of `s`, in order.
pub open spec fn words_of(s: Seq<char>) -> Seq<Seq<char>> {
    let p = split_fold(s, s.len() as int);
    if p.1.len() == 0 {
        p.0
    } else {
        p.0.push(p.1)
    }
}

/// One word of the packing pass: a word opens the line if none is under
/// construction, flushes the line first if joining would overflow the
/// width, and otherwise joins after a single space. A word longer than the
/// width therefore stands alone on its line, never split.
pub open spec fn pack_step(
    lines: Seq<Seq<char>>,
    cur: Seq<char>,
    w: Seq<char>,
    width: nat,
) -> (Seq<Seq<char>>, Seq<char>) {
    if cur.len() == 0 {
        (lines, w)
    } else if cur.len() + 1 + w.len() > width {
        (lines.push(cur), w)
    } else {
        (lines, cur.push(' ') + w)
    }
}

/// The packing pass over the first `i` words.
pub open spec fn pack_fold(ws: Seq<Seq<char>>, i: int, width: nat) -> (Seq<Seq<char>>, Seq<char>)
    decreases i,
{
    if i <= 0 {
        (Seq::empty(), Seq::empty())
    } else {
        let p = pack_fold(ws, i - 1, width);
        pack_step(p.0, p.1, ws[i - 1], width)
    }
}

/// All the words packed greedily into lines of at most `width` characters.
pub open spec fn packed_lines(ws: Seq<Seq<char>>, width: nat) -> Seq<Seq<char>> {
    let p = pack_fold(ws, ws.len() as int, width);
    if p.1.len() == 0 {
        p.0
    } else {
        p.0.push(p.1)
    }
}

/// The lines of the rendered question for input `s`.
pub open spec fn wrapped_lines(s: Seq<char>, width: nat) -> Seq<Seq<char>> {
    packed_lines(words_of(s), width)
}

/// The colored `>` and a space that precede the question.
pub open spec fn question_prefix() -> Seq<char> {
    render::segment(ColorRole::Separator, ">"@) + " "@
}

/// The colored `| ` that continues a wrapped question onto its next line.
pub open spec fn question_continuation() -> Seq<char> {
    render::segment(ColorRole::Separator, "| "@)
}

/// The first `i` lines laid out: every line ends in CRLF, and every line
/// but the first is introduced by the continuation glyph.
pub open spec fn lines_block(lines: Seq<Seq<char>>, i: int) -> Seq<char>
    decreases i,
{
    if i <= 0 {
        Seq::empty()
    } else if i == 1 {
        lines[0] + "\r\n"@
    } else {
        lines_block(lines, i - 1) + question_continuation() + lines[i - 1] + "\r\n"@
    }
}

/// The whole rendered question for input `s`.
pub open spec fn question_frame(s: Seq<char>) -> Seq<char> {
    let lines = wrapped_lines(s, MAX_LINE_WIDTH as nat);
    question_prefix() + lines_block(lines, lines.len() as int)
}

/// The characters of `s`, in order.
fn collect_chars(s: &str) -> (v: Vec<char>)
    ensures
        v@ == s@,
{
    let mut v: Vec<char> = Vec::new();
    for c in it: s.chars()
        invariant
            it.seq() == s@,
            v@ == it.seq().subrange(0, it.index() as int),
    {
        v.push(c);
        assert(v@ =~= it.seq().subrange(0, it.index() as int + 1));
    }
    assert(v@ =~= s@);
    v
}

/// Append every character of `src`.
fn push_all(dst: &mut Vec<char>, src: &Vec<char>)
    ensures
        final(dst)@ == old(dst)@ + src@,
{
    let mut i: usize = 0;
    assert(dst@ =~= old(dst)@ + src@.subrange(0, 0));
    while i < src.len()
        invariant
            i <= src.len(),
            dst@ == old(dst)@ + src@.subrange(0, i as int),
        decreases src.len() - i,
    {
        dst.push(src[i]);
        assert(dst@ =~= old(dst)@ + src@.subrange(0, i as int + 1));
        i = i + 1;
    }
    assert(dst@ =~= old(dst)@ + src@);
}

/// Append every character of `src` to the frame under construction.
fn push_chars(out: &mut String, src: &Vec<char>)
    ensures
        final(out)@ == old(out)@ + src@,
{
    let mut i: usize = 0;
    assert(out@ =~= old(out)@ + src@.subrange(0, 0));
    while i < src.len()
        invariant
            i <= src.len(),
            out@ == old(out)@ + src@.subrange(0, i as int),
        decreases src.len() - i,
    {
        out.push(src[i]);
        assert(out@ =~= old(out)@ + src@.subrange(0, i as int + 1));
        i = i + 1;
    }
    assert(out@ =~= old(out)@ + src@);
}

/// Split the question into its whitespace-delimited words.
fn split_words(chars: &Vec<char>) -> (words: Vec<Vec<char>>)
    ensures
        words.deep_view() == words_of(chars@),
{
    let ghost s = chars@;
    let mut words: Vec<Vec<char>> = Vec::new();
    let mut cur: Vec<char> = Vec::new();
    let mut i: usize = 0;
    assert((words.deep_view(), cur@) =~~= split_fold(s, 0));
    while i < chars.len()
        invariant
            i <= chars.len(),
            s == chars@,
            (words.deep_view(), cur@) == split_fold(s, i as int),
        decreases chars.len() - i,
    {
        let ghost prev_words = words.deep_view();
        let c = chars[i];
        if is_space_char(c) {
            if !cur.is_empty() {
                words.push(cur);
                cur = Vec::new();
                assert(words.deep_view() =~~= prev_words.push(words@[prev_words.len() as int]@));
            }
        } else {
            cur.push(c);
        }
        assert((words.deep_view(), cur@) =~~= split_fold(s, i as int + 1));
        i = i + 1;
    }
    if !cur.is_empty() {
        let ghost prev_words = words.deep_view();
        words.push(cur);
        assert(words.deep_view() =~~= prev_words.push(words@[prev_words.len() as int]@));
    }
    assert(words.deep_view() =~= words_of(s));
    words
}

/// Pack the words greedily into lines of at most the fixed width.
fn pack_lines(words: &Vec<Vec<char>>) -> (lines: Vec<Vec<char>>)
    ensures
        lines.deep_view() == packed_lines(words.deep_view(), MAX_LINE_WIDTH as nat),
{
    let ghost ws = words.deep_view();
    let mut lines: Vec<Vec<char>> = Vec::new();
    let mut cur: Vec<char> = Vec::new();
    let mut i: usize = 0;
    assert((lines.deep_view(), cur@) =~~= pack_fold(ws, 0, MAX_LINE_WIDTH as nat));
    while i < words.len()
        invariant
            i <= words.len(),
            ws == words.deep_view(),
            (lines.deep_view(), cur@) == pack_fold(ws, i as int, MAX_LINE_WIDTH as nat),
        decreases words.len() - i,
    {
        let ghost prev_lines = lines.deep_view();
        let w = &words[i];
        assert(w@ == ws[i as int]);
        if cur.is_empty() {
            push_all(&mut cur, w);
            assert(cur@ =~= ws[i as int]);
        } else {
            let overflows = if cur.len() >= MAX_LINE_WIDTH {
                true
            } else {
                w.len() > MAX_LINE_WIDTH - 1 - cur.len()
            };
            assert(overflows == (cur@.len() + 1 + w@.len() > MAX_LINE_WIDTH as nat));
            if overflows {
                lines.push(cur);
                assert(lines.deep_view() =~~= prev_lines.push(
                    lines@[prev_lines.len() as int]@,
                ));
                cur = Vec::new();
                push_all(&mut cur, w);
                assert(cur@ =~= ws[i as int]);
            } else {
                cur.push(' ');
                push_all(&mut cur, w);
            }
        }
        assert((lines.deep_view(), cur@) =~~= pack_fold(ws, i as int + 1, MAX_LINE_WIDTH as nat));
        i = i + 1;
    }
    if !cur.is_empty() {
        let ghost prev_lines = lines.deep_view();
        lines.push(cur);
        assert(lines.deep_view() =~~= prev_lines.push(lines@[prev_lines.len() as int]@));
    }
    assert(lines.deep_view() =~= packed_lines(ws, MAX_LINE_WIDTH as nat));
    lines
}

/// The rendered question for `input`: a colored `>` glyph, then the words
/// of the question packed onto lines of at most the fixed width, each
/// continuation line introduced by a colored `|` glyph.
pub fn prompt(input: &str) -> (r: String)
    ensures
        r@ == question_frame(input@),
{
    let chars = collect_chars(input);
    let words = split_words(&chars);
    let lines = pack_lines(&words);
    let ghost lv = lines.deep_view();

    let mut out = String::new();
    render::write_segment(&mut out, ColorRole::Separator, ">");
    out.append(" ");
    assert(out@ =~= question_prefix() + lines_block(lv, 0));
    let mut j: usize = 0;
    while j < lines.len()
        invariant
            j <= lines.len(),
            lv == lines.deep_view(),
            out@ == question_prefix() + lines_block(lv, j as int),
        decreases lines.len() - j,
    {
        if j > 0 {
            render::write_segment(&mut out, ColorRole::Separator, "| ");
        }
        push_chars(&mut out, &lines[j]);
        out.append("\r\n");
        assert(lines@[j as int]@ == lv[j as int]);
        assert(out@ =~= question_prefix() + lines_block(lv, j as int + 1));
        j = j + 1;
    }
    assert(out@ == question_frame(input@));
    out
}

} // verus!
