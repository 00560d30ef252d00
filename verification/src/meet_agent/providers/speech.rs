//! Making a reply fit to be read aloud.

use crate::text::{self, chars_of, lines, starts_with, string_of, trim};
use vstd::prelude::*;
use vstd::slice::slice_subrange;

verus! {

/// A character that marks a list item, a heading or a quotation where a line
/// begins with it.
pub open spec fn is_mark(c: char) -> bool {
    c == '-' || c == '*' || c == '#' || c == '>'
}

/// A character of markup that is never read aloud.
pub open spec fn is_silent(c: char) -> bool {
    c == '*' || c == '`' || c == '_' || c == '#'
}

/// `s` without the marks that it begins with.
pub open spec fn without_marks(s: Seq<char>) -> Seq<char>
    decreases s.len(),
{
    if s.len() > 0 && is_mark(s[0]) {
        without_marks(s.drop_first())
    } else {
        s
    }
}

/// `s` without its silent characters.
pub open spec fn pronounced(s: Seq<char>) -> Seq<char>
    decreases s.len(),
{
    if s.len() == 0 {
        s
    } else if is_silent(s.last()) {
        pronounced(s.drop_last())
    } else {
        pronounced(s.drop_last()).push(s.last())
    }
}

/// Whether a line opens or closes a block of code.
pub open spec fn is_fence(line: Seq<char>) -> bool {
    "```"@.is_prefix_of(text::trimmed(line))
}

/// What of a line outside of code is read aloud.
pub open spec fn spoken_line(line: Seq<char>) -> Seq<char> {
    pronounced(text::trimmed(without_marks(text::trimmed(line))))
}

/// Whether a block of code is open after some lines.
pub open spec fn code_open(lines: Seq<Seq<char>>) -> bool
    decreases lines.len(),
{
    if lines.len() == 0 {
        false
    } else if is_fence(lines.last()) {
        !code_open(lines.drop_last())
    } else {
        code_open(lines.drop_last())
    }
}

/// What is read aloud of some lines: those outside of code that are not empty
/// once cleaned.
pub open spec fn spoken_lines(lines: Seq<Seq<char>>) -> Seq<Seq<char>>
    decreases lines.len(),
{
    if lines.len() == 0 {
        Seq::empty()
    } else if is_fence(lines.last()) || code_open(lines.drop_last()) || spoken_line(
        lines.last(),
    ).len() == 0 {
        spoken_lines(lines.drop_last())
    } else {
        spoken_lines(lines.drop_last()).push(spoken_line(lines.last()))
    }
}

/// What is read aloud of a text: its spoken lines, joined by spaces.
pub open spec fn spoken(s: Seq<char>) -> Seq<char> {
    text::trimmed(text::joined(spoken_lines(text::lines_of(s)), " "@))
}

fn drop_marks(s: &[char]) -> (r: &[char])
    ensures
        r@ == without_marks(s@),
{
    let mut a: usize = 0;
    assert(s@.skip(0) =~= s@);
    while a < s.len() && (s[a] == '-' || s[a] == '*' || s[a] == '#' || s[a] == '>')
        invariant
            a <= s.len(),
            without_marks(s@) == without_marks(s@.skip(a as int)),
        decreases s.len() - a,
    {
        assert(s@.skip(a as int).drop_first() =~= s@.skip(a + 1));
        a = a + 1;
    }
    assert(s@.skip(a as int) =~= s@.subrange(a as int, s@.len() as int));
    slice_subrange(s, a, s.len())
}

fn drop_silent(s: &[char]) -> (r: Vec<char>)
    ensures
        r@ == pronounced(s@),
{
    let mut out: Vec<char> = Vec::new();
    let mut i: usize = 0;
    assert(s@.take(0) =~= Seq::empty());
    while i < s.len()
        invariant
            i <= s.len(),
            out@ == pronounced(s@.take(i as int)),
        decreases s.len() - i,
    {
        assert(s@.take(i + 1).drop_last() =~= s@.take(i as int));
        let c: char = s[i];
        if !(c == '*' || c == '`' || c == '_' || c == '#') {
            out.push(c);
        }
        i = i + 1;
    }
    assert(s@.take(s@.len() as int) =~= s@);
    out
}

proof fn lemma_joined_push(parts: Seq<Seq<char>>, part: Seq<char>, sep: Seq<char>)
    ensures
        text::joined(parts.push(part), sep) == if parts.len() == 0 {
            part
        } else {
            text::joined(parts, sep) + sep + part
        },
{
    assert(parts.push(part).drop_last() =~= parts);
}

proof fn lemma_joined_nonempty(parts: Seq<Seq<char>>, sep: Seq<char>)
    requires
        parts.len() > 0,
        forall|i: int| 0 <= i < parts.len() ==> (#[trigger] parts[i]).len() > 0,
    ensures
        text::joined(parts, sep).len() > 0,
{
    if parts.len() > 1 {
        assert(parts.last().len() > 0);
    }
}

proof fn lemma_spoken_lines_nonempty(lines: Seq<Seq<char>>)
    ensures
        forall|i: int|
            0 <= i < spoken_lines(lines).len() ==> (#[trigger] spoken_lines(lines)[i]).len() > 0,
    decreases lines.len(),
{
    if lines.len() > 0 {
        let before = spoken_lines(lines.drop_last());
        lemma_spoken_lines_nonempty(lines.drop_last());
        assert forall|i: int| 0 <= i < spoken_lines(lines).len() implies (
        #[trigger] spoken_lines(lines)[i]).len() > 0 by {
            if i < before.len() {
                assert(before[i].len() > 0);
            }
        }
    }
}

/// Takes out what sounds bad when it is read aloud: fenced code, leading marks
/// of lists, headings and quotations, and markup characters. The punctuation
/// that shapes the sound of a sentence stays.
pub fn strip_for_speech(text: &str) -> (r: String)
    ensures
        r@ == spoken(text@),
{
    let chars: Vec<char> = chars_of(text);
    let all: Vec<Vec<char>> = lines(chars.as_slice());
    let fence: Vec<char> = chars_of("```");
    let ghost ls = text::lines_of(text@);
    let mut out: Vec<char> = Vec::new();
    let mut in_code: bool = false;
    let mut i: usize = 0;
    assert(ls.take(0) =~= Seq::empty());
    assert(out@ =~= Seq::empty());
    while i < all.len()
        invariant
            i <= all@.len(),
            text::views(all@) == ls,
            fence@ == "```"@,
            in_code == code_open(ls.take(i as int)),
            out@ == text::joined(spoken_lines(ls.take(i as int)), " "@),
        decreases all@.len() - i,
    {
        let ghost before = ls.take(i as int);
        let ghost now = ls.take(i + 1);
        assert(now.drop_last() =~= before);
        assert(ls[i as int] == all@[i as int]@);
        let trimmed: &[char] = trim(all[i].as_slice());
        if starts_with(trimmed, fence.as_slice()) {
            in_code = !in_code;
        } else if !in_code {
            let cleaned: Vec<char> = drop_silent(trim(drop_marks(trimmed)));
            if cleaned.len() > 0 {
                proof {
                    lemma_joined_push(spoken_lines(before), cleaned@, " "@);
                    lemma_spoken_lines_nonempty(before);
                    if spoken_lines(before).len() > 0 {
                        lemma_joined_nonempty(spoken_lines(before), " "@);
                    }
                    reveal_strlit(" ");
                }
                let ghost out0 = out@;
                if out.len() > 0 {
                    out.push(' ');
                    assert(out@ =~= out0 + " "@);
                }
                let ghost out1 = out@;
                let mut k: usize = 0;
                while k < cleaned.len()
                    invariant
                        k <= cleaned@.len(),
                        out@ =~= out1 + cleaned@.take(k as int),
                    decreases cleaned@.len() - k,
                {
                    out.push(cleaned[k]);
                    k = k + 1;
                }
                assert(cleaned@.take(cleaned@.len() as int) =~= cleaned@);
                assert(out0.len() == 0 ==> out@ =~= cleaned@);
            }
        }
        i = i + 1;
    }
    assert(ls.take(ls.len() as int) =~= ls);
    string_of(trim(out.as_slice()))
}

// ---------------------------------------------------------------------------
// Laws
// ---------------------------------------------------------------------------

/// Neither markup that is never read aloud nor a line feed.
pub open spec fn is_clean(s: Seq<char>) -> bool {
    forall|i: int| 0 <= i < s.len() ==> !is_silent(#[trigger] s[i]) && s[i] != '\n'
}

/// No line feed.
pub open spec fn is_one_line(s: Seq<char>) -> bool {
    forall|i: int| 0 <= i < s.len() ==> #[trigger] s[i] != '\n'
}

proof fn lemma_lines_are_lines(s: Seq<char>)
    ensures
        text::lines_of(s).len() > 0,
        forall|i: int|
            0 <= i < text::lines_of(s).len() ==> is_one_line(#[trigger] text::lines_of(s)[i]),
    decreases s.len(),
{
    if s.len() > 0 {
        lemma_lines_are_lines(s.drop_last());
        let before = text::lines_of(s.drop_last());
        assert(is_one_line(before.last()));
        assert forall|i: int| 0 <= i < text::lines_of(s).len() implies is_one_line(
            #[trigger] text::lines_of(s)[i],
        ) by {
            if i < before.len() {
                assert(is_one_line(before[i]));
            }
        }
    }
}

proof fn lemma_without_marks_piece(s: Seq<char>)
    requires
        is_one_line(s),
    ensures
        is_one_line(without_marks(s)),
    decreases s.len(),
{
    if s.len() > 0 && is_mark(s[0]) {
        let t = s.drop_first();
        assert forall|i: int| 0 <= i < t.len() implies #[trigger] t[i] != '\n' by {
            assert(t[i] == s[i + 1]);
        }
        lemma_without_marks_piece(t);
    }
}

proof fn lemma_trimmed_one_line(s: Seq<char>)
    requires
        is_one_line(s),
    ensures
        is_one_line(text::trimmed(s)),
{
    let (a, b) = text::lemma_trimmed_piece(s);
}

proof fn lemma_pronounced_clean(s: Seq<char>)
    requires
        is_one_line(s),
    ensures
        is_clean(pronounced(s)),
    decreases s.len(),
{
    if s.len() > 0 {
        let t = s.drop_last();
        assert forall|i: int| 0 <= i < t.len() implies #[trigger] t[i] != '\n' by {
            assert(t[i] == s[i]);
        }
        lemma_pronounced_clean(t);
        assert(s.last() != '\n');
    }
}

proof fn lemma_spoken_lines_clean(lines: Seq<Seq<char>>)
    requires
        forall|i: int| 0 <= i < lines.len() ==> is_one_line(#[trigger] lines[i]),
    ensures
        forall|i: int|
            0 <= i < spoken_lines(lines).len() ==> is_clean(#[trigger] spoken_lines(lines)[i]),
    decreases lines.len(),
{
    if lines.len() > 0 {
        let t = lines.drop_last();
        assert forall|i: int| 0 <= i < t.len() implies is_one_line(#[trigger] t[i]) by {
            assert(t[i] == lines[i]);
        }
        lemma_spoken_lines_clean(t);
        assert(is_one_line(lines[lines.len() - 1]));
        lemma_trimmed_one_line(lines.last());
        lemma_without_marks_piece(text::trimmed(lines.last()));
        lemma_trimmed_one_line(without_marks(text::trimmed(lines.last())));
        lemma_pronounced_clean(text::trimmed(without_marks(text::trimmed(lines.last()))));
        assert forall|i: int| 0 <= i < spoken_lines(lines).len() implies is_clean(
            #[trigger] spoken_lines(lines)[i],
        ) by {
            if i < spoken_lines(t).len() {
                assert(is_clean(spoken_lines(t)[i]));
            }
        }
    }
}

proof fn lemma_joined_clean(parts: Seq<Seq<char>>)
    requires
        forall|i: int| 0 <= i < parts.len() ==> is_clean(#[trigger] parts[i]),
    ensures
        is_clean(text::joined(parts, " "@)),
    decreases parts.len(),
{
    if parts.len() == 1 {
        assert(is_clean(parts[0]));
    } else if parts.len() > 1 {
        let t = parts.drop_last();
        assert forall|i: int| 0 <= i < t.len() implies is_clean(#[trigger] t[i]) by {
            assert(t[i] == parts[i]);
        }
        lemma_joined_clean(t);
        assert(is_clean(parts[parts.len() - 1]));
        reveal_strlit(" ");
    }
}

/// What is read aloud never holds an asterisk, a backtick, an underscore or a
/// number sign, and is always a single line.
pub proof fn law_speech_is_clean(s: Seq<char>)
    ensures
        is_clean(spoken(s)),
{
    lemma_lines_are_lines(s);
    lemma_spoken_lines_clean(text::lines_of(s));
    let j = text::joined(spoken_lines(text::lines_of(s)), " "@);
    lemma_joined_clean(spoken_lines(text::lines_of(s)));
    let (a, b) = text::lemma_trimmed_piece(j);
}

proof fn lemma_one_line(s: Seq<char>)
    requires
        is_one_line(s),
    ensures
        text::lines_of(s) == seq![s],
    decreases s.len(),
{
    if s.len() == 0 {
        assert(s =~= Seq::empty());
    } else {
        let t = s.drop_last();
        assert forall|i: int| 0 <= i < t.len() implies #[trigger] t[i] != '\n' by {
            assert(t[i] == s[i]);
        }
        lemma_one_line(t);
        assert(s[s.len() - 1] != '\n');
        assert(t.push(s.last()) =~= s);
        assert(seq![t].drop_last() =~= Seq::empty());
        assert(text::lines_of(s) =~= seq![s]);
    }
}

proof fn lemma_pronounced_all(s: Seq<char>)
    requires
        is_clean(s),
    ensures
        pronounced(s) == s,
    decreases s.len(),
{
    if s.len() > 0 {
        let t = s.drop_last();
        assert forall|i: int| 0 <= i < t.len() implies !is_silent(#[trigger] t[i]) && t[i]
            != '\n' by {
            assert(t[i] == s[i]);
        }
        lemma_pronounced_all(t);
        assert(!is_silent(s[s.len() - 1]));
        assert(t.push(s.last()) =~= s);
    }
}

/// A single line without markup, which begins with no mark and has no white
/// space at its ends, is read aloud as it is.
pub proof fn law_plain_text_is_kept(s: Seq<char>)
    requires
        is_clean(s),
        text::trimmed(s) == s,
        s.len() > 0 ==> !is_mark(s[0]),
    ensures
        spoken(s) == s,
{
    lemma_one_line(s);
    lemma_pronounced_all(s);
    let one = seq![s];
    assert(one.drop_last() =~= Seq::empty());
    reveal_with_fuel(spoken_lines, 2);
    reveal_with_fuel(code_open, 2);
    reveal_strlit("```");
    if is_fence(s) {
        assert(s[0] == "```"@[0]);
        assert(is_silent(s[0]));
    }
    if s.len() == 0 {
        assert(s =~= Seq::empty());
        assert(spoken_lines(one) =~= Seq::empty());
    } else {
        assert(spoken_lines(one) =~= one);
    }
}

proof fn lemma_lines_of_both(a: Seq<char>, b: Seq<char>)
    ensures
        text::lines_of(a.push('\n') + b) == text::lines_of(a) + text::lines_of(b),
    decreases b.len(),
{
    let s = a.push('\n') + b;
    let la = text::lines_of(a);
    if b.len() == 0 {
        assert(s =~= a.push('\n'));
        assert(s.drop_last() =~= a);
        assert(text::lines_of(s) =~= la + text::lines_of(b));
    } else {
        let c = b.drop_last();
        let lc = text::lines_of(c);
        lemma_lines_of_both(a, c);
        lemma_lines_are_lines(c);
        assert(s.drop_last() =~= a.push('\n') + c);
        assert(s.last() == b.last());
        assert((la + lc).last() == lc.last());
        assert((la + lc).drop_last() =~= la + lc.drop_last());
        assert(text::lines_of(s) =~= la + text::lines_of(b));
    }
}

proof fn lemma_spoken_lines_of_both(first: Seq<Seq<char>>, second: Seq<Seq<char>>)
    requires
        !code_open(first),
    ensures
        code_open(first + second) == code_open(second),
        spoken_lines(first + second) == spoken_lines(first) + spoken_lines(second),
    decreases second.len(),
{
    let both = first + second;
    if second.len() == 0 {
        assert(both =~= first);
        assert(spoken_lines(first) + spoken_lines(second) =~= spoken_lines(first));
    } else {
        lemma_spoken_lines_of_both(first, second.drop_last());
        assert(both.drop_last() =~= first + second.drop_last());
        assert(both.last() == second.last());
        assert(spoken_lines(both) =~= spoken_lines(first) + spoken_lines(second));
    }
}

proof fn lemma_joined_both(first: Seq<Seq<char>>, second: Seq<Seq<char>>, sep: Seq<char>)
    requires
        first.len() > 0,
        second.len() > 0,
    ensures
        text::joined(first + second, sep) == text::joined(first, sep) + sep + text::joined(
            second,
            sep,
        ),
    decreases second.len(),
{
    let both = first + second;
    let rest = second.drop_last();
    assert(both.drop_last() =~= first + rest);
    assert(both.last() == second.last());
    if second.len() == 1 {
        assert(first + rest =~= first);
    } else {
        lemma_joined_both(first, rest, sep);
        assert(text::joined(both, sep) =~= text::joined(first, sep) + sep + text::joined(
            second,
            sep,
        ));
    }
}

/// Where a line feed joins two texts, the first of which leaves no code open, the
/// lines that are read aloud are those of the first and then those of the second,
/// joined by spaces. Where one has none, the other is read aloud alone.
pub proof fn law_joined_texts_are_both_read(a: Seq<char>, b: Seq<char>)
    requires
        !code_open(text::lines_of(a)),
    ensures
        ({
            let first = spoken_lines(text::lines_of(a));
            let second = spoken_lines(text::lines_of(b));
            &&& spoken_lines(text::lines_of(a.push('\n') + b)) == first + second
            &&& first.len() == 0 ==> spoken(a.push('\n') + b) == spoken(b)
            &&& second.len() == 0 ==> spoken(a.push('\n') + b) == spoken(a)
            &&& first.len() > 0 && second.len() > 0 ==> spoken(a.push('\n') + b) == text::trimmed(
                text::joined(first, " "@) + " "@ + text::joined(second, " "@),
            )
        }),
{
    let first = spoken_lines(text::lines_of(a));
    let second = spoken_lines(text::lines_of(b));
    lemma_lines_of_both(a, b);
    lemma_spoken_lines_of_both(text::lines_of(a), text::lines_of(b));
    if first.len() == 0 {
        assert(first + second =~= second);
    } else if second.len() == 0 {
        assert(first + second =~= first);
    } else {
        lemma_joined_both(first, second, " "@);
    }
}

proof fn lemma_code_is_silent(first: Seq<Seq<char>>, code: Seq<Seq<char>>)
    requires
        code_open(first),
        forall|i: int| 0 <= i < code.len() ==> !is_fence(#[trigger] code[i]),
    ensures
        code_open(first + code),
        spoken_lines(first + code) == spoken_lines(first),
    decreases code.len(),
{
    let both = first + code;
    if code.len() == 0 {
        assert(both =~= first);
    } else {
        let t = code.drop_last();
        assert forall|i: int| 0 <= i < t.len() implies !is_fence(#[trigger] t[i]) by {
            assert(t[i] == code[i]);
        }
        lemma_code_is_silent(first, t);
        assert(!is_fence(code[code.len() - 1]));
        assert(both.drop_last() =~= first + t);
        assert(both.last() == code.last());
    }
}

/// Code that is never closed is never read aloud: of a text that leaves code open,
/// and lines after it that do not close it, just what came before is read.
pub proof fn law_open_code_is_silent(a: Seq<char>, code: Seq<char>)
    requires
        code_open(text::lines_of(a)),
        forall|i: int|
            0 <= i < text::lines_of(code).len() ==> !is_fence(#[trigger] text::lines_of(code)[i]),
    ensures
        spoken(a.push('\n') + code) == spoken(a),
{
    lemma_lines_of_both(a, code);
    lemma_code_is_silent(text::lines_of(a), text::lines_of(code));
}

/// A line whose first three characters that are not white space are backticks.
pub open spec fn begins_with_backticks(line: Seq<char>) -> bool {
    let t = text::trimmed(line);
    t.len() >= 3 && t[0] == '`' && t[1] == '`' && t[2] == '`'
}

proof fn lemma_backticks(line: Seq<char>)
    ensures
        is_fence(line) <==> begins_with_backticks(line),
{
    reveal_strlit("```");
    let t = text::trimmed(line);
    if begins_with_backticks(line) {
        assert("```"@ =~= t.subrange(0, 3));
    }
    if is_fence(line) {
        assert(t.subrange(0, 3)[0] == t[0]);
        assert(t.subrange(0, 3)[1] == t[1]);
        assert(t.subrange(0, 3)[2] == t[2]);
    }
}

proof fn lemma_pronounced_is_the_rest(s: Seq<char>)
    ensures
        pronounced(s) == s.filter(|c: char| c != '*' && c != '`' && c != '_' && c != '#'),
    decreases s.len(),
{
    reveal(Seq::filter);
    if s.len() > 0 {
        lemma_pronounced_is_the_rest(s.drop_last());
    }
}

proof fn lemma_marks_are_dropped(marks: Seq<char>, rest: Seq<char>)
    requires
        forall|i: int|
            0 <= i < marks.len() ==> #[trigger] marks[i] == '-' || marks[i] == '*' || marks[i] == '#'
                || marks[i] == '>',
        rest.len() > 0 ==> rest[0] != '-' && rest[0] != '*' && rest[0] != '#' && rest[0] != '>',
    ensures
        without_marks(marks + rest) == rest,
    decreases marks.len(),
{
    let s = marks + rest;
    if marks.len() == 0 {
        assert(s =~= rest);
    } else {
        assert(s[0] == marks[0]);
        let m = marks.drop_first();
        assert forall|i: int| 0 <= i < m.len() implies #[trigger] m[i] == '-' || m[i] == '*' || m[i]
            == '#' || m[i] == '>' by {
            assert(m[i] == marks[i + 1]);
        }
        lemma_marks_are_dropped(m, rest);
        assert(s.drop_first() =~= m + rest);
    }
}

/// Of a single line that is no fence of code, the hyphens, asterisks, number signs
/// and greater-than signs that it begins with are not read. Of what follows them,
/// just the asterisks, backticks, underscores and number signs are missing: every
/// other character is read, in its order.
pub proof fn law_line_loses_nothing_but_markup(line: Seq<char>, marks: Seq<char>, rest: Seq<char>)
    requires
        forall|i: int| 0 <= i < line.len() ==> #[trigger] line[i] != '\n',
        !begins_with_backticks(line),
        text::trimmed(line) == marks + rest,
        forall|i: int|
            0 <= i < marks.len() ==> #[trigger] marks[i] == '-' || marks[i] == '*' || marks[i] == '#'
                || marks[i] == '>',
        rest.len() > 0 ==> rest[0] != '-' && rest[0] != '*' && rest[0] != '#' && rest[0] != '>',
    ensures
        ({
            let kept = text::trimmed(rest).filter(
                |c: char| c != '*' && c != '`' && c != '_' && c != '#',
            );
            &&& spoken(line) == text::trimmed(kept)
            &&& spoken_lines(seq![line]) == if kept.len() == 0 {
                Seq::<Seq<char>>::empty()
            } else {
                seq![kept]
            }
        }),
{
    lemma_one_line(line);
    lemma_backticks(line);
    lemma_marks_are_dropped(marks, rest);
    lemma_pronounced_is_the_rest(text::trimmed(rest));
    let one = seq![line];
    assert(one.drop_last() =~= Seq::empty());
    reveal_with_fuel(spoken_lines, 2);
    reveal_with_fuel(code_open, 2);
    let kept = pronounced(text::trimmed(rest));
    if kept.len() == 0 {
        assert(spoken_lines(one) =~= Seq::empty());
        assert(kept =~= Seq::empty());
    } else {
        assert(spoken_lines(one) =~= seq![kept]);
    }
}

/// A line that holds no asterisk, backtick, underscore or number sign, and neither
/// begins with a hyphen or a greater-than sign nor has white space at its ends, is
/// read aloud as it is.
pub proof fn law_plain_line_is_read_unchanged(s: Seq<char>)
    requires
        forall|i: int|
            0 <= i < s.len() ==> #[trigger] s[i] != '*' && s[i] != '`' && s[i] != '_' && s[i] != '#'
                && s[i] != '\n',
        s.len() > 0 ==> s[0] != '-' && s[0] != '>' && !text::is_white(s[0]) && !text::is_white(
            s.last(),
        ),
    ensures
        spoken(s) == s,
{
    assert(is_clean(s));
    if s.len() > 0 {
        text::lemma_already_trimmed(s);
    } else {
        assert(s =~= Seq::empty());
        let (a, b) = text::lemma_trimmed_piece(s);
        assert(text::trimmed(s) =~= s);
    }
    law_plain_text_is_kept(s);
}

proof fn lemma_no_code(lines: Seq<Seq<char>>)
    requires
        forall|i: int| 0 <= i < lines.len() ==> !begins_with_backticks(#[trigger] lines[i]),
    ensures
        !code_open(lines),
        forall|i: int| 0 <= i < lines.len() ==> !is_fence(#[trigger] lines[i]),
    decreases lines.len(),
{
    assert forall|i: int| 0 <= i < lines.len() implies !is_fence(#[trigger] lines[i]) by {
        lemma_backticks(lines[i]);
    }
    if lines.len() > 0 {
        let t = lines.drop_last();
        assert forall|i: int| 0 <= i < t.len() implies !begins_with_backticks(#[trigger] t[i]) by {
            assert(t[i] == lines[i]);
        }
        lemma_no_code(t);
        assert(!is_fence(lines[lines.len() - 1]));
    }
}

/// Lines without fences are read one after the other, and none of them is lost: what
/// is read of two runs of lines, the first of which holds no fence, is what is read
/// of the first and then what is read of the second.
pub proof fn law_lines_are_read_in_order(first: Seq<Seq<char>>, second: Seq<Seq<char>>)
    requires
        forall|i: int| 0 <= i < first.len() ==> !begins_with_backticks(#[trigger] first[i]),
    ensures
        spoken_lines(first + second) == spoken_lines(first) + spoken_lines(second),
{
    lemma_no_code(first);
    lemma_spoken_lines_of_both(first, second);
}

/// Between a fence and the next one nothing is read aloud, nor are the fences; what
/// stands before and after is. Code that is not closed silences all that follows.
pub proof fn law_fenced_code_is_silent(
    before: Seq<Seq<char>>,
    fence: Seq<char>,
    code: Seq<Seq<char>>,
    close: Seq<char>,
    after: Seq<Seq<char>>,
)
    requires
        forall|i: int| 0 <= i < before.len() ==> !begins_with_backticks(#[trigger] before[i]),
        forall|i: int| 0 <= i < code.len() ==> !begins_with_backticks(#[trigger] code[i]),
        begins_with_backticks(fence),
        begins_with_backticks(close),
    ensures
        spoken_lines(before.push(fence) + code) == spoken_lines(before),
        spoken_lines((before.push(fence) + code).push(close) + after) == spoken_lines(before)
            + spoken_lines(after),
{
    lemma_no_code(before);
    lemma_no_code(code);
    lemma_backticks(fence);
    lemma_backticks(close);
    let a = before.push(fence);
    assert(a.drop_last() =~= before);
    lemma_code_is_silent(a, code);
    let b = (a + code).push(close);
    assert(b.drop_last() =~= a + code);
    lemma_spoken_lines_of_both(b, after);
}

/// What is read aloud of a text without a fence before its last line feed: what is
/// read of the text before that line feed, a space, and what is read of the line
/// after it; where one of the two is silent, the other alone.
pub proof fn law_line_feed_becomes_a_space(a: Seq<char>, b: Seq<char>)
    requires
        forall|i: int|
            0 <= i < text::lines_of(a).len() ==> !begins_with_backticks(
                #[trigger] text::lines_of(a)[i],
            ),
    ensures
        ({
            let first = spoken_lines(text::lines_of(a));
            let second = spoken_lines(text::lines_of(b));
            let both = spoken(a.push('\n') + b);
            &&& spoken(a) == text::trimmed(text::joined(first, seq![' ']))
            &&& first.len() == 0 ==> both == spoken(b)
            &&& second.len() == 0 ==> both == spoken(a)
            &&& first.len() > 0 && second.len() > 0 ==> both == text::trimmed(
                text::joined(first, seq![' ']).push(' ') + text::joined(second, seq![' ']),
            )
        }),
{
    lemma_no_code(text::lines_of(a));
    law_joined_texts_are_both_read(a, b);
    reveal_strlit(" ");
    assert(" "@ =~= seq![' ']);
    let j = text::joined(spoken_lines(text::lines_of(a)), " "@);
    assert(j + " "@ =~= j.push(' '));
}

/// What is read aloud of a text is what is read of its lines, with one space between
/// each two and none at the ends.
pub proof fn law_speech_is_its_lines(s: Seq<char>)
    ensures
        spoken(s) == text::trimmed(text::joined(spoken_lines(text::lines_of(s)), seq![' '])),
{
    reveal_strlit(" ");
    assert(" "@ =~= seq![' ']);
}

} // verus!
