//! Texts as sequences of characters: taking them apart, and writing numbers.

use vstd::prelude::*;

verus! {

/// `String::push`: appends one character.
pub assume_specification[ String::push ](s: &mut String, c: char)
    ensures
        final(s)@ == old(s)@.push(c),
;

/// The characters of a text.
pub fn chars_of(text: &str) -> (chars: Vec<char>)
    ensures
        chars@ == text@,
{
    let mut chars: Vec<char> = Vec::new();
    for c in it: text.chars()
        invariant
            it.seq() == text@,
            chars@ == it.seq().take(it.index()),
    {
        chars.push(c);
    }
    chars
}

/// The text of the characters from `from` up to `to`.
pub fn text_of(chars: &Vec<char>, from: usize, to: usize) -> (text: String)
    requires
        from <= to <= chars@.len(),
    ensures
        text@ == chars@.subrange(from as int, to as int),
{
    let mut text = String::new();
    let mut i: usize = from;
    while i < to
        invariant
            from <= i <= to <= chars@.len(),
            text@ == chars@.subrange(from as int, i as int),
        decreases to - i,
    {
        text.push(chars[i]);
        i = i + 1;
        assert(text@ =~= chars@.subrange(from as int, i as int));
    }
    text
}

/// Whether a character counts as white space in Unicode.
pub open spec fn is_white_space(c: char) -> bool {
    ||| '\u{9}' <= c <= '\u{d}'
    ||| c == ' '
    ||| c == '\u{85}'
    ||| c == '\u{a0}'
    ||| c == '\u{1680}'
    ||| '\u{2000}' <= c <= '\u{200a}'
    ||| c == '\u{2028}'
    ||| c == '\u{2029}'
    ||| c == '\u{202f}'
    ||| c == '\u{205f}'
    ||| c == '\u{3000}'
}

/// Whether a character counts as white space in Unicode.
pub fn white_space(c: char) -> (white: bool)
    ensures
        white == is_white_space(c),
{
    ('\u{9}' <= c && c <= '\u{d}') || c == ' ' || c == '\u{85}' || c == '\u{a0}' || c == '\u{1680}'
        || ('\u{2000}' <= c && c <= '\u{200a}') || c == '\u{2028}' || c == '\u{2029}' || c
        == '\u{202f}' || c == '\u{205f}' || c == '\u{3000}'
}

/// A text without the white space at its start.
pub open spec fn trim_start(text: Seq<char>) -> Seq<char>
    decreases text.len(),
{
    if text.len() > 0 && is_white_space(text[0]) {
        trim_start(text.drop_first())
    } else {
        text
    }
}

/// A text without the white space at its end.
pub open spec fn trim_end(text: Seq<char>) -> Seq<char>
    decreases text.len(),
{
    if text.len() > 0 && is_white_space(text.last()) {
        trim_end(text.drop_last())
    } else {
        text
    }
}

/// A text without the white space around it.
pub open spec fn trim(text: Seq<char>) -> Seq<char> {
    trim_end(trim_start(text))
}

/// Where the text between `from` and `to` starts and ends without the white space
/// around it.
pub fn trim_bounds(chars: &Vec<char>, from: usize, to: usize) -> (bounds: (usize, usize))
    requires
        from <= to <= chars@.len(),
    ensures
        from <= bounds.0 <= bounds.1 <= to,
        chars@.subrange(bounds.0 as int, bounds.1 as int) == trim(
            chars@.subrange(from as int, to as int),
        ),
{
    let ghost whole = chars@.subrange(from as int, to as int);
    let mut start: usize = from;
    while start < to && white_space(chars[start])
        invariant
            from <= start <= to <= chars@.len(),
            trim_start(chars@.subrange(start as int, to as int)) == trim_start(whole),
        decreases to - start,
    {
        assert(chars@.subrange(start as int, to as int).drop_first() =~= chars@.subrange(
            start + 1,
            to as int,
        ));
        start = start + 1;
    }
    let ghost headless = chars@.subrange(start as int, to as int);
    assert(trim_start(headless) == headless);
    let mut end: usize = to;
    while start < end && white_space(chars[end - 1])
        invariant
            start <= end <= to <= chars@.len(),
            trim_end(chars@.subrange(start as int, end as int)) == trim_end(headless),
        decreases end - start,
    {
        assert(chars@.subrange(start as int, end as int).drop_last() =~= chars@.subrange(
            start as int,
            end - 1,
        ));
        end = end - 1;
    }
    (start, end)
}

/// The lines of a text: what stands between its line feeds.
pub open spec fn lines(text: Seq<char>) -> Seq<Seq<char>>
    decreases text.len(),
{
    if text.len() == 0 {
        seq![Seq::empty()]
    } else {
        let before = lines(text.drop_last());
        if text.last() == '\n' {
            before.push(Seq::empty())
        } else {
            before.drop_last().push(before.last().push(text.last()))
        }
    }
}

/// Lines put together again, with a line feed between each two.
pub open spec fn join_lines(parts: Seq<Seq<char>>) -> Seq<char>
    decreases parts.len(),
{
    if parts.len() == 0 {
        Seq::empty()
    } else if parts.len() == 1 {
        parts[0]
    } else {
        join_lines(parts.drop_last()).push('\n') + parts.last()
    }
}

/// Taking a text apart into lines loses nothing, and no line holds a line feed.
pub proof fn law_lines_join(text: Seq<char>)
    ensures
        lines(text).len() > 0,
        join_lines(lines(text)) == text,
        forall|i: int| 0 <= i < lines(text).len() ==> !(#[trigger] lines(text)[i]).contains('\n'),
    decreases text.len(),
{
    if text.len() > 0 {
        let init = text.drop_last();
        let before = lines(init);
        law_lines_join(init);
        let all = lines(text);
        if text.last() == '\n' {
            assert(all.drop_last() =~= before);
            assert(join_lines(all) =~= join_lines(before).push('\n'));
            assert(text =~= init.push('\n'));
        } else {
            let c = text.last();
            assert(all.drop_last() =~= before.drop_last());
            assert(join_lines(all) =~= join_lines(before).push(c));
            assert(text =~= init.push(c));
            assert forall|i: int| 0 <= i < all.len() implies !(#[trigger] all[i]).contains('\n') by {
                if i == all.len() - 1 {
                    let line = before.last();
                    assert(!before[before.len() - 1].contains('\n'));
                    if all[i].contains('\n') {
                        let k = choose|k: int| 0 <= k < all[i].len() && all[i][k] == '\n';
                        assert(k < line.len());
                        assert(line[k] == '\n');
                    }
                } else {
                    assert(all[i] == before[i]);
                }
            }
        }
    }
}

/// A text without a line feed is one line.
pub proof fn lemma_single_line(text: Seq<char>)
    requires
        !text.contains('\n'),
    ensures
        lines(text) == seq![text],
    decreases text.len(),
{
    if text.len() > 0 {
        let init = text.drop_last();
        assert(text[text.len() - 1] != '\n');
        assert(!init.contains('\n')) by {
            if init.contains('\n') {
                let k = choose|k: int| 0 <= k < init.len() && init[k] == '\n';
                assert(text[k] == '\n');
            }
        }
        lemma_single_line(init);
        assert(init.push(text.last()) =~= text);
        assert(lines(text) =~= seq![text]);
    } else {
        assert(text =~= Seq::<char>::empty());
    }
}

/// A trimmed text neither starts nor ends with white space.
pub proof fn lemma_trim_ends(text: Seq<char>)
    ensures
        trim(text).len() > 0 ==> !is_white_space(trim(text)[0]) && !is_white_space(
            trim(text).last(),
        ),
{
    let head = trim_start(text);
    lemma_trim_start_head(text);
    lemma_trim_end_last(head);
}

proof fn lemma_trim_start_head(text: Seq<char>)
    ensures
        trim_start(text).len() > 0 ==> !is_white_space(trim_start(text)[0]),
    decreases text.len(),
{
    if text.len() > 0 && is_white_space(text[0]) {
        lemma_trim_start_head(text.drop_first());
    }
}

proof fn lemma_trim_end_last(text: Seq<char>)
    ensures
        trim_end(text).len() > 0 ==> !is_white_space(trim_end(text).last()) && trim_end(text)[0]
            == text[0],
    decreases text.len(),
{
    if text.len() > 0 && is_white_space(text.last()) {
        lemma_trim_end_last(text.drop_last());
    }
}

/// The digit of a value below ten.
pub open spec fn digit(value: nat) -> char {
    ('0' as int + value) as char
}

/// A number in decimal digits.
pub open spec fn decimal(value: nat) -> Seq<char>
    decreases value,
{
    if value < 10 {
        seq![digit(value)]
    } else {
        decimal(value / 10).push(digit(value % 10))
    }
}

/// A number in at least two decimal digits.
pub open spec fn decimal2(value: nat) -> Seq<char> {
    if value < 10 {
        seq!['0', digit(value)]
    } else {
        decimal(value)
    }
}

/// The number that decimal digits stand for.
pub open spec fn read_decimal(digits: Seq<char>) -> int
    decreases digits.len(),
{
    if digits.len() == 0 {
        0
    } else {
        read_decimal(digits.drop_last()) * 10 + (digits.last() as int - '0' as int)
    }
}

/// Written digits stand for the number that was written.
pub proof fn law_decimal_reads_back(value: nat)
    ensures
        read_decimal(decimal(value)) == value,
        read_decimal(decimal2(value)) == value,
        decimal2(value).len() >= 2,
    decreases value,
{
    reveal_with_fuel(read_decimal, 3);
    if value >= 10 {
        law_decimal_reads_back(value / 10);
        assert(decimal(value).drop_last() =~= decimal(value / 10));
    } else {
        assert(decimal(value).drop_last() =~= Seq::<char>::empty());
        assert(decimal2(value).drop_last() =~= seq!['0']);
        assert(seq!['0'].drop_last() =~= Seq::<char>::empty());
    }
    if value >= 10 {
        assert(decimal(value / 10).len() >= 1);
    }
}

fn digit_char(value: u64) -> (c: char)
    requires
        value < 10,
    ensures
        c == digit(value as nat),
{
    match value {
        0 => '0',
        1 => '1',
        2 => '2',
        3 => '3',
        4 => '4',
        5 => '5',
        6 => '6',
        7 => '7',
        8 => '8',
        _ => '9',
    }
}

/// Appends a number in decimal digits.
pub fn push_decimal(text: &mut String, value: u64)
    ensures
        final(text)@ == old(text)@ + decimal(value as nat),
    decreases value,
{
    if value >= 10 {
        push_decimal(text, value / 10);
    }
    text.push(digit_char(value % 10));
    assert(text@ =~= old(text)@ + decimal(value as nat));
}

/// Appends a number in at least two decimal digits.
pub fn push_decimal2(text: &mut String, value: u64)
    ensures
        final(text)@ == old(text)@ + decimal2(value as nat),
{
    if value < 10 {
        text.push('0');
        text.push(digit_char(value));
        assert(text@ =~= old(text)@ + decimal2(value as nat));
    } else {
        push_decimal(text, value);
    }
}

/// Whether a text starts with another one.
pub fn starts_with(text: &str, prefix: &str) -> (starts: bool)
    ensures
        starts == prefix@.is_prefix_of(text@),
{
    let whole = chars_of(text);
    let part = chars_of(prefix);
    if part.len() > whole.len() {
        return false;
    }
    let mut i: usize = 0;
    while i < part.len()
        invariant
            whole@ == text@,
            part@ == prefix@,
            i <= part@.len() <= whole@.len(),
            forall|j: int| 0 <= j < i ==> part@[j] == whole@[j],
        decreases part@.len() - i,
    {
        if part[i] != whole[i] {
            assert(prefix@[i as int] != text@.subrange(0, prefix@.len() as int)[i as int]);
            return false;
        }
        i = i + 1;
    }
    assert(text@.subrange(0, prefix@.len() as int) =~= prefix@);
    true
}

/// Whether `part` stands somewhere in `bytes`.
pub open spec fn holds_bytes(bytes: Seq<u8>, part: Seq<u8>) -> bool {
    exists|at: int|
        0 <= at && at + part.len() <= bytes.len() && #[trigger] bytes.subrange(
            at,
            at + part.len(),
        ) == part
}

/// Whether `part` stands somewhere in `bytes`.
pub fn find_bytes(bytes: &Vec<u8>, part: &[u8]) -> (found: bool)
    ensures
        found == holds_bytes(bytes@, part@),
{
    let total: usize = bytes.len();
    let len: usize = part.len();
    if len > total {
        return false;
    }
    let last: usize = total - len;
    let mut at: usize = 0;
    loop
        invariant
            total == bytes@.len(),
            len == part@.len(),
            last + len == total,
            at <= last,
            forall|k: int| 0 <= k < at ==> #[trigger] bytes@.subrange(k, k + len) != part@,
        decreases last - at,
    {
        let mut i: usize = 0;
        while i < len && bytes[at + i] == part[i]
            invariant
                i <= len,
                len == part@.len(),
                at + len <= total,
                total == bytes@.len(),
                forall|j: int| 0 <= j < i ==> bytes@[at + j] == part@[j],
            decreases len - i,
        {
            i = i + 1;
        }
        if i == len {
            assert(bytes@.subrange(at as int, at + len) =~= part@);
            return true;
        }
        assert(bytes@.subrange(at as int, at + len)[i as int] != part@[i as int]);
        if at == last {
            return false;
        }
        at = at + 1;
    }
}

/// White space is what Unicode counts as such, by its code points.
pub proof fn law_white_space(c: char)
    ensures
        is_white_space(c) <==> {
            let code = c as int;
            ||| 9 <= code <= 13
            ||| code == 32
            ||| code == 133
            ||| code == 160
            ||| code == 5760
            ||| 8192 <= code <= 8202
            ||| code == 8232
            ||| code == 8233
            ||| code == 8239
            ||| code == 8287
            ||| code == 12288
        },
{
}

/// Trimming takes white space off both ends and nothing else: what is left is a part of the
/// text, only white space stands before and behind it, and none at its own ends. Returns
/// where it starts and ends.
pub proof fn law_trim_takes_white_space_off(text: Seq<char>) -> (bounds: (int, int))
    ensures
        0 <= bounds.0 <= bounds.1 <= text.len(),
        trim(text) == text.subrange(bounds.0, bounds.1),
        forall|i: int| 0 <= i < bounds.0 ==> is_white_space(#[trigger] text[i]),
        forall|i: int| bounds.1 <= i < text.len() ==> is_white_space(#[trigger] text[i]),
        bounds.0 < bounds.1 ==> !is_white_space(text[bounds.0]) && !is_white_space(
            text[bounds.1 - 1],
        ),
{
    let from = lemma_trim_start_skips(text);
    let head = trim_start(text);
    let kept = lemma_trim_end_keeps(head);
    let to = from + kept;
    lemma_trim_ends(text);
    assert(trim(text) =~= text.subrange(from, to));
    assert forall|i: int| to <= i < text.len() implies is_white_space(#[trigger] text[i]) by {
        assert(head[i - from] == text[i]);
    }
    if from < to {
        assert(trim(text)[0] == text[from]);
        assert(trim(text).last() == text[to - 1]);
    }
    (from, to)
}

proof fn lemma_trim_start_skips(text: Seq<char>) -> (from: int)
    ensures
        0 <= from <= text.len(),
        trim_start(text) == text.skip(from),
        forall|i: int| 0 <= i < from ==> is_white_space(#[trigger] text[i]),
    decreases text.len(),
{
    if text.len() > 0 && is_white_space(text[0]) {
        let rest = text.drop_first();
        let more = lemma_trim_start_skips(rest);
        assert(rest.skip(more) =~= text.skip(more + 1));
        assert forall|i: int| 0 <= i < more + 1 implies is_white_space(#[trigger] text[i]) by {
            if i > 0 {
                assert(rest[i - 1] == text[i]);
            }
        }
        more + 1
    } else {
        assert(text.skip(0) =~= text);
        0
    }
}

proof fn lemma_trim_end_keeps(text: Seq<char>) -> (kept: int)
    ensures
        0 <= kept <= text.len(),
        trim_end(text) == text.take(kept),
        forall|i: int| kept <= i < text.len() ==> is_white_space(#[trigger] text[i]),
    decreases text.len(),
{
    if text.len() > 0 && is_white_space(text.last()) {
        let rest = text.drop_last();
        let kept = lemma_trim_end_keeps(rest);
        assert(rest.take(kept) =~= text.take(kept));
        assert forall|i: int| kept <= i < text.len() implies is_white_space(#[trigger] text[i]) by {
            if i < text.len() - 1 {
                assert(rest[i] == text[i]);
            }
        }
        kept
    } else {
        assert(text.take(text.len() as int) =~= text);
        text.len() as int
    }
}

/// A number is written in the ten digits, without needless zeros in front.
pub proof fn law_numbers_are_written_in_digits(value: nat, i: int)
    ensures
        decimal(value).len() > 0,
        0 <= i < decimal(value).len() ==> 48 <= decimal(value)[i] as int <= 57,
        0 <= i < decimal2(value).len() ==> 48 <= decimal2(value)[i] as int <= 57,
        decimal(value).len() > 1 ==> decimal(value)[0] as int != 48,
        decimal2(value).len() > 2 ==> decimal2(value)[0] as int != 48,
        value < 100 <==> decimal2(value).len() == 2,
    decreases value,
{
    if value >= 10 {
        let tens = value / 10;
        law_numbers_are_written_in_digits(tens, i);
        law_numbers_are_written_in_digits(tens, 0);
        assert(decimal(value)[0] == decimal(tens)[0]);
        if tens >= 10 {
            assert(decimal(tens) == decimal(tens / 10).push(digit(tens % 10)));
        }
    }
}

/// A part is found exactly where its bytes stand one after the other.
pub proof fn law_found_where_it_stands(bytes: Seq<u8>, part: Seq<u8>, at: int)
    requires
        0 <= at,
        at + part.len() <= bytes.len(),
        forall|i: int| 0 <= i < part.len() ==> bytes[at + i] == #[trigger] part[i],
    ensures
        holds_bytes(bytes, part),
{
    assert(bytes.subrange(at, at + part.len()) =~= part);
}

/// What is found stands there: returns where.
pub proof fn law_what_is_found_stands_there(bytes: Seq<u8>, part: Seq<u8>) -> (at: int)
    requires
        holds_bytes(bytes, part),
    ensures
        0 <= at,
        at + part.len() <= bytes.len(),
        forall|i: int| 0 <= i < part.len() ==> bytes[at + i] == #[trigger] part[i],
{
    let at = choose|at: int|
        0 <= at && at + part.len() <= bytes.len() && #[trigger] bytes.subrange(
            at,
            at + part.len(),
        ) == part;
    assert forall|i: int| 0 <= i < part.len() implies bytes[at + i] == #[trigger] part[i] by {
        assert(bytes.subrange(at, at + part.len())[i] == part[i]);
    }
    at
}

/// Lines of two texts with a line feed between them are the lines of both.
pub proof fn law_lines_add_up(first: Seq<char>, second: Seq<char>)
    ensures
        lines(first.push('\n') + second) == lines(first) + lines(second),
    decreases second.len(),
{
    let whole = first.push('\n') + second;
    law_lines_join(second);
    if second.len() == 0 {
        assert(whole =~= first.push('\n'));
        assert(first.push('\n').drop_last() =~= first);
        assert(lines(first).push(Seq::empty()) =~= lines(first) + lines(second));
    } else {
        let init = second.drop_last();
        law_lines_add_up(first, init);
        law_lines_join(init);
        assert(whole.drop_last() =~= first.push('\n') + init);
        assert(whole.last() == second.last());
        let before = lines(first) + lines(init);
        if second.last() == '\n' {
            assert(before.push(Seq::empty()) =~= lines(first) + lines(second));
        } else {
            assert(before.last() == lines(init).last());
            assert(before.drop_last().push(before.last().push(second.last())) =~= lines(first)
                + lines(second));
        }
    }
}

} // verus!
