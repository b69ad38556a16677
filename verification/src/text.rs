//! Text: white space, decimal numbers, trimming and lines.

use vstd::prelude::*;

verus! {

/// Whether `c` is white space: a character with the Unicode property
/// `White_Space`.
pub open spec fn is_space(c: char) -> bool {
    let n = c as u32;
    ||| 0x09 <= n <= 0x0D
    ||| n == 0x20
    ||| n == 0x85
    ||| n == 0xA0
    ||| n == 0x1680
    ||| 0x2000 <= n <= 0x200A
    ||| n == 0x2028
    ||| n == 0x2029
    ||| n == 0x202F
    ||| n == 0x205F
    ||| n == 0x3000
}

/// Whether `c` is white space.
pub fn space(c: char) -> (b: bool)
    ensures
        b == is_space(c),
{
    let n: u32 = c as u32;
    (0x09 <= n && n <= 0x0D) || n == 0x20 || n == 0x85 || n == 0xA0 || n == 0x1680 || (0x2000 <= n
        && n <= 0x200A) || n == 0x2028 || n == 0x2029 || n == 0x202F || n == 0x205F || n == 0x3000
}

/// Whether `c` is one of the decimal digits `0` to `9`.
pub open spec fn is_digit(c: char) -> bool {
    0x30 <= c as u32 <= 0x39
}

/// The number that the digit `c` stands for.
pub open spec fn digit_value(c: char) -> nat {
    (c as u32 - 0x30) as nat
}

/// Whether `c` is one of the decimal digits `0` to `9`.
pub fn digit(c: char) -> (b: bool)
    ensures
        b == is_digit(c),
{
    let n: u32 = c as u32;
    0x30 <= n && n <= 0x39
}

/// Whether `text` is a decimal number: digits, at least one.
pub open spec fn is_number(text: Seq<char>) -> bool {
    text.len() > 0 && forall|i: int| 0 <= i < text.len() ==> is_digit(#[trigger] text[i])
}

/// The value of a sequence of digits read as a decimal number.
pub open spec fn decimal_value(digits: Seq<char>) -> nat
    decreases digits.len(),
{
    if digits.len() == 0 {
        0
    } else {
        decimal_value(digits.drop_last()) * 10 + digit_value(digits.last())
    }
}

/// The digit that stands for `n`, a number below ten.
pub open spec fn digit_char(n: nat) -> char {
    (0x30 + n) as char
}

/// The decimal number that stands for `n`, without leading zeros.
pub open spec fn decimal_text(n: nat) -> Seq<char>
    decreases n,
{
    if n < 10 {
        seq![digit_char(n)]
    } else {
        decimal_text(n / 10).push(digit_char(n % 10))
    }
}

/// `text` without the white space at its start.
pub open spec fn trim_start(text: Seq<char>) -> Seq<char>
    decreases text.len(),
{
    if text.len() > 0 && is_space(text.first()) {
        trim_start(text.drop_first())
    } else {
        text
    }
}

/// `text` without the white space at its end.
pub open spec fn trim_end(text: Seq<char>) -> Seq<char>
    decreases text.len(),
{
    if text.len() > 0 && is_space(text.last()) {
        trim_end(text.drop_last())
    } else {
        text
    }
}

/// `text` without the white space at its start and at its end.
pub open spec fn trim(text: Seq<char>) -> Seq<char> {
    trim_end(trim_start(text))
}

/// Where the first line of `text` ends: the place of its first line feed,
/// or its length where it has none.
pub open spec fn first_newline(text: Seq<char>) -> int
    decreases text.len(),
{
    if text.len() == 0 || text.first() == '\n' {
        0
    } else {
        1 + first_newline(text.drop_first())
    }
}

/// A line without the carriage return at its end, where it has one.
pub open spec fn strip_cr(line: Seq<char>) -> Seq<char> {
    if line.len() > 0 && line.last() == '\r' {
        line.drop_last()
    } else {
        line
    }
}

/// The lines of `text`. A line ends with a line feed, or with a carriage
/// return and a line feed, which are not part of the line. The last line
/// needs no line ending; what follows the last line ending is a line only
/// if it is not empty, and a carriage return at its end stays.
pub open spec fn lines(text: Seq<char>) -> Seq<Seq<char>>
    decreases text.len(),
{
    if text.len() == 0 {
        Seq::empty()
    } else {
        let n = first_newline(text);
        if n == text.len() {
            seq![text]
        } else if 0 <= n < text.len() {
            seq![strip_cr(text.take(n))] + lines(text.skip(n + 1))
        } else {
            Seq::empty()
        }
    }
}

/// How many characters of white space `text` starts with.
pub open spec fn leading_spaces(text: Seq<char>) -> int
    decreases text.len(),
{
    if text.len() > 0 && is_space(text.first()) {
        1 + leading_spaces(text.drop_first())
    } else {
        0
    }
}

/// How many characters that are not white space `text` starts with.
pub open spec fn leading_word(text: Seq<char>) -> int
    decreases text.len(),
{
    if text.len() > 0 && !is_space(text.first()) {
        1 + leading_word(text.drop_first())
    } else {
        0
    }
}

/// The words of `text`: its longest runs of characters that are not white
/// space, in order.
pub open spec fn words(text: Seq<char>) -> Seq<Seq<char>>
    decreases text.len(),
{
    let spaces = leading_spaces(text);
    if 0 <= spaces < text.len() {
        let rest = text.skip(spaces);
        let word = leading_word(rest);
        if 0 < word <= rest.len() {
            seq![rest.take(word)] + words(rest.skip(word))
        } else {
            Seq::empty()
        }
    } else {
        Seq::empty()
    }
}

/// White space that is followed by something else, or by nothing, is all
/// the white space that the text starts with.
pub proof fn lemma_leading_spaces(text: Seq<char>, count: int)
    requires
        0 <= count <= text.len(),
        forall|i: int| 0 <= i < count ==> is_space(#[trigger] text[i]),
        count == text.len() || !is_space(text[count]),
    ensures
        leading_spaces(text) == count,
    decreases count,
{
    if count > 0 {
        let rest = text.drop_first();
        assert forall|i: int| 0 <= i < count - 1 implies is_space(#[trigger] rest[i]) by {
            assert(rest[i] == text[i + 1]);
        }
        lemma_leading_spaces(rest, count - 1);
    }
}

/// Characters that are followed by white space, or by nothing, and hold no
/// white space are the word that the text starts with.
pub proof fn lemma_leading_word(text: Seq<char>, count: int)
    requires
        0 <= count <= text.len(),
        forall|i: int| 0 <= i < count ==> !is_space(#[trigger] text[i]),
        count == text.len() || is_space(text[count]),
    ensures
        leading_word(text) == count,
    decreases count,
{
    if count > 0 {
        let rest = text.drop_first();
        assert forall|i: int| 0 <= i < count - 1 implies !is_space(#[trigger] rest[i]) by {
            assert(rest[i] == text[i + 1]);
        }
        lemma_leading_word(rest, count - 1);
    }
}

/// White space at the start of a text is trimmed away in front of what
/// follows it, where what follows does not start with white space itself.
pub proof fn lemma_trim_start_before(head: Seq<char>, rest: Seq<char>)
    requires
        rest.len() > 0,
        !is_space(rest.first()),
    ensures
        trim_start(head + rest) == trim_start(head) + rest,
    decreases head.len(),
{
    if head.len() == 0 {
        assert(head + rest =~= rest);
        assert(trim_start(head) + rest =~= rest);
    } else if is_space(head.first()) {
        assert((head + rest).first() == head.first());
        assert((head + rest).drop_first() =~= head.drop_first() + rest);
        lemma_trim_start_before(head.drop_first(), rest);
    } else {
        assert((head + rest).first() == head.first());
    }
}

/// The place of the first line feed is the one before which there is none.
pub proof fn lemma_first_newline(text: Seq<char>, at: int)
    requires
        0 <= at <= text.len(),
        forall|i: int| 0 <= i < at ==> text[i] != '\n',
        at == text.len() || text[at] == '\n',
    ensures
        first_newline(text) == at,
    decreases at,
{
    if at > 0 {
        let rest = text.drop_first();
        assert forall|i: int| 0 <= i < at - 1 implies rest[i] != '\n' by {
            assert(rest[i] == text[i + 1]);
        }
        lemma_first_newline(rest, at - 1);
    }
}

/// The characters of `text`, in order.
pub fn chars_of(text: &str) -> (chars: Vec<char>)
    ensures
        chars@ == text@,
{
    let mut chars: Vec<char> = Vec::new();
    for c in it: text.chars()
        invariant
            chars@ == it.seq().take(it.index() as int),
            it.seq() == text@,
    {
        chars.push(c);
    }
    chars
}

/// The bounds of `chars` without the white space at its start and at its end.
pub fn trim_bounds(chars: &Vec<char>) -> (bounds: (usize, usize))
    ensures
        bounds.0 <= bounds.1 <= chars.len(),
        chars@.subrange(bounds.0 as int, bounds.1 as int) == trim(chars@),
{
    let n = chars.len();
    let mut start: usize = 0;
    assert(chars@.subrange(0, n as int) =~= chars@);
    while start < n && space(chars[start])
        invariant
            start <= n == chars.len(),
            trim_start(chars@) == trim_start(chars@.subrange(start as int, n as int)),
        decreases n - start,
    {
        assert(chars@.subrange(start as int, n as int).drop_first() =~= chars@.subrange(
            start as int + 1,
            n as int,
        ));
        start += 1;
    }
    let ghost trimmed = chars@.subrange(start as int, n as int);
    assert(trim_start(chars@) == trimmed);
    let mut end: usize = n;
    while end > start && space(chars[end - 1])
        invariant
            start <= end <= n == chars.len(),
            trimmed == chars@.subrange(start as int, n as int),
            trim_end(trimmed) == trim_end(chars@.subrange(start as int, end as int)),
        decreases end,
    {
        assert(chars@.subrange(start as int, end as int).drop_last() =~= chars@.subrange(
            start as int,
            end as int - 1,
        ));
        end -= 1;
    }
    (start, end)
}

/// The lines of `text`.
pub fn split_lines(text: &str) -> (result: Vec<String>)
    ensures
        result.deep_view() == lines(text@),
{
    let chars = chars_of(text);
    let n = chars.len();
    let mut result: Vec<String> = Vec::new();
    let mut pos: usize = 0;
    assert(text@.skip(0) =~= text@);
    assert(result.deep_view() + lines(text@.skip(0)) =~= lines(text@));
    while pos < n
        invariant
            pos <= n == chars.len(),
            chars@ == text@,
            result.deep_view() + lines(text@.skip(pos as int)) == lines(text@),
        decreases n - pos,
    {
        let ghost rest = text@.skip(pos as int);
        let mut end: usize = pos;
        while end < n && chars[end] != '\n'
            invariant
                pos <= end <= n == chars.len(),
                forall|i: int| pos <= i < end ==> chars@[i] != '\n',
            decreases n - end,
        {
            end += 1;
        }
        proof {
            assert forall|i: int| 0 <= i < end - pos implies rest[i] != '\n' by {
                assert(rest[i] == chars@[pos + i]);
            }
            lemma_first_newline(rest, end - pos);
        }
        let ghost before = result.deep_view();
        if end == n {
            let line = text.substring_char(pos, n);
            result.push(String::from_str(line));
            assert(line@ =~= rest);
            assert(result.deep_view() =~= before + seq![rest]);
            assert(lines(text@.skip(n as int)) =~= Seq::<Seq<char>>::empty());
            assert(result.deep_view() + lines(text@.skip(n as int)) =~= before + lines(rest));
            pos = n;
        } else {
            let line_end = if end > pos && chars[end - 1] == '\r' {
                end - 1
            } else {
                end
            };
            let line = text.substring_char(pos, line_end);
            result.push(String::from_str(line));
            assert(rest.take(end - pos) =~= text@.subrange(pos as int, end as int));
            assert(line@ =~= strip_cr(rest.take(end - pos)));
            assert(rest.skip(end - pos + 1) =~= text@.skip(end + 1));
            assert(result.deep_view() =~= before + seq![line@]);
            assert(result.deep_view() + lines(text@.skip(end + 1)) =~= before + lines(rest));
            pos = end + 1;
        }
    }
    assert(lines(text@.skip(n as int)) =~= Seq::<Seq<char>>::empty());
    assert(result.deep_view() =~= result.deep_view() + Seq::<Seq<char>>::empty());
    result
}

/// A number is at least as large as the number that its first digits make.
pub proof fn lemma_decimal_value_grows(digits: Seq<char>, k: int)
    requires
        0 <= k <= digits.len(),
    ensures
        decimal_value(digits.take(k)) <= decimal_value(digits),
    decreases digits.len(),
{
    if k == digits.len() {
        assert(digits.take(k) =~= digits);
    } else {
        assert(digits.drop_last().take(k) =~= digits.take(k));
        lemma_decimal_value_grows(digits.drop_last(), k);
    }
}

/// The decimal number that stands for `n` is a number, and its value is `n`.
pub proof fn lemma_decimal_text_value(n: nat)
    ensures
        is_number(decimal_text(n)),
        decimal_value(decimal_text(n)) == n,
    decreases n,
{
    if n < 10 {
        let text = decimal_text(n);
        assert(text.drop_last() =~= Seq::<char>::empty());
        assert(decimal_value(text) == decimal_value(text.drop_last()) * 10 + digit_value(
            text.last(),
        ));
    } else {
        lemma_decimal_text_value(n / 10);
        let text = decimal_text(n);
        assert(text.drop_last() =~= decimal_text(n / 10));
        assert(text.last() == digit_char(n % 10));
        assert forall|i: int| 0 <= i < text.len() implies is_digit(#[trigger] text[i]) by {
            if i < text.len() - 1 {
                assert(text[i] == decimal_text(n / 10)[i]);
            }
        }
    }
}

/// Reads the characters of `chars` from `from` up to `to` as a decimal
/// number that fits in eight bits.
pub fn parse_u8(chars: &Vec<char>, from: usize, to: usize) -> (value: Option<u8>)
    requires
        from <= to <= chars.len(),
    ensures
        ({
            let text = chars@.subrange(from as int, to as int);
            match value {
                Some(value) => is_number(text) && decimal_value(text) == value,
                None => !is_number(text) || decimal_value(text) > u8::MAX,
            }
        }),
{
    let ghost text = chars@.subrange(from as int, to as int);
    if from == to {
        return None;
    }
    let mut value: u32 = 0;
    let mut i: usize = from;
    assert(text.take(0) =~= Seq::<char>::empty());
    while i < to
        invariant
            from <= i <= to <= chars.len(),
            text == chars@.subrange(from as int, to as int),
            forall|k: int| 0 <= k < i - from ==> is_digit(#[trigger] text[k]),
            value == decimal_value(text.take(i - from)),
            value <= u8::MAX,
        decreases to - i,
    {
        let c = chars[i];
        assert(c == text[i - from]);
        if !digit(c) {
            return None;
        }
        let ghost longer = text.take(i - from + 1);
        assert(longer.drop_last() =~= text.take(i - from));
        assert(longer.last() == c);
        value = value * 10 + (c as u32 - 0x30);
        assert(value == decimal_value(longer));
        if value > 255 {
            proof {
                lemma_decimal_value_grows(text, i - from + 1);
            }
            return None;
        }
        i += 1;
    }
    assert(text.take(to - from) =~= text);
    Some(value as u8)
}

/// The digit that stands for `n`, as text.
fn digit_text(n: u8) -> (text: &'static str)
    requires
        n < 10,
    ensures
        text@ == seq![digit_char(n as nat)],
{
    proof {
        reveal_strlit("0");
        reveal_strlit("1");
        reveal_strlit("2");
        reveal_strlit("3");
        reveal_strlit("4");
        reveal_strlit("5");
        reveal_strlit("6");
        reveal_strlit("7");
        reveal_strlit("8");
        reveal_strlit("9");
    }
    let text = match n {
        0 => "0",
        1 => "1",
        2 => "2",
        3 => "3",
        4 => "4",
        5 => "5",
        6 => "6",
        7 => "7",
        8 => "8",
        _ => "9",
    };
    assert(text@ =~= seq![digit_char(n as nat)]);
    text
}

/// Appends to `text` the decimal number that stands for `n`.
pub fn push_decimal(text: &mut String, n: u8)
    ensures
        final(text)@ == old(text)@ + decimal_text(n as nat),
{
    let ghost before = text@;
    if n >= 100 {
        text.append(digit_text(n / 100));
    }
    if n >= 10 {
        text.append(digit_text((n / 10) % 10));
    }
    text.append(digit_text(n % 10));
    proof {
        let k = n as nat;
        if k >= 100 {
            assert(decimal_text(k / 100) =~= seq![digit_char(k / 100)]);
            assert(decimal_text(k / 10) =~= decimal_text(k / 100).push(digit_char((k / 10) % 10)))
                by {
                assert((k / 10) / 10 == k / 100);
            }
        } else if k >= 10 {
            assert(decimal_text(k / 10) =~= seq![digit_char(k / 10)]);
        }
        assert(text@ =~= before + decimal_text(k));
    }
}

/// The words of `text`: its longest runs of characters that are not white
/// space, in order.
pub fn split_words(text: &str) -> (result: Vec<String>)
    ensures
        result.deep_view() == words(text@),
{
    let chars = chars_of(text);
    let n = chars.len();
    let mut result: Vec<String> = Vec::new();
    let mut pos: usize = 0;
    assert(text@.skip(0) =~= text@);
    assert(result.deep_view() + words(text@.skip(0)) =~= words(text@));
    while pos < n
        invariant
            pos <= n == chars.len(),
            chars@ == text@,
            result.deep_view() + words(text@.skip(pos as int)) == words(text@),
        decreases n - pos,
    {
        let ghost tail = text@.skip(pos as int);
        let mut start: usize = pos;
        while start < n && space(chars[start])
            invariant
                pos <= start <= n == chars.len(),
                forall|i: int| pos <= i < start ==> is_space(#[trigger] chars@[i]),
            decreases n - start,
        {
            start += 1;
        }
        proof {
            assert forall|i: int| 0 <= i < start - pos implies is_space(#[trigger] tail[i]) by {
                assert(tail[i] == chars@[pos + i]);
            }
            lemma_leading_spaces(tail, start - pos);
        }
        if start == n {
            assert(words(tail) =~= Seq::<Seq<char>>::empty());
            assert(words(text@.skip(n as int)) =~= Seq::<Seq<char>>::empty());
            pos = n;
        } else {
            let ghost rest = tail.skip(start - pos);
            assert(rest =~= text@.skip(start as int));
            let mut end: usize = start + 1;
            while end < n && !space(chars[end])
                invariant
                    start < end <= n == chars.len(),
                    forall|i: int| start <= i < end ==> !is_space(#[trigger] chars@[i]),
                decreases n - end,
            {
                end += 1;
            }
            proof {
                assert forall|i: int| 0 <= i < end - start implies !is_space(#[trigger] rest[i]) by {
                    assert(rest[i] == chars@[start + i]);
                }
                lemma_leading_word(rest, end - start);
            }
            let ghost before = result.deep_view();
            let word = text.substring_char(start, end);
            result.push(String::from_str(word));
            assert(word@ =~= rest.take(end - start));
            assert(rest.skip(end - start) =~= text@.skip(end as int));
            assert(result.deep_view() =~= before + seq![word@]);
            assert(result.deep_view() + words(text@.skip(end as int)) =~= before + words(tail));
            pos = end;
        }
    }
    assert(words(text@.skip(n as int)) =~= Seq::<Seq<char>>::empty());
    assert(result.deep_view() =~= result.deep_view() + Seq::<Seq<char>>::empty());
    result
}

} // verus!
