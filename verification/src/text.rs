//! Text building blocks: comparison, joining, decimal numbers, trimming,
//! searching, line splitting and label truncation over `Seq<char>` views.
use vstd::prelude::*;

verus! {

/// Appends one character. The contract claims of `String::push` what its
/// documentation says: the character goes to the end, nothing else changes.
pub assume_specification[ String::push ](text: &mut String, ch: char)
    ensures
        final(text)@ == old(text)@.push(ch),
;

/// Whether a character has the Unicode property `White_Space`.
pub open spec fn white_space(ch: char) -> bool {
    ||| '\u{9}' <= ch <= '\u{d}'
    ||| ch == '\u{20}'
    ||| ch == '\u{85}'
    ||| ch == '\u{a0}'
    ||| ch == '\u{1680}'
    ||| '\u{2000}' <= ch <= '\u{200a}'
    ||| ch == '\u{2028}'
    ||| ch == '\u{2029}'
    ||| ch == '\u{202f}'
    ||| ch == '\u{205f}'
    ||| ch == '\u{3000}'
}

/// Calls `char::is_whitespace`, which tells whether a character has the Unicode
/// property `White_Space`: these characters have it, and no others.
#[verifier::external_body]
fn is_white_space(ch: char) -> (yes: bool)
    ensures
        yes == white_space(ch),
{
    ch.is_whitespace()
}

/// The Unicode lowercase form of a text.
pub uninterp spec fn lowercase(text: Seq<char>) -> Seq<char>;

/// Calls `str::to_lowercase`. The result depends on the text alone.
#[verifier::external_body]
pub(crate) fn to_lowercase(text: &str) -> (lower: String)
    ensures
        lower@ == lowercase(text@),
{
    text.to_lowercase()
}

/// The views of a sequence of strings.
pub open spec fn texts(strings: Seq<String>) -> Seq<Seq<char>> {
    strings.map_values(|text: String| text@)
}

/// The view of an optional string.
pub open spec fn optional_text(text: Option<String>) -> Option<Seq<char>> {
    match text {
        Some(text) => Some(text@),
        None => None,
    }
}

/// Whether two texts hold the same characters.
pub fn same_text(left: &str, right: &str) -> (same: bool)
    ensures
        same == (left@ == right@),
{
    left.to_owned() == right.to_owned()
}

/// Two pieces joined.
pub fn join2(first: &str, second: &str) -> (joined: String)
    ensures
        joined@ == first@ + second@,
{
    let mut joined = first.to_owned();
    joined.append(second);
    joined
}

/// Three pieces joined.
pub fn join3(first: &str, second: &str, third: &str) -> (joined: String)
    ensures
        joined@ == first@ + second@ + third@,
{
    let mut joined = first.to_owned();
    joined.append(second);
    joined.append(third);
    joined
}

/// Five pieces joined.
pub fn join5(first: &str, second: &str, third: &str, fourth: &str, fifth: &str) -> (joined: String)
    ensures
        joined@ == first@ + second@ + third@ + fourth@ + fifth@,
{
    let mut joined = first.to_owned();
    joined.append(second);
    joined.append(third);
    joined.append(fourth);
    joined.append(fifth);
    joined
}

/// The digit character of a number below ten.
pub open spec fn digit(value: nat) -> char {
    (48 + value) as char
}

/// A number in decimal notation.
pub open spec fn decimal(value: nat) -> Seq<char>
    decreases value,
{
    if value < 10 {
        seq![digit(value)]
    } else {
        decimal(value / 10).push(digit(value % 10))
    }
}

fn digit_char(value: u128) -> (ch: char)
    requires
        value < 10,
    ensures
        ch == digit(value as nat),
{
    match value {
        0 => '0',
        1 => '1',
        2 => '2',
        3 => '3',
        4 => '4',
        5 => '5',
        6 => '6',
        7 => '7',
        8 => '8',
        _ => '9',
    }
}

/// Writes a number in decimal notation.
pub fn decimal_text(value: u128) -> (text: String)
    ensures
        text@ == decimal(value as nat),
    decreases value,
{
    if value < 10 {
        let mut text = String::new();
        text.push(digit_char(value));
        assert(text@ =~= decimal(value as nat));
        text
    } else {
        let mut text = decimal_text(value / 10);
        text.push(digit_char(value % 10));
        text
    }
}

/// A text with spaces in front until it is at least `width` characters long.
pub open spec fn padded(text: Seq<char>, width: nat) -> Seq<char> {
    if text.len() >= width {
        text
    } else {
        Seq::new((width - text.len()) as nat, |i: int| ' ') + text
    }
}

/// Writes a number right-aligned in a field of `width` characters.
pub fn padded_decimal(value: u64, width: usize) -> (text: String)
    ensures
        text@ == padded(decimal(value as nat), width as nat),
{
    let digits = decimal_text(value as u128);
    let length: usize = digits.as_str().unicode_len();
    if length >= width {
        return digits;
    }
    let mut text = String::new();
    let mut count: usize = 0;
    while count < width - length
        invariant
            length < width,
            count <= width - length,
            text@ == Seq::new(count as nat, |i: int| ' '),
        decreases width - length - count,
    {
        text.push(' ');
        count = count + 1;
        assert(text@ =~= Seq::new(count as nat, |i: int| ' '));
    }
    text.append(digits.as_str());
    text
}

/// The characters of a text.
pub fn characters(text: &str) -> (chars: Vec<char>)
    ensures
        chars@ == text@,
{
    let mut chars: Vec<char> = Vec::new();
    for ch in walk: text.chars()
        invariant
            walk.seq() == text@,
            chars@ == text@.take(walk.index()),
    {
        chars.push(ch);
        assert(chars@ =~= text@.take(walk.index() + 1));
    }
    assert(text@.take(text@.len() as int) =~= text@);
    chars
}

/// The text that a range of characters spells.
pub fn spelled(chars: &Vec<char>, from: usize, to: usize) -> (text: String)
    requires
        from <= to <= chars@.len(),
    ensures
        text@ == chars@.subrange(from as int, to as int),
{
    let mut text = String::new();
    let mut index: usize = from;
    while index < to
        invariant
            from <= index <= to <= chars@.len(),
            text@ == chars@.subrange(from as int, index as int),
        decreases to - index,
    {
        text.push(chars[index]);
        index = index + 1;
        assert(text@ =~= chars@.subrange(from as int, index as int));
    }
    text
}

/// Whether `whole` begins with `start`.
pub open spec fn begins_with(whole: Seq<char>, start: Seq<char>) -> bool {
    start.len() <= whole.len() && whole.take(start.len() as int) == start
}

/// Whether `whole` ends with `end`.
pub open spec fn ends_with(whole: Seq<char>, end: Seq<char>) -> bool {
    end.len() <= whole.len() && whole.skip(whole.len() - end.len()) == end
}

/// The text behind a prefix, where the prefix is there.
pub fn strip_prefix<'a>(whole: &'a str, start: &str) -> (rest: Option<&'a str>)
    ensures
        rest is Some <==> begins_with(whole@, start@),
        rest is Some ==> rest->0@ == whole@.skip(start@.len() as int),
{
    let length: usize = whole.unicode_len();
    let cut: usize = start.unicode_len();
    if cut > length {
        return None;
    }
    let head = whole.substring_char(0, cut);
    assert(head@ =~= whole@.take(cut as int));
    if same_text(head, start) {
        let rest = whole.substring_char(cut, length);
        assert(rest@ =~= whole@.skip(cut as int));
        Some(rest)
    } else {
        None
    }
}

/// The text before a suffix, where the suffix is there.
pub fn strip_suffix<'a>(whole: &'a str, end: &str) -> (rest: Option<&'a str>)
    ensures
        rest is Some <==> ends_with(whole@, end@),
        rest is Some ==> rest->0@ == whole@.take(whole@.len() - end@.len()),
{
    let length: usize = whole.unicode_len();
    let tail: usize = end.unicode_len();
    if tail > length {
        return None;
    }
    let last = whole.substring_char(length - tail, length);
    assert(last@ =~= whole@.skip(length - tail));
    if same_text(last, end) {
        let rest = whole.substring_char(0, length - tail);
        assert(rest@ =~= whole@.take(length - tail));
        Some(rest)
    } else {
        None
    }
}

/// Whether `part` stands in `whole` at position `at`.
pub open spec fn occurs_at(whole: Seq<char>, part: Seq<char>, at: int) -> bool {
    0 <= at && at + part.len() <= whole.len() && whole.subrange(at, at + part.len()) == part
}

/// Whether `part` stands anywhere in `whole`.
pub open spec fn contains_text(whole: Seq<char>, part: Seq<char>) -> bool {
    exists|at: int| occurs_at(whole, part, at)
}

fn stands_at(whole: &Vec<char>, part: &Vec<char>, at: usize) -> (yes: bool)
    requires
        at <= whole@.len(),
    ensures
        yes == occurs_at(whole@, part@, at as int),
{
    let length: usize = whole.len();
    if part.len() > length - at {
        return false;
    }
    let mut index: usize = 0;
    while index < part.len()
        invariant
            length == whole@.len(),
            index <= part@.len(),
            at + part@.len() <= whole@.len(),
            forall|i: int| 0 <= i < index ==> whole@[at + i] == part@[i],
        decreases part@.len() - index,
    {
        if whole[at + index] != part[index] {
            assert(whole@.subrange(at as int, at + part@.len())[index as int] != part@[index as int]);
            return false;
        }
        index = index + 1;
    }
    assert(whole@.subrange(at as int, at + part@.len()) =~= part@);
    true
}

/// The first position from `from` on at which `part` stands in `whole`.
pub fn position_of(whole: &Vec<char>, part: &Vec<char>, from: usize) -> (at: Option<usize>)
    requires
        from <= whole@.len(),
    ensures
        match at {
            Some(at) => from <= at && occurs_at(whole@, part@, at as int) && forall|i: int|
                from <= i < at ==> !occurs_at(whole@, part@, i),
            None => forall|i: int| from <= i ==> !occurs_at(whole@, part@, i),
        },
{
    let mut at: usize = from;
    loop
        invariant
            from <= at <= whole@.len(),
            forall|i: int| from <= i < at ==> !occurs_at(whole@, part@, i),
        decreases whole@.len() - at,
    {
        if stands_at(whole, part, at) {
            return Some(at);
        }
        if at == whole.len() {
            return None;
        }
        at = at + 1;
    }
}

/// Whether a text contains another.
pub fn text_contains(whole: &str, part: &str) -> (yes: bool)
    ensures
        yes == contains_text(whole@, part@),
{
    let chars = characters(whole);
    let wanted = characters(part);
    match position_of(&chars, &wanted, 0) {
        Some(at) => {
            assert(occurs_at(whole@, part@, at as int));
            true
        },
        None => false,
    }
}

/// A text without the white space in front of it.
pub open spec fn trimmed_front(text: Seq<char>) -> Seq<char>
    decreases text.len(),
{
    if text.len() > 0 && white_space(text[0]) {
        trimmed_front(text.skip(1))
    } else {
        text
    }
}

/// A text without the white space behind it.
pub open spec fn trimmed_back(text: Seq<char>) -> Seq<char>
    decreases text.len(),
{
    if text.len() > 0 && white_space(text.last()) {
        trimmed_back(text.drop_last())
    } else {
        text
    }
}

/// A text without the white space around it.
pub open spec fn trimmed(text: Seq<char>) -> Seq<char> {
    trimmed_back(trimmed_front(text))
}

/// Some of a text stays once it is trimmed, where it does not begin with white
/// space.
pub proof fn lemma_trimmed_keeps_some(text: Seq<char>)
    requires
        text.len() > 0,
        !white_space(text[0]),
    ensures
        trimmed(text).len() > 0,
{
    lemma_trimmed_back_keeps_some(text);
}

proof fn lemma_trimmed_back_keeps_some(text: Seq<char>)
    requires
        text.len() > 0,
        !white_space(text[0]),
    ensures
        trimmed_back(text).len() > 0,
    decreases text.len(),
{
    if white_space(text.last()) {
        assert(text.drop_last()[0] == text[0]);
        lemma_trimmed_back_keeps_some(text.drop_last());
    }
}

/// Removes the white space around a text.
pub fn trim(text: &str) -> (rest: String)
    ensures
        rest@ == trimmed(text@),
{
    let chars = characters(text);
    let length: usize = chars.len();
    let mut from: usize = 0;
    assert(chars@.skip(0) =~= chars@);
    while from < length && is_white_space(chars[from])
        invariant
            from <= length,
            length == chars@.len(),
            trimmed_front(chars@) == trimmed_front(chars@.skip(from as int)),
        ensures
            from <= length,
            from < length ==> !white_space(chars@[from as int]),
            trimmed_front(chars@) == trimmed_front(chars@.skip(from as int)),
        decreases length - from,
    {
        assert(chars@.skip(from as int).skip(1) =~= chars@.skip(from + 1));
        from = from + 1;
    }
    assert(trimmed_front(chars@) == chars@.skip(from as int));
    let mut to: usize = length;
    assert(chars@.skip(from as int) =~= chars@.subrange(from as int, to as int));
    while from < to && is_white_space(chars[to - 1])
        invariant
            from <= to <= length,
            length == chars@.len(),
            trimmed(chars@) == trimmed_back(chars@.subrange(from as int, to as int)),
        ensures
            from <= to <= length,
            from < to ==> !white_space(chars@[to - 1]),
            trimmed(chars@) == trimmed_back(chars@.subrange(from as int, to as int)),
        decreases to - from,
    {
        assert(chars@.subrange(from as int, to as int).drop_last() =~= chars@.subrange(
            from as int,
            to - 1,
        ));
        to = to - 1;
    }
    spelled(&chars, from, to)
}

/// The position of the first line feed, or the length of the text.
pub open spec fn line_end(text: Seq<char>) -> int
    decreases text.len(),
{
    if text.len() == 0 || text[0] == '\n' {
        0
    } else {
        1 + line_end(text.skip(1))
    }
}

/// A line without the carriage return that stood before its line feed.
pub open spec fn without_return(line: Seq<char>) -> Seq<char> {
    if line.len() > 0 && line.last() == '\r' {
        line.drop_last()
    } else {
        line
    }
}

/// The lines of a text. A line feed ends a line, a carriage return before it
/// belongs to the line's end, and the last line need not be ended.
pub open spec fn lines(text: Seq<char>) -> Seq<Seq<char>>
    decreases text.len(),
{
    if text.len() == 0 {
        Seq::empty()
    } else {
        let end = line_end(text);
        if 0 <= end < text.len() {
            seq![without_return(text.take(end))] + lines(text.skip(end + 1))
        } else {
            seq![text]
        }
    }
}

/// The end of the first line lies before the first line feed, or at the end of
/// the text.
pub proof fn lemma_line_end(text: Seq<char>, at: int)
    requires
        0 <= at <= text.len(),
        forall|i: int| 0 <= i < at ==> text[i] != '\n',
        at == text.len() || text[at] == '\n',
    ensures
        line_end(text) == at,
    decreases text.len(),
{
    if at > 0 {
        assert forall|i: int| 0 <= i < at - 1 implies text.skip(1)[i] != '\n' by {
            assert(text.skip(1)[i] == text[i + 1]);
        }
        lemma_line_end(text.skip(1), at - 1);
    }
}

proof fn lemma_line_end_reached(text: Seq<char>)
    ensures
        0 <= line_end(text) <= text.len(),
        forall|i: int| 0 <= i < line_end(text) ==> text[i] != '\n',
    decreases text.len(),
{
    if text.len() > 0 && text[0] != '\n' {
        let rest = text.skip(1);
        lemma_line_end_reached(rest);
        assert forall|i: int| 0 <= i < line_end(text) implies text[i] != '\n' by {
            if i > 0 {
                assert(rest[i - 1] == text[i]);
            }
        }
    }
}

/// No line holds a line feed.
pub proof fn lemma_lines_hold_no_feed(text: Seq<char>, index: int)
    requires
        0 <= index < lines(text).len(),
    ensures
        !lines(text)[index].contains('\n'),
    decreases text.len(),
{
    lemma_line_end_reached(text);
    let end = line_end(text);
    let line = lines(text)[index];
    if end < text.len() && index > 0 {
        lemma_lines_hold_no_feed(text.skip(end + 1), index - 1);
        assert(line == lines(text.skip(end + 1))[index - 1]);
    } else {
        assert forall|i: int| 0 <= i < line.len() implies line[i] != '\n' by {
            assert(line[i] == text[i]);
        }
    }
}

/// Splits a text into its lines.
pub fn split_lines(text: &str) -> (split: Vec<String>)
    ensures
        texts(split@) == lines(text@),
{
    let chars = characters(text);
    let length: usize = chars.len();
    let mut split: Vec<String> = Vec::new();
    let mut start: usize = 0;
    assert(chars@.skip(0) =~= chars@);
    assert(texts(split@) + lines(chars@) =~= lines(chars@));
    while start < length
        invariant
            start <= length,
            length == chars@.len(),
            texts(split@) + lines(chars@.skip(start as int)) == lines(chars@),
        decreases length - start,
    {
        let ghost rest = chars@.skip(start as int);
        let mut end: usize = start;
        while end < length && chars[end] != '\n'
            invariant
                start <= end <= length,
                length == chars@.len(),
                forall|i: int| start <= i < end ==> chars@[i] != '\n',
            ensures
                start <= end <= length,
                forall|i: int| start <= i < end ==> chars@[i] != '\n',
                end < length ==> chars@[end as int] == '\n',
            decreases length - end,
        {
            end = end + 1;
        }
        proof {
            lemma_line_end(rest, end - start);
        }
        let ghost before = split@;
        if end < length {
            let last: usize = if end > start && chars[end - 1] == '\r' {
                end - 1
            } else {
                end
            };
            let line = spelled(&chars, start, last);
            proof {
                assert(rest.take(end - start) =~= chars@.subrange(start as int, end as int));
                assert(line@ =~= without_return(rest.take(end - start)));
                assert(rest.skip(end - start + 1) =~= chars@.skip(end + 1));
            }
            split.push(line);
            proof {
                assert(texts(split@) =~= texts(before).push(line@));
                assert(texts(before) + (seq![line@] + lines(chars@.skip(end + 1)))
                    =~= texts(split@) + lines(chars@.skip(end + 1)));
            }
            start = end + 1;
        } else {
            let line = spelled(&chars, start, length);
            proof {
                assert(line@ =~= rest);
            }
            split.push(line);
            proof {
                assert(texts(split@) =~= texts(before).push(line@));
                assert(chars@.skip(length as int) =~= Seq::<char>::empty());
                assert(texts(split@) + lines(chars@.skip(length as int)) =~= texts(before)
                    + seq![rest]);
            }
            start = length;
        }
    }
    assert(chars@.skip(length as int) =~= Seq::<char>::empty());
    assert(texts(split@) + lines(chars@.skip(length as int)) =~= texts(split@));
    split
}

/// A label of at most `limit` characters: the text itself where it fits,
/// otherwise its beginning with an ellipsis in the last place.
pub open spec fn truncated(text: Seq<char>, limit: nat) -> Seq<char> {
    if text.len() <= limit {
        text
    } else if limit == 0 {
        Seq::empty()
    } else {
        text.take(limit - 1).push('…')
    }
}

/// Bounds a label to `limit` characters.
pub fn truncate_label(text: &str, limit: usize) -> (label: String)
    ensures
        label@ == truncated(text@, limit as nat),
{
    let length: usize = text.unicode_len();
    if length <= limit {
        return text.to_owned();
    }
    if limit == 0 {
        return String::new();
    }
    let mut label = text.substring_char(0, limit - 1).to_owned();
    label.push('…');
    assert(label@ =~= truncated(text@, limit as nat));
    label
}

/// A truncated label never exceeds its limit.
pub proof fn law_truncated_label_is_bounded(text: Seq<char>, limit: nat)
    ensures
        truncated(text, limit).len() <= limit,
        text.len() <= limit ==> truncated(text, limit) == text,
{
}

/// A label that is too long keeps its beginning and ends in an ellipsis; only a
/// label without room is empty.
pub proof fn law_truncated_label_keeps_its_beginning(text: Seq<char>, limit: nat)
    requires
        text.len() > limit,
    ensures
        limit > 0 ==> truncated(text, limit).len() == limit,
        limit > 0 ==> truncated(text, limit).last() == '…',
        limit > 0 ==> truncated(text, limit).take(limit - 1) == text.take(limit - 1),
        limit == 0 ==> truncated(text, limit).len() == 0,
{
    if limit > 0 {
        assert(truncated(text, limit).take(limit - 1) =~= text.take(limit - 1));
    }
}

/// The number that a text of digits stands for.
pub open spec fn number_read(digits: Seq<char>) -> nat
    decreases digits.len(),
{
    if digits.len() == 0 {
        0
    } else {
        number_read(digits.drop_last()) * 10 + (digits.last() as nat - '0' as nat) as nat
    }
}

/// A number that was written reads back as itself. It is written in digits alone,
/// and without leading zeros.
pub proof fn law_decimal_reads_back(value: nat)
    ensures
        number_read(decimal(value)) == value,
        decimal(value).len() > 0,
        forall|i: int| 0 <= i < decimal(value).len() ==> '0' <= #[trigger] decimal(value)[i] <= '9',
        value > 0 ==> decimal(value)[0] != '0',
    decreases value,
{
    if value < 10 {
        reveal_with_fuel(number_read, 2);
        assert(decimal(value).drop_last() =~= Seq::<char>::empty());
        assert(decimal(value).last() == digit(value));
    } else {
        law_decimal_reads_back(value / 10);
        let front = decimal(value / 10);
        assert(decimal(value).drop_last() =~= front);
        assert(decimal(value).last() == digit(value % 10));
        assert forall|i: int| 0 <= i < decimal(value).len() implies '0' <= #[trigger] decimal(
            value,
        )[i] <= '9' by {
            if i < front.len() {
                assert(decimal(value)[i] == front[i]);
            }
        }
    }
}

/// A text is padded in front, with spaces, to the width, and stays whole.
pub proof fn law_padding_stands_in_front(text: Seq<char>, width: nat)
    ensures
        padded(text, width).len() == if text.len() >= width {
            text.len()
        } else {
            width
        },
        padded(text, width).skip(padded(text, width).len() - text.len()) == text,
        forall|i: int|
            0 <= i < padded(text, width).len() - text.len() ==> #[trigger] padded(text, width)[i]
                == ' ',
{
    assert(padded(text, width).skip(padded(text, width).len() - text.len()) =~= text);
}

/// A text is found wherever it stands: between any two others, and nowhere else.
pub proof fn law_text_is_found_anywhere(whole: Seq<char>, part: Seq<char>)
    ensures
        forall|front: Seq<char>, back: Seq<char>|
            #![trigger front + part + back]
            contains_text(front + part + back, part),
        contains_text(whole, part) ==> exists|front: Seq<char>, back: Seq<char>|
            #![trigger front + part + back]
            whole == front + part + back,
{
    assert forall|front: Seq<char>, back: Seq<char>|
        #![trigger front + part + back]
        contains_text(front + part + back, part) by {
        let joined = front + part + back;
        let at = front.len() as int;
        assert(joined.subrange(at, at + part.len()) =~= part);
        assert(occurs_at(joined, part, at));
    }
    if contains_text(whole, part) {
        let at = choose|at: int| occurs_at(whole, part, at);
        let front = whole.take(at);
        let back = whole.skip(at + part.len());
        assert(whole =~= front + part + back) by {
            assert forall|i: int| 0 <= i < whole.len() implies whole[i] == (front + part + back)[i] by {
                if at <= i < at + part.len() {
                    assert(whole.subrange(at, at + part.len())[i - at] == whole[i]);
                }
            }
        }
    }
}

proof fn lemma_trimmed_front(text: Seq<char>) -> (from: int)
    ensures
        0 <= from <= text.len(),
        trimmed_front(text) == text.skip(from),
        forall|i: int| 0 <= i < from ==> white_space(#[trigger] text[i]),
        from < text.len() ==> !white_space(text[from]),
    decreases text.len(),
{
    if text.len() > 0 && white_space(text[0]) {
        let rest = text.skip(1);
        let from = lemma_trimmed_front(rest) + 1;
        assert(rest.skip(from - 1) =~= text.skip(from));
        assert forall|i: int| 0 <= i < from implies white_space(#[trigger] text[i]) by {
            if i > 0 {
                assert(rest[i - 1] == text[i]);
            }
        }
        if from < text.len() {
            assert(rest[from - 1] == text[from]);
        }
        from
    } else {
        assert(text.skip(0) =~= text);
        0
    }
}

proof fn lemma_trimmed_back(text: Seq<char>) -> (to: int)
    ensures
        0 <= to <= text.len(),
        trimmed_back(text) == text.take(to),
        forall|i: int| to <= i < text.len() ==> white_space(#[trigger] text[i]),
        to > 0 ==> !white_space(text[to - 1]),
    decreases text.len(),
{
    if text.len() > 0 && white_space(text.last()) {
        let rest = text.drop_last();
        let to = lemma_trimmed_back(rest);
        assert(rest.take(to) =~= text.take(to));
        assert forall|i: int| to <= i < text.len() implies white_space(#[trigger] text[i]) by {
            if i < rest.len() {
                assert(rest[i] == text[i]);
            }
        }
        to
    } else {
        assert(text.take(text.len() as int) =~= text);
        text.len() as int
    }
}

/// Trimming takes white space from both ends and nothing else: what stays is a
/// part of the text that neither begins nor ends in white space, and round it
/// there is nothing but that.
pub proof fn law_trimming_takes_the_white_space_around(text: Seq<char>)
    ensures
        exists|from: int, to: int|
            #![trigger text.subrange(from, to)]
            {
                &&& 0 <= from <= to <= text.len()
                &&& trimmed(text) == text.subrange(from, to)
                &&& forall|i: int| 0 <= i < from || to <= i < text.len() ==> white_space(
                    #[trigger] text[i],
                )
            },
        trimmed(text).len() > 0 ==> !white_space(trimmed(text)[0]) && !white_space(
            trimmed(text).last(),
        ),
{
    let from = lemma_trimmed_front(text);
    let rest = text.skip(from);
    let kept = lemma_trimmed_back(rest);
    let to = from + kept;
    assert(rest.take(kept) =~= text.subrange(from, to));
    assert forall|i: int| 0 <= i < from || to <= i < text.len() implies white_space(
        #[trigger] text[i],
    ) by {
        if to <= i {
            assert(rest[i - from] == text[i]);
        }
    }
}

/// A line ends at its line feed, which belongs to neither line; a carriage return
/// before it goes too. What follows is split by itself.
pub proof fn law_lines_end_at_their_feeds(line: Seq<char>, rest: Seq<char>)
    requires
        !line.contains('\n'),
    ensures
        lines(line + seq!['\r', '\n'] + rest) == seq![line] + lines(rest),
        (line.len() == 0 || line.last() != '\r') ==> lines(line + seq!['\n'] + rest) == seq![line]
            + lines(rest),
        line.len() > 0 ==> lines(line) == seq![line],
        lines(Seq::empty()).len() == 0,
{
    assert forall|i: int| 0 <= i < line.len() implies line[i] != '\n' by {
        assert(line.contains(line[i]));
    }
    let end = line.len() as int;
    let plain = line + seq!['\n'] + rest;
    lemma_line_end(plain, end);
    assert(plain.take(end) =~= line);
    assert(plain.skip(end + 1) =~= rest);
    let returned = line + seq!['\r', '\n'] + rest;
    lemma_line_end(returned, end + 1);
    assert(returned.take(end + 1) =~= line.push('\r'));
    assert(line.push('\r').drop_last() =~= line);
    assert(returned.skip(end + 2) =~= rest);
    lemma_line_end(line, end);
}

} // verus!
