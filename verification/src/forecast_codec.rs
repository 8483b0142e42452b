//! Decoding of the line-oriented forecast text into a temperature pair.

use vstd::prelude::*;
use crate::error::DecodeError;

verus! {

/// The forecast high and low, in degrees Fahrenheit.
#[derive(Clone, Copy, Debug, PartialEq, Eq, Structural, Hash)]
pub struct TemperatureForecast {
    pub high: i32,
    pub low: i32,
}

/// Whether a character separates tokens: the characters with the Unicode
/// property `White_Space`.
pub open spec fn is_space(c: char) -> bool {
    let n = c as u32;
    ||| 0x09 <= n <= 0x0D
    ||| n == 0x20
    ||| n == 0x85
    ||| n == 0xA0
    ||| n == 0x1680
    ||| 0x2000 <= n <= 0x200A
    ||| n == 0x2028
    ||| n == 0x2029
    ||| n == 0x202F
    ||| n == 0x205F
    ||| n == 0x3000
}

/// The pieces of a text between its line feeds. There is always at least
/// one piece, and no piece holds a line feed.
pub open spec fn split_lines(text: Seq<char>) -> Seq<Seq<char>>
    decreases text.len(),
{
    if text.len() == 0 {
        seq![Seq::empty()]
    } else {
        let before = split_lines(text.drop_last());
        if text.last() == '\n' {
            before.push(Seq::empty())
        } else {
            before.drop_last().push(before.last().push(text.last()))
        }
    }
}

/// The tokens of a line: its maximal runs of characters that are no
/// separators, from left to right.
pub open spec fn tokens(line: Seq<char>) -> Seq<Seq<char>>
    decreases line.len(),
{
    if line.len() == 0 {
        Seq::empty()
    } else {
        let before = tokens(line.drop_last());
        if is_space(line.last()) {
            before
        } else if line.len() >= 2 && !is_space(line[line.len() - 2]) {
            before.drop_last().push(before.last().push(line.last()))
        } else {
            before.push(seq![line.last()])
        }
    }
}

/// Whether a character is an ASCII decimal digit.
pub open spec fn is_digit(c: char) -> bool {
    0x30 <= c as u32 <= 0x39
}

/// The number that a run of decimal digits denotes.
pub open spec fn digits_value(digits: Seq<char>) -> int
    decreases digits.len(),
{
    if digits.len() == 0 {
        0
    } else {
        10 * digits_value(digits.drop_last()) + (digits.last() as u32 - 0x30)
    }
}

/// The digits of a token: what follows its sign, if it has one.
pub open spec fn unsigned_part(token: Seq<char>) -> Seq<char> {
    if token.len() > 0 && (token[0] == '-' || token[0] == '+') {
        token.drop_first()
    } else {
        token
    }
}

/// The 32-bit signed integer that a token denotes: an optional sign, then
/// one or more decimal digits, with a value in range.
pub open spec fn parse_int(token: Seq<char>) -> Option<i32> {
    let digits = unsigned_part(token);
    let magnitude = digits_value(digits);
    let value = if token.len() > 0 && token[0] == '-' {
        -magnitude
    } else {
        magnitude
    };
    if digits.len() > 0 && (forall|i: int| 0 <= i < digits.len() ==> is_digit(#[trigger] digits[i]))
        && i32::MIN <= value <= i32::MAX {
        Some(value as i32)
    } else {
        None
    }
}

/// The marker that opens a forecast record.
pub open spec fn marker() -> Seq<char> {
    seq!['T', 'X', 'N']
}

/// Whether a line is a forecast record: its first token is the marker.
pub open spec fn is_record(line: Seq<char>) -> bool {
    tokens(line).len() > 0 && tokens(line)[0] == marker()
}

/// The temperatures that a record's tokens carry: the low as the second token
/// and the high as the third, where both are there and both are integers.
pub open spec fn record_temps(fields: Seq<Seq<char>>) -> Option<TemperatureForecast> {
    if fields.len() >= 3 && parse_int(fields[1]) is Some && parse_int(fields[2]) is Some {
        Some(TemperatureForecast { high: parse_int(fields[2])->0, low: parse_int(fields[1])->0 })
    } else {
        None
    }
}

/// The last record among the lines, if there is one.
pub open spec fn last_record(lines: Seq<Seq<char>>) -> Option<Seq<char>>
    decreases lines.len(),
{
    if lines.len() == 0 {
        None
    } else if is_record(lines.last()) {
        Some(lines.last())
    } else {
        last_record(lines.drop_last())
    }
}

/// What decoding a forecast text yields: the temperatures of its last
/// record.
pub open spec fn decode_forecast(text: Seq<char>) -> Result<TemperatureForecast, DecodeError> {
    match last_record(split_lines(text)) {
        Some(line) => match record_temps(tokens(line)) {
            Some(forecast) => Ok(forecast),
            None => Err(DecodeError::MissingField("temps")),
        },
        None => Err(DecodeError::MissingField("temps")),
    }
}

/// The character content of each of a list of character vectors.
pub open spec fn contents(pieces: Seq<Vec<char>>) -> Seq<Seq<char>> {
    Seq::new(pieces.len(), |i: int| pieces[i]@)
}

/// Tells whether a character separates tokens.
pub fn is_separator(c: char) -> (space: bool)
    ensures
        space == is_space(c),
{
    let n: u32 = c as u32;
    (0x09 <= n && n <= 0x0D) || n == 0x20 || n == 0x85 || n == 0xA0 || n == 0x1680 || (0x2000 <= n
        && n <= 0x200A) || n == 0x2028 || n == 0x2029 || n == 0x202F || n == 0x205F || n == 0x3000
}

/// Splits a text at its line feeds.
pub fn lines_of(text: &str) -> (lines: Vec<Vec<char>>)
    ensures
        contents(lines@) == split_lines(text@),
{
    let mut lines: Vec<Vec<char>> = Vec::new();
    let mut current: Vec<char> = Vec::new();
    proof {
        assert(text@.take(0) =~= Seq::<char>::empty());
        assert(contents(lines@).push(current@) =~= seq![Seq::<char>::empty()]);
    }
    for c in it: text.chars()
        invariant
            it.seq() == text@,
            contents(lines@).push(current@) == split_lines(text@.take(it.index() as int)),
    {
        let ghost i = it.index() as int;
        let ghost old_lines = lines@;
        let ghost old_current = current@;
        proof {
            assert(text@.take(i + 1).drop_last() =~= text@.take(i));
            assert(text@.take(i + 1).last() == c);
        }
        if c == '\n' {
            lines.push(current);
            current = Vec::new();
            proof {
                assert(contents(lines@) =~= contents(old_lines).push(old_current));
            }
        } else {
            current.push(c);
            proof {
                let before = contents(old_lines).push(old_current);
                assert(before.drop_last() =~= contents(old_lines));
                assert(before.last() == old_current);
            }
        }
    }
    proof {
        assert(text@.take(text@.len() as int) =~= text@);
    }
    let ghost done_lines = lines@;
    lines.push(current);
    proof {
        assert(contents(lines@) =~= contents(done_lines).push(current@));
    }
    lines
}

/// Splits a line into its tokens.
pub fn tokenize(line: &Vec<char>) -> (fields: Vec<Vec<char>>)
    ensures
        contents(fields@) == tokens(line@),
{
    let mut fields: Vec<Vec<char>> = Vec::new();
    let mut current: Vec<char> = Vec::new();
    let mut open: bool = false;
    let mut i: usize = 0;
    proof {
        assert(line@.take(0) =~= Seq::<char>::empty());
        assert(contents(fields@) =~= Seq::<Seq<char>>::empty());
    }
    while i < line.len()
        invariant
            i <= line@.len(),
            open <==> i > 0 && !is_space(line@[i - 1]),
            open ==> contents(fields@).push(current@) == tokens(line@.take(i as int)),
            !open ==> contents(fields@) == tokens(line@.take(i as int)),
        decreases line@.len() - i,
    {
        let c = line[i];
        let ghost old_fields = fields@;
        let ghost old_current = current@;
        proof {
            assert(line@.take(i + 1).drop_last() =~= line@.take(i as int));
            assert(line@.take(i + 1).last() == c);
            assert(i > 0 ==> line@.take(i + 1)[i - 1] == line@[i - 1]);
        }
        if is_separator(c) {
            if open {
                fields.push(current);
                current = Vec::new();
                open = false;
                proof {
                    assert(contents(fields@) =~= contents(old_fields).push(old_current));
                }
            }
        } else if open {
            current.push(c);
            proof {
                let before = contents(old_fields).push(old_current);
                assert(before.drop_last() =~= contents(old_fields));
                assert(before.last() == old_current);
            }
        } else {
            current = Vec::new();
            current.push(c);
            open = true;
            proof {
                assert(current@ =~= seq![c]);
            }
        }
        i += 1;
    }
    proof {
        assert(line@.take(line@.len() as int) =~= line@);
    }
    if open {
        let ghost done_fields = fields@;
        fields.push(current);
        proof {
            assert(contents(fields@) =~= contents(done_fields).push(current@));
        }
    }
    fields
}

/// Reads a token as a 32-bit signed integer.
pub fn parse_token(token: &Vec<char>) -> (value: Option<i32>)
    ensures
        value == parse_int(token@),
{
    let n: usize = token.len();
    if n == 0 {
        return None;
    }
    let negative: bool = token[0] == '-';
    let start: usize = if token[0] == '-' || token[0] == '+' {
        1
    } else {
        0
    };
    let ghost digits = unsigned_part(token@);
    proof {
        assert(digits =~= token@.subrange(start as int, n as int));
        assert(digits.take(0) =~= Seq::<char>::empty());
    }
    if start == n {
        return None;
    }
    let limit: i64 = 2147483648;
    let mut magnitude: i64 = 0;
    let mut beyond: bool = false;
    let mut i: usize = start;
    while i < n
        invariant
            start <= i <= n,
            n == token@.len(),
            limit == 2147483648,
            digits == token@.subrange(start as int, n as int),
            digits == unsigned_part(token@),
            forall|j: int| 0 <= j < i - start ==> is_digit(#[trigger] digits[j]),
            0 <= magnitude <= limit,
            !beyond ==> magnitude == digits_value(digits.take(i - start)),
            beyond ==> digits_value(digits.take(i - start)) > limit,
        decreases n - i,
    {
        let c = token[i];
        let code: u32 = c as u32;
        if code < 0x30 || code > 0x39 {
            proof {
                assert(digits[i - start] == c);
                assert(!is_digit(digits[i - start]));
            }
            return None;
        }
        proof {
            assert(digits.take(i + 1 - start).drop_last() =~= digits.take(i - start));
            assert(digits.take(i + 1 - start).last() == c);
        }
        if !beyond {
            let next: i64 = magnitude * 10 + (code - 0x30) as i64;
            if next > limit {
                beyond = true;
            } else {
                magnitude = next;
            }
        }
        i += 1;
    }
    proof {
        assert(digits.take(n - start) =~= digits);
    }
    if beyond {
        None
    } else if negative {
        Some((0 - magnitude) as i32)
    } else if magnitude == limit {
        None
    } else {
        Some(magnitude as i32)
    }
}

/// Tells whether a token is the record marker.
pub fn is_marker(token: &Vec<char>) -> (holds: bool)
    ensures
        holds == (token@ == marker()),
{
    let holds = token.len() == 3 && token[0] == 'T' && token[1] == 'X' && token[2] == 'N';
    proof {
        if holds {
            assert(token@ =~= marker());
        }
    }
    holds
}

/// Reads the temperatures off the tokens of a record.
pub fn read_record(fields: &Vec<Vec<char>>) -> (temps: Option<TemperatureForecast>)
    ensures
        temps == record_temps(contents(fields@)),
{
    if fields.len() < 3 {
        return None;
    }
    let low = parse_token(&fields[1]);
    let high = parse_token(&fields[2]);
    match (high, low) {
        (Some(high), Some(low)) => Some(TemperatureForecast { high, low }),
        _ => None,
    }
}

/// Decoder of forecast texts.
pub struct ForecastCodec;

impl ForecastCodec {
    /// Decodes a forecast text. The last line whose first token is the
    /// marker decides: its second and third tokens are the low and the high.
    /// Without such a line, or where that line lacks either integer, the
    /// temperatures are missing.
    pub fn decode(raw_text: &str) -> (forecast: Result<TemperatureForecast, DecodeError>)
        ensures
            forecast == decode_forecast(raw_text@),
            forecast is Ok <==> (last_record(split_lines(raw_text@)) matches Some(line)
                && record_temps(tokens(line)) is Some),
            forecast is Err ==> forecast == Err::<TemperatureForecast, DecodeError>(
                DecodeError::MissingField("temps"),
            ),
    {
        let lines = lines_of(raw_text);
        let mut i: usize = lines.len();
        proof {
            assert(contents(lines@).take(i as int) =~= contents(lines@));
        }
        while i > 0
            invariant
                i <= lines@.len(),
                contents(lines@) == split_lines(raw_text@),
                last_record(contents(lines@)) == last_record(contents(lines@).take(i as int)),
            decreases i,
        {
            i -= 1;
            let fields = tokenize(&lines[i]);
            proof {
                assert(contents(lines@).take(i + 1).last() == lines@[i as int]@);
                assert(contents(lines@).take(i + 1).drop_last() =~= contents(lines@).take(
                    i as int,
                ));
                assert(fields@.len() > 0 ==> contents(fields@)[0] == fields@[0]@);
            }
            if fields.len() > 0 && is_marker(&fields[0]) {
                return match read_record(&fields) {
                    Some(temps) => Ok(temps),
                    None => Err(DecodeError::MissingField("temps")),
                };
            }
        }
        Err(DecodeError::MissingField("temps"))
    }
}

/// Whether a piece of text has no line feed in it.
pub open spec fn is_line(piece: Seq<char>) -> bool {
    forall|k: int| 0 <= k < piece.len() ==> #[trigger] piece[k] != '\n'
}

/// Whether a piece of text is a word: not empty, and without separator.
pub open spec fn is_word(piece: Seq<char>) -> bool {
    piece.len() > 0 && forall|k: int| 0 <= k < piece.len() ==> !is_space(#[trigger] piece[k])
}

/// A text has at least one line, and each of its lines is without line
/// feed.
pub proof fn lemma_split_lines_shape(text: Seq<char>)
    ensures
        split_lines(text).len() >= 1,
        forall|i: int| 0 <= i < split_lines(text).len() ==> is_line(#[trigger] split_lines(text)[i]),
    decreases text.len(),
{
    if text.len() > 0 {
        lemma_split_lines_shape(text.drop_last());
    }
}

/// Every token of a line is a word, and a line that ends in a character
/// that is no separator has a token.
pub proof fn lemma_tokens_shape(line: Seq<char>)
    ensures
        forall|i: int| 0 <= i < tokens(line).len() ==> is_word(#[trigger] tokens(line)[i]),
        line.len() > 0 && !is_space(line.last()) ==> tokens(line).len() > 0,
    decreases line.len(),
{
    if line.len() > 0 {
        let front = line.drop_last();
        let before = tokens(front);
        lemma_tokens_shape(front);
        if !is_space(line.last()) {
            if line.len() >= 2 && !is_space(line[line.len() - 2]) {
                assert(front.last() == line[line.len() - 2]);
                let grown = before.last().push(line.last());
                assert(is_word(before.last()));
                assert(is_word(grown));
                assert forall|i: int| 0 <= i < tokens(line).len() implies is_word(
                    #[trigger] tokens(line)[i],
                ) by {
                    if i < before.len() - 1 {
                        assert(tokens(line)[i] == before[i]);
                    }
                }
            } else {
                assert(is_word(seq![line.last()]));
                assert forall|i: int| 0 <= i < tokens(line).len() implies is_word(
                    #[trigger] tokens(line)[i],
                ) by {
                    if i < before.len() {
                        assert(tokens(line)[i] == before[i]);
                    }
                }
            }
        }
    }
}

/// Among lines of which none is a record there is no last record, and the
/// other way round.
pub proof fn lemma_last_record_absent(lines: Seq<Seq<char>>)
    ensures
        last_record(lines) is None <==> (forall|i: int|
            0 <= i < lines.len() ==> !is_record(#[trigger] lines[i])),
    decreases lines.len(),
{
    if lines.len() > 0 {
        let front = lines.drop_last();
        lemma_last_record_absent(front);
        assert(forall|i: int| 0 <= i < front.len() ==> front[i] == lines[i]);
        if !is_record(lines.last()) && last_record(front) is None {
            assert forall|i: int| 0 <= i < lines.len() implies !is_record(#[trigger] lines[i]) by {
                if i < front.len() {
                    assert(!is_record(front[i]));
                }
            }
        }
    }
}

/// A record that no later record follows is the last record.
pub proof fn lemma_last_record_found(lines: Seq<Seq<char>>, at: int)
    requires
        0 <= at < lines.len(),
        is_record(lines[at]),
        forall|j: int| at < j < lines.len() ==> !is_record(#[trigger] lines[j]),
    ensures
        last_record(lines) == Some(lines[at]),
    decreases lines.len(),
{
    if at < lines.len() - 1 {
        let front = lines.drop_last();
        assert(!is_record(lines[lines.len() - 1]));
        assert(forall|j: int| 0 <= j < front.len() ==> front[j] == lines[j]);
        lemma_last_record_found(front, at);
    }
}

/// A text without line feed is its own single line.
pub proof fn lemma_split_lines_single(line: Seq<char>)
    requires
        is_line(line),
    ensures
        split_lines(line) == seq![line],
    decreases line.len(),
{
    if line.len() == 0 {
        assert(line =~= Seq::<char>::empty());
    } else {
        let shorter = line.drop_last();
        lemma_split_lines_single(shorter);
        assert(shorter.push(line.last()) =~= line);
        assert(seq![shorter].last() == shorter);
        assert(seq![shorter].drop_last().push(line) =~= seq![line]);
    }
}

/// A line without line feed that is appended to a text after a line feed is
/// the last of the text's lines, behind those of the text before it.
pub proof fn lemma_split_lines_appended(head: Seq<char>, line: Seq<char>)
    requires
        is_line(line),
    ensures
        split_lines(head + seq!['\n'] + line) == split_lines(head).push(line),
    decreases line.len(),
{
    let text = head + seq!['\n'] + line;
    if line.len() == 0 {
        assert(text.drop_last() =~= head);
        assert(line =~= Seq::<char>::empty());
    } else {
        let shorter = line.drop_last();
        lemma_split_lines_appended(head, shorter);
        assert(text.drop_last() =~= head + seq!['\n'] + shorter);
        assert(text.last() == line.last());
        let before = split_lines(head).push(shorter);
        assert(before.drop_last() =~= split_lines(head));
        assert(shorter.push(line.last()) =~= line);
    }
}

/// A text without any record has no forecast: decoding it reports the
/// temperatures as missing.
pub proof fn lemma_no_record_no_forecast(text: Seq<char>)
    requires
        forall|i: int|
            0 <= i < split_lines(text).len() ==> !is_record(#[trigger] split_lines(text)[i]),
    ensures
        decode_forecast(text) == Err::<TemperatureForecast, DecodeError>(
            DecodeError::MissingField("temps"),
        ),
{
    lemma_last_record_absent(split_lines(text));
}

/// The record that no later record follows is authoritative: its
/// temperatures are the result, whatever records came before it.
pub proof fn lemma_last_record_decides(text: Seq<char>, at: int)
    requires
        0 <= at < split_lines(text).len(),
        is_record(split_lines(text)[at]),
        forall|j: int|
            at < j < split_lines(text).len() ==> !is_record(#[trigger] split_lines(text)[j]),
    ensures
        decode_forecast(text) == (match record_temps(tokens(split_lines(text)[at])) {
            Some(forecast) => Ok::<TemperatureForecast, DecodeError>(forecast),
            None => Err::<TemperatureForecast, DecodeError>(DecodeError::MissingField("temps")),
        }),
{
    lemma_last_record_found(split_lines(text), at);
}

/// Where a text ends in a record, that record's temperatures are the
/// result, whatever the text holds before it.
pub proof fn lemma_latest_record_overrides(head: Seq<char>, line: Seq<char>)
    requires
        is_line(line),
        is_record(line),
    ensures
        decode_forecast(head + seq!['\n'] + line) == (match record_temps(tokens(line)) {
            Some(forecast) => Ok::<TemperatureForecast, DecodeError>(forecast),
            None => Err::<TemperatureForecast, DecodeError>(DecodeError::MissingField("temps")),
        }),
{
    lemma_split_lines_appended(head, line);
}

/// A text that holds one line only, which is a record, decodes to that
/// record's temperatures.
pub proof fn lemma_single_record(line: Seq<char>)
    requires
        is_line(line),
        is_record(line),
    ensures
        decode_forecast(line) == (match record_temps(tokens(line)) {
            Some(forecast) => Ok::<TemperatureForecast, DecodeError>(forecast),
            None => Err::<TemperatureForecast, DecodeError>(DecodeError::MissingField("temps")),
        }),
{
    lemma_split_lines_single(line);
}

} // verus!
