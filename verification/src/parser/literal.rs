//! The decoders that turn the text of one token into a value.

use crate::error::{illegal_grammar, result_view, Error, ErrorView};
use crate::pattern::{Comparator, UnboundVariable, UnboundVariableView};
use crate::temporal::{
    chrono_date, chrono_date_time, parse_naive_date, parse_naive_date_time, Date, DateTime,
};
use crate::text::{
    chars_of, count_char, find_char, lemma_occurrences_zero, lemma_position_bounds, occurrences,
    parse_digits, position, signed_decimal, text_of, unsigned_decimal,
};
use vstd::prelude::*;
use vstd::string::*;

verus! {

/// The text between the first and the last character of `text`.
pub open spec fn unquoted(text: Seq<char>) -> Seq<char> {
    text.subrange(1, text.len() - 1)
}

/// `text` with every backslash that a slash follows left out, read from the
/// left; all other characters stay as they are.
pub open spec fn unescaped(text: Seq<char>) -> Seq<char>
    decreases text.len(),
{
    if text.len() == 0 {
        Seq::empty()
    } else if text.len() >= 2 && text[0] == '\\' && text[1] == '/' {
        seq!['/'] + unescaped(text.skip(2))
    } else {
        seq![text[0]] + unescaped(text.skip(1))
    }
}

/// Whether `text` holds a backslash with a slash right behind it.
pub open spec fn has_escaped_slash(text: Seq<char>) -> bool {
    exists|i: int| 0 <= i && i + 1 < text.len() && text[i] == '\\' && #[trigger] text[i + 1] == '/'
}

/// What a string token stands for: `Err` where the token is too short to
/// have two quotes.
pub open spec fn string_of(token: Seq<char>) -> Result<Seq<char>, ErrorView> {
    if token.len() >= 2 {
        Ok(unquoted(token))
    } else {
        Err(illegal_grammar(token))
    }
}

/// What a string token stands for as a regular expression.
pub open spec fn regex_of(token: Seq<char>) -> Result<Seq<char>, ErrorView> {
    if token.len() >= 2 {
        Ok(unescaped(unquoted(token)))
    } else {
        Err(illegal_grammar(token))
    }
}

/// The 64-bit signed integer that `text` denotes in decimal: `Err` where
/// `text` is no decimal numeral, or denotes a number out of range.
pub open spec fn long_of(text: Seq<char>) -> Result<i64, ErrorView> {
    match signed_decimal(text) {
        Some(n) => if i64::MIN <= n <= i64::MAX {
            Ok(n as i64)
        } else {
            Err(illegal_grammar(text))
        },
        None => Err(illegal_grammar(text)),
    }
}

/// The count that `text` denotes: a 64-bit signed integer that is not
/// negative.
pub open spec fn count_of(text: Seq<char>) -> Result<u64, ErrorView> {
    match long_of(text) {
        Ok(n) => if n >= 0 {
            Ok(n as u64)
        } else {
            Err(illegal_grammar(text))
        },
        Err(error) => Err(error),
    }
}

/// What was found, or the error that reports `text` where nothing was.
pub open spec fn found_or_illegal<T>(found: Option<T>, text: Seq<char>) -> Result<T, ErrorView> {
    match found {
        Some(value) => Ok(value),
        None => Err(illegal_grammar(text)),
    }
}

/// The calendar date that `text` denotes, written as year, month and day.
pub open spec fn date_of(text: Seq<char>) -> Result<Date, ErrorView> {
    found_or_illegal(chrono_date(text, "%Y-%m-%d"@), text)
}

/// `fraction` with zeros behind it, nine characters in all.
pub open spec fn padded_fraction(fraction: Seq<char>) -> Seq<char>
    recommends
        fraction.len() <= 9,
{
    fraction + Seq::new((9 - fraction.len()) as nat, |i: int| '0')
}

/// The nanoseconds that the digits behind the dot of a date-time denote:
/// `fraction` is padded with zeros to nine characters and read as an unsigned
/// decimal numeral. `None` where it is longer than that, or no numeral.
pub open spec fn nanoseconds_of(fraction: Seq<char>) -> Option<u32> {
    if fraction.len() > 9 {
        None
    } else {
        match unsigned_decimal(padded_fraction(fraction)) {
            Some(n) => if n <= u32::MAX {
                Some(n as u32)
            } else {
                None
            },
            None => None,
        }
    }
}

/// How a date-time is written: to the minute, to the second, or with a
/// fraction of the second behind a dot that stands at the given index.
#[derive(Debug, Clone, Copy, PartialEq, Eq)]
pub enum DateTimeShape {
    Minutes,
    Seconds,
    Fraction(usize),
}

/// How the date-time `text` is written. With two colons it has seconds, else
/// it ends with the minutes. With seconds and one dot, the dot parts the
/// fraction from the rest.
pub open spec fn date_time_shape(text: Seq<char>) -> DateTimeShape {
    if occurrences(text, ':') == 2 {
        if occurrences(text, '.') == 1 {
            DateTimeShape::Fraction(position(text, '.') as usize)
        } else {
            DateTimeShape::Seconds
        }
    } else {
        DateTimeShape::Minutes
    }
}

/// A date-time read to the second, with its nanoseconds replaced by those that
/// `fraction` denotes. `None` where either is missing.
pub open spec fn with_fraction(date_time: Option<DateTime>, fraction: Seq<char>) -> Option<
    DateTime,
> {
    match date_time {
        Some(date_time) => match nanoseconds_of(fraction) {
            Some(nanosecond) => date_time.with_nanosecond_spec(nanosecond),
            None => None,
        },
        None => None,
    }
}

/// The date-time that `text` denotes: what is written to the minute or to the
/// second is read as such; of a text with a fraction, what stands before the
/// dot is read to the second, and what stands behind it gives the nanoseconds.
pub open spec fn date_time_parsed(text: Seq<char>) -> Option<DateTime> {
    match date_time_shape(text) {
        DateTimeShape::Minutes => chrono_date_time(text, "%Y-%m-%dT%H:%M"@),
        DateTimeShape::Seconds => chrono_date_time(text, "%Y-%m-%dT%H:%M:%S"@),
        DateTimeShape::Fraction(dot) => with_fraction(
            chrono_date_time(text.take(dot as int), "%Y-%m-%dT%H:%M:%S"@),
            text.skip(dot + 1),
        ),
    }
}

/// The date-time that `text` denotes, or the error that reports `text`.
pub open spec fn date_time_of(text: Seq<char>) -> Result<DateTime, ErrorView> {
    found_or_illegal(date_time_parsed(text), text)
}

/// Whether `text` has the shape of a variable token: the sigil `$`, then one
/// character or more.
pub open spec fn is_variable_text(text: Seq<char>) -> bool {
    text.len() >= 2 && text[0] == '$'
}

/// The variable that a variable token stands for: what follows the sigil
/// is its name, and the name `_` stands for the anonymous variable.
pub open spec fn variable_named(text: Seq<char>) -> UnboundVariableView {
    let name = text.skip(1);
    if name == seq!['_'] {
        UnboundVariableView::Anonymous
    } else {
        UnboundVariableView::Named(name)
    }
}

/// The variable that `text` stands for, or the error that reports `text` where
/// it has not the shape of a variable token.
pub open spec fn variable_of(text: Seq<char>) -> Result<UnboundVariableView, ErrorView> {
    if is_variable_text(text) {
        Ok(variable_named(text))
    } else {
        Err(illegal_grammar(text))
    }
}

/// The comparison that an operator token stands for.
pub open spec fn comparator_of(text: Seq<char>) -> Result<Comparator, ErrorView> {
    if text == seq!['='] {
        Ok(Comparator::Eq)
    } else if text == seq!['!', '='] {
        Ok(Comparator::Neq)
    } else if text == seq!['>'] {
        Ok(Comparator::Gt)
    } else if text == seq!['>', '='] {
        Ok(Comparator::Gte)
    } else if text == seq!['<'] {
        Ok(Comparator::Lt)
    } else if text == seq!['<', '='] {
        Ok(Comparator::Lte)
    } else {
        Err(illegal_grammar(text))
    }
}

/// Strips the first and the last character of a quoted string.
pub fn unquote_string(quoted_string: &str) -> (string: String)
    requires
        quoted_string@.len() >= 2,
    ensures
        string@ == unquoted(quoted_string@),
{
    let chars = chars_of(quoted_string);
    text_of(&chars, 1, chars.len() - 1)
}

/// Decodes a string token: the text between its quotes.
pub fn get_string(string: &str) -> (result: Result<String, Error>)
    ensures
        result_view(result) == string_of(string@),
{
    let chars = chars_of(string);
    if chars.len() >= 2 {
        Ok(text_of(&chars, 1, chars.len() - 1))
    } else {
        Err(Error::illegal_grammar(string))
    }
}

/// The characters `chars[start..end]` with every escaped slash replaced by a
/// slash.
fn unescape_chars(chars: &Vec<char>, start: usize, end: usize) -> (regex: String)
    requires
        start <= end <= chars.len(),
    ensures
        regex@ == unescaped(chars@.subrange(start as int, end as int)),
{
    let ghost text = chars@.subrange(start as int, end as int);
    let mut regex = String::new();
    let mut i: usize = start;
    assert(text.skip(0) =~= text);
    assert(regex@ + unescaped(text) =~= unescaped(text));
    while i < end
        invariant
            start <= i <= end <= chars.len(),
            text == chars@.subrange(start as int, end as int),
            unescaped(text) == regex@ + unescaped(text.skip(i - start)),
        decreases end - i,
    {
        let ghost rest = text.skip(i - start);
        let ghost before = regex@;
        assert(rest[0] == chars@[i as int]);
        if chars[i] == '\\' && i + 1 < end && chars[i + 1] == '/' {
            assert(rest[1] == chars@[i + 1]);
            assert(rest.skip(2) =~= text.skip(i + 2 - start));
            regex.push('/');
            i += 2;
            assert(regex@ + unescaped(text.skip(i - start)) =~= before + (seq!['/'] + unescaped(
                rest.skip(2),
            )));
        } else {
            assert(rest.len() >= 2 && rest[0] == '\\' ==> rest[1] == chars@[i + 1]);
            assert(rest.skip(1) =~= text.skip(i + 1 - start));
            regex.push(chars[i]);
            i += 1;
            assert(regex@ + unescaped(text.skip(i - start)) =~= before + (seq![rest[0]]
                + unescaped(rest.skip(1))));
        }
    }
    assert(regex@ + Seq::<char>::empty() =~= regex@);
    regex
}

/// Replaces every escaped slash of a regular expression by a slash.
pub fn unescape_regex(regex: &str) -> (unescaped_regex: String)
    ensures
        unescaped_regex@ == unescaped(regex@),
{
    let chars = chars_of(regex);
    assert(chars@.subrange(0, chars@.len() as int) =~= chars@);
    unescape_chars(&chars, 0, chars.len())
}

/// Decodes a string token that holds a regular expression.
pub fn get_regex(string: &str) -> (result: Result<String, Error>)
    ensures
        result_view(result) == regex_of(string@),
{
    let chars = chars_of(string);
    if chars.len() >= 2 {
        Ok(unescape_chars(&chars, 1, chars.len() - 1))
    } else {
        Err(Error::illegal_grammar(string))
    }
}

/// Decodes an integer token.
pub fn get_long(long: &str) -> (result: Result<i64, Error>)
    ensures
        result_view(result) == long_of(long@),
{
    let chars = chars_of(long);
    let negative = chars.len() > 0 && chars[0] == '-';
    let signed = chars.len() > 0 && (chars[0] == '-' || chars[0] == '+');
    let start: usize = if signed {
        1
    } else {
        0
    };
    let limit: u64 = if negative {
        0x8000_0000_0000_0000
    } else {
        0x7fff_ffff_ffff_ffff
    };
    assert(chars@.skip(0) =~= chars@);
    match parse_digits(&chars, start, limit) {
        None => Err(Error::illegal_grammar(long)),
        Some(magnitude) => {
            if !negative {
                Ok(magnitude as i64)
            } else if magnitude == 0x8000_0000_0000_0000 {
                Ok(i64::MIN)
            } else {
                Ok(-(magnitude as i64))
            }
        },
    }
}

/// Decodes an integer token that counts something: the integer may not be
/// negative.
pub fn get_count(long: &str) -> (result: Result<u64, Error>)
    ensures
        result_view(result) == count_of(long@),
{
    match get_long(long) {
        Ok(n) => {
            if n >= 0 {
                Ok(n as u64)
            } else {
                Err(Error::illegal_grammar(long))
            }
        },
        Err(error) => Err(error),
    }
}

/// What was found, or the error that reports `text` where nothing was.
pub fn found_or_error<T: DeepView>(found: Option<T>, text: &str) -> (result: Result<T, Error>)
    ensures
        result_view(result) == found_or_illegal(found.deep_view(), text@),
{
    match found {
        Some(value) => Ok(value),
        None => Err(Error::illegal_grammar(text)),
    }
}

/// Decodes a date token.
pub fn get_date(date: &str) -> (result: Result<Date, Error>)
    ensures
        result_view(result) == date_of(date@),
{
    found_or_error(parse_naive_date(date, "%Y-%m-%d"), date)
}

/// Reads the digits behind the dot of a date-time as nanoseconds.
pub fn parse_nanoseconds(chars: &Vec<char>, start: usize) -> (nanosecond: Option<u32>)
    requires
        start <= chars.len(),
    ensures
        nanosecond == nanoseconds_of(chars@.skip(start as int)),
{
    if chars.len() - start > 9 {
        return None;
    }
    let ghost fraction = chars@.skip(start as int);
    let mut padded: Vec<char> = Vec::new();
    let mut i: usize = start;
    while i < chars.len()
        invariant
            start <= i <= chars.len(),
            fraction == chars@.skip(start as int),
            padded@ == fraction.take(i - start),
        decreases chars.len() - i,
    {
        padded.push(chars[i]);
        i += 1;
        assert(padded@ =~= fraction.take(i - start));
    }
    assert(fraction.take(fraction.len() as int) =~= fraction);
    while padded.len() < 9
        invariant
            fraction.len() <= padded.len() <= 9,
            padded@ == fraction + Seq::new((padded.len() - fraction.len()) as nat, |i: int| '0'),
        decreases 9 - padded.len(),
    {
        padded.push('0');
        assert(padded@ =~= fraction + Seq::new(
            (padded.len() - fraction.len()) as nat,
            |i: int| '0',
        ));
    }
    let digits_start: usize = if padded[0] == '+' {
        1
    } else {
        0
    };
    assert(padded@.skip(0) =~= padded@);
    match parse_digits(&padded, digits_start, 0xffff_ffff) {
        Some(n) => Some(n as u32),
        None => None,
    }
}

/// Tells how a date-time is written.
pub fn shape_of_date_time(chars: &Vec<char>) -> (shape: DateTimeShape)
    ensures
        shape == date_time_shape(chars@),
        shape matches DateTimeShape::Fraction(dot) ==> dot < chars.len(),
{
    let has_seconds = count_char(chars, ':') == 2;
    if has_seconds {
        let has_nanos = count_char(chars, '.') == 1;
        if has_nanos {
            proof {
                lemma_occurrences_zero(chars@, '.');
                lemma_position_bounds(chars@, '.');
            }
            DateTimeShape::Fraction(find_char(chars, '.'))
        } else {
            DateTimeShape::Seconds
        }
    } else {
        DateTimeShape::Minutes
    }
}

/// Replaces the nanoseconds of a date-time that was read to the second by
/// those that the digits `chars[start..]` denote.
pub fn attach_fraction(date_time: Option<DateTime>, chars: &Vec<char>, start: usize) -> (result:
    Option<DateTime>)
    requires
        start <= chars.len(),
    ensures
        result == with_fraction(date_time, chars@.skip(start as int)),
{
    match date_time {
        Some(date_time) => match parse_nanoseconds(chars, start) {
            Some(nanosecond) => date_time.with_nanosecond(nanosecond),
            None => None,
        },
        None => None,
    }
}

/// Reads a date-time that ends with the minutes, with the seconds, or with a
/// fraction of the second.
pub fn parse_date_time(date_time_text: &str) -> (date_time: Option<DateTime>)
    ensures
        date_time == date_time_parsed(date_time_text@),
{
    let chars = chars_of(date_time_text);
    match shape_of_date_time(&chars) {
        DateTimeShape::Minutes => parse_naive_date_time(date_time_text, "%Y-%m-%dT%H:%M"),
        DateTimeShape::Seconds => parse_naive_date_time(date_time_text, "%Y-%m-%dT%H:%M:%S"),
        DateTimeShape::Fraction(dot) => {
            let head = text_of(&chars, 0, dot);
            let to_the_second = parse_naive_date_time(head.as_str(), "%Y-%m-%dT%H:%M:%S");
            attach_fraction(to_the_second, &chars, dot + 1)
        },
    }
}

/// Decodes a date-time token.
pub fn get_date_time(date_time: &str) -> (result: Result<DateTime, Error>)
    ensures
        result_view(result) == date_time_of(date_time@),
{
    found_or_error(parse_date_time(date_time), date_time)
}

/// Whether `var` has the shape of a variable token.
pub fn is_var(var: &str) -> (yes: bool)
    ensures
        yes == is_variable_text(var@),
{
    let chars = chars_of(var);
    chars.len() >= 2 && chars[0] == '$'
}

/// The variable that the characters of a variable token stand for.
fn var_of_chars(chars: &Vec<char>) -> (variable: UnboundVariable)
    requires
        is_variable_text(chars@),
    ensures
        variable.deep_view() == variable_named(chars@),
        variable.deep_view().well_formed(),
{
    let ghost name = chars@.skip(1);
    if chars.len() == 2 && chars[1] == '_' {
        assert(name =~= seq!['_']);
        UnboundVariable::anonymous()
    } else {
        assert(name != seq!['_']) by {
            if name == seq!['_'] {
                assert(name.len() == 1);
                assert(name[0] == '_');
            }
        }
        assert(chars@.subrange(1, chars@.len() as int) =~= name);
        UnboundVariable::named(text_of(chars, 1, chars.len()))
    }
}

/// Decodes a variable token, which starts with the sigil and has a character
/// or more behind it.
pub fn get_var(var: &str) -> (variable: UnboundVariable)
    requires
        is_variable_text(var@),
    ensures
        variable.deep_view() == variable_named(var@),
        variable.deep_view().well_formed(),
{
    let chars = chars_of(var);
    var_of_chars(&chars)
}

/// Decodes a variable token where its shape is not known yet.
pub fn decode_var(var: &str) -> (result: Result<UnboundVariable, Error>)
    ensures
        result_view(result) == variable_of(var@),
        result matches Ok(variable) ==> variable.deep_view().well_formed(),
{
    let chars = chars_of(var);
    if chars.len() >= 2 && chars[0] == '$' {
        Ok(var_of_chars(&chars))
    } else {
        Err(Error::illegal_grammar(var))
    }
}

/// Decodes the operator token of a comparison.
pub fn get_comparator(operator: &str) -> (result: Result<Comparator, Error>)
    ensures
        result_view(result) == comparator_of(operator@),
{
    let chars = chars_of(operator);
    let second_is_equals = chars.len() == 2 && chars[1] == '=';
    if chars.len() == 1 && chars[0] == '=' {
        assert(chars@ =~= seq!['=']);
        Ok(Comparator::Eq)
    } else if second_is_equals && chars[0] == '!' {
        assert(chars@ =~= seq!['!', '=']);
        Ok(Comparator::Neq)
    } else if chars.len() == 1 && chars[0] == '>' {
        assert(chars@ =~= seq!['>']);
        Ok(Comparator::Gt)
    } else if second_is_equals && chars[0] == '>' {
        assert(chars@ =~= seq!['>', '=']);
        Ok(Comparator::Gte)
    } else if chars.len() == 1 && chars[0] == '<' {
        assert(chars@ =~= seq!['<']);
        Ok(Comparator::Lt)
    } else if second_is_equals && chars[0] == '<' {
        assert(chars@ =~= seq!['<', '=']);
        Ok(Comparator::Lte)
    } else {
        proof {
            let text = chars@;
            if text == seq!['='] || text == seq!['>'] || text == seq!['<'] {
                assert(text.len() == 1);
                assert(text[0] == seq!['='][0] || text[0] == seq!['>'][0] || text[0] == seq!['<'][0]);
            }
            if text == seq!['!', '='] || text == seq!['>', '='] || text == seq!['<', '='] {
                assert(text.len() == 2);
                assert(text[1] == '=');
                assert(text[0] == seq!['!', '='][0] || text[0] == seq!['>', '='][0] || text[0]
                    == seq!['<', '='][0]);
            }
        }
        Err(Error::illegal_grammar(operator))
    }
}

} // verus!
