//! JSON serialization of an observation record, for the body of the
//! downstream request.
//!
//! The record is rendered as one JSON object with its four fields in a fixed
//! order. String values are escaped as JSON requires: the quote and the
//! backslash get a backslash escape, control characters become `\u00XX`, and
//! every other character stands for itself.

use vstd::prelude::*;
use vstd::string::StrSliceExecFns;
use vstd::string::StringExecFns;
use crate::decimal::int_digits;
use crate::decimal::i32_to_string;
use crate::text::push_char;
use crate::tweet::WeatherTweet;

verus! {

/// The character for one hexadecimal digit, lower case.
pub open spec fn hex_digit_char(d: nat) -> char {
    if d == 0 {
        '0'
    } else if d == 1 {
        '1'
    } else if d == 2 {
        '2'
    } else if d == 3 {
        '3'
    } else if d == 4 {
        '4'
    } else if d == 5 {
        '5'
    } else if d == 6 {
        '6'
    } else if d == 7 {
        '7'
    } else if d == 8 {
        '8'
    } else if d == 9 {
        '9'
    } else if d == 10 {
        'a'
    } else if d == 11 {
        'b'
    } else if d == 12 {
        'c'
    } else if d == 13 {
        'd'
    } else if d == 14 {
        'e'
    } else {
        'f'
    }
}

/// How one character appears inside a JSON string literal.
pub open spec fn esc_char(c: char) -> Seq<char> {
    if c == '"' {
        seq!['\\', '"']
    } else if c == '\\' {
        seq!['\\', '\\']
    } else if (c as u32) < 32 {
        seq![
            '\\',
            'u',
            '0',
            '0',
            hex_digit_char(((c as u32) / 16) as nat),
            hex_digit_char(((c as u32) % 16) as nat),
        ]
    } else {
        seq![c]
    }
}

/// A character sequence escaped for use inside a JSON string literal.
pub open spec fn json_escaped(s: Seq<char>) -> Seq<char>
    decreases s.len(),
{
    if s.len() == 0 {
        Seq::empty()
    } else {
        json_escaped(s.drop_last()) + esc_char(s.last())
    }
}

/// A JSON string literal: the escaped characters between quotes.
pub open spec fn json_string(s: Seq<char>) -> Seq<char> {
    seq!['"'] + json_escaped(s) + seq!['"']
}

/// The JSON object for an observation record.
pub open spec fn tweet_json(
    municipality: Seq<char>,
    temperature: int,
    humidity: int,
    weather: Seq<char>,
) -> Seq<char> {
    "{\"municipality\":"@ + json_string(municipality) + ",\"temperature\":"@ + int_digits(
        temperature,
    ) + ",\"humidity\":"@ + int_digits(humidity) + ",\"weather\":"@ + json_string(weather) + "}"@
}

fn hex_digit(d: u32) -> (c: char)
    requires
        d < 16,
    ensures
        c == hex_digit_char(d as nat),
{
    if d == 0 {
        '0'
    } else if d == 1 {
        '1'
    } else if d == 2 {
        '2'
    } else if d == 3 {
        '3'
    } else if d == 4 {
        '4'
    } else if d == 5 {
        '5'
    } else if d == 6 {
        '6'
    } else if d == 7 {
        '7'
    } else if d == 8 {
        '8'
    } else if d == 9 {
        '9'
    } else if d == 10 {
        'a'
    } else if d == 11 {
        'b'
    } else if d == 12 {
        'c'
    } else if d == 13 {
        'd'
    } else if d == 14 {
        'e'
    } else {
        'f'
    }
}

fn append_escaped_char(r: &mut String, c: char)
    ensures
        final(r)@ == old(r)@ + esc_char(c),
{
    if c == '"' {
        push_char(r, '\\');
        push_char(r, '"');
        proof {
            assert(final(r)@ =~= old(r)@ + esc_char(c));
        }
    } else if c == '\\' {
        push_char(r, '\\');
        push_char(r, '\\');
        proof {
            assert(final(r)@ =~= old(r)@ + esc_char(c));
        }
    } else {
        let code = c as u32;
        if code < 32 {
            push_char(r, '\\');
            push_char(r, 'u');
            push_char(r, '0');
            push_char(r, '0');
            push_char(r, hex_digit(code / 16));
            push_char(r, hex_digit(code % 16));
            proof {
                assert(final(r)@ =~= old(r)@ + esc_char(c));
            }
        } else {
            push_char(r, c);
            proof {
                assert(final(r)@ =~= old(r)@ + esc_char(c));
            }
        }
    }
}

/// Escapes a string for use inside a JSON string literal.
pub fn escape_json(s: &str) -> (r: String)
    ensures
        r@ == json_escaped(s@),
{
    let len = s.unicode_len();
    let mut r = String::new();
    let mut i: usize = 0;
    while i < len
        invariant
            len == s@.len(),
            i <= len,
            r@ == json_escaped(s@.subrange(0, i as int)),
        decreases len - i,
    {
        let c = s.get_char(i);
        append_escaped_char(&mut r, c);
        proof {
            assert(s@.subrange(0, i + 1 as int).drop_last() =~= s@.subrange(0, i as int));
            assert(s@.subrange(0, i + 1 as int).last() == s@[i as int]);
        }
        i = i + 1;
    }
    proof {
        assert(s@.subrange(0, len as int) =~= s@);
    }
    r
}

/// Serializes an observation record to its JSON object.
pub fn tweet_to_json(tweet: &WeatherTweet) -> (r: String)
    ensures
        r@ == tweet_json(
            tweet.municipality@,
            tweet.temperature as int,
            tweet.humidity as int,
            tweet.weather@,
        ),
{
    let mut r = String::from_str("{\"municipality\":");
    push_char(&mut r, '"');
    let m = escape_json(tweet.municipality.as_str());
    r.append(m.as_str());
    push_char(&mut r, '"');
    r.append(",\"temperature\":");
    let temp = i32_to_string(tweet.temperature);
    r.append(temp.as_str());
    r.append(",\"humidity\":");
    let hum = i32_to_string(tweet.humidity);
    r.append(hum.as_str());
    r.append(",\"weather\":");
    push_char(&mut r, '"');
    let w = escape_json(tweet.weather.as_str());
    r.append(w.as_str());
    push_char(&mut r, '"');
    r.append("}");
    proof {
        assert(r@ =~= tweet_json(
            tweet.municipality@,
            tweet.temperature as int,
            tweet.humidity as int,
            tweet.weather@,
        ));
    }
    r
}

} // verus!
