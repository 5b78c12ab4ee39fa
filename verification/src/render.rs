//! The persisted configuration document, composed exactly: a pretty-printed
//! JSON object with the configuration's eight fields in order, the level
//! fields written back in their decimal form (hundredths become `1.0`,
//! `0.55`, `2.0`). The shell writes the composed text to disk as it is.

use vstd::prelude::*;
use crate::config::TtsConfig;

verus! {

/// Relies on String::push of std: appends the given char to the end of the
/// string.
pub assume_specification[ String::push ](s: &mut String, ch: char)
    ensures
        final(s)@ == old(s)@ + seq![ch],
;

/// The decimal digit `d` as a character.
pub open spec fn spec_digit(d: int) -> char {
    if d == 0 {
        '0'
    } else if d == 1 {
        '1'
    } else if d == 2 {
        '2'
    } else if d == 3 {
        '3'
    } else if d == 4 {
        '4'
    } else if d == 5 {
        '5'
    } else if d == 6 {
        '6'
    } else if d == 7 {
        '7'
    } else if d == 8 {
        '8'
    } else {
        '9'
    }
}

/// `n` written in decimal, most significant digit first, no leading zeros.
pub open spec fn spec_dec(n: nat) -> Seq<char>
    decreases n,
{
    if n < 10 {
        seq![spec_digit(n as int)]
    } else {
        spec_dec(n / 10) + seq![spec_digit((n % 10) as int)]
    }
}

fn digit_char(d: u32) -> (c: char)
    requires
        d < 10,
    ensures
        c == spec_digit(d as int),
{
    match d {
        0 => '0',
        1 => '1',
        2 => '2',
        3 => '3',
        4 => '4',
        5 => '5',
        6 => '6',
        7 => '7',
        8 => '8',
        _ => '9',
    }
}

/// `n` in decimal.
pub fn dec_u32(n: u32) -> (r: String)
    ensures
        r@ == spec_dec(n as nat),
    decreases n,
{
    if n < 10 {
        let mut r = String::new();
        r.push(digit_char(n));
        proof {
            assert(r@ =~= seq![spec_digit(n as int)]);
        }
        r
    } else {
        let mut r = dec_u32(n / 10);
        r.push(digit_char(n % 10));
        r
    }
}

/// The fractional part of a level in hundredths, as the decimals after the
/// point: nothing left gives `0`, a whole tenth drops its trailing zero,
/// and below a tenth a leading zero is kept.
pub open spec fn spec_frac(f: nat) -> Seq<char> {
    if f == 0 {
        seq!['0']
    } else if f % 10 == 0 {
        spec_dec(f / 10)
    } else if f < 10 {
        seq!['0'] + spec_dec(f)
    } else {
        spec_dec(f)
    }
}

/// A level in hundredths written as its decimal value: `100` is `1.0`,
/// `55` is `0.55`, `150` is `1.5`, `5` is `0.05`.
pub open spec fn spec_level(v: nat) -> Seq<char> {
    spec_dec(v / 100) + seq!['.'] + spec_frac(v % 100)
}

/// A level field's text.
pub fn level_text(v: u32) -> (r: String)
    ensures
        r@ == spec_level(v as nat),
{
    let mut r = dec_u32(v / 100);
    r.push('.');
    let f = v % 100;
    if f == 0 {
        r.push('0');
        proof {
            assert(r@ =~= spec_level(v as nat));
        }
    } else if f % 10 == 0 {
        let tenth = dec_u32(f / 10);
        r.append(tenth.as_str());
    } else if f < 10 {
        r.push('0');
        let rest = dec_u32(f);
        r.append(rest.as_str());
        proof {
            assert(r@ =~= spec_level(v as nat));
        }
    } else {
        let rest = dec_u32(f);
        r.append(rest.as_str());
    }
    r
}

/// One character as it stands inside a JSON string: quote and backslash get
/// their escapes, control characters their `\u00..` form, everything else
/// stands as itself.
pub open spec fn spec_escaped_char(c: char) -> Seq<char> {
    if c == '"' {
        seq!['\\', '"']
    } else if c == '\\' {
        seq!['\\', '\\']
    } else if (c as int) < 32 {
        seq!['\\', 'u', '0', '0', spec_hex_digit(c as int / 16), spec_hex_digit(c as int % 16)]
    } else {
        seq![c]
    }
}

/// The hexadecimal digit `d` as a character (lower case).
pub open spec fn spec_hex_digit(d: int) -> char {
    if d < 10 {
        spec_digit(d)
    } else if d == 10 {
        'a'
    } else if d == 11 {
        'b'
    } else if d == 12 {
        'c'
    } else if d == 13 {
        'd'
    } else if d == 14 {
        'e'
    } else {
        'f'
    }
}

fn hex_digit_char(d: u32) -> (c: char)
    requires
        d < 16,
    ensures
        c == spec_hex_digit(d as int),
{
    if d < 10 {
        digit_char(d)
    } else if d == 10 {
        'a'
    } else if d == 11 {
        'b'
    } else if d == 12 {
        'c'
    } else if d == 13 {
        'd'
    } else if d == 14 {
        'e'
    } else {
        'f'
    }
}

/// A whole string as it stands inside a JSON string.
pub open spec fn spec_escaped(s: Seq<char>) -> Seq<char>
    decreases s.len(),
{
    if s.len() == 0 {
        Seq::<char>::empty()
    } else {
        spec_escaped(s.drop_last()) + spec_escaped_char(s.last())
    }
}

/// Appends `s` to `out` in its escaped form.
fn push_escaped(out: &mut String, s: &str)
    ensures
        final(out)@ == old(out)@ + spec_escaped(s@),
{
    let n = s.unicode_len();
    let mut i: usize = 0;
    while i < n
        invariant
            i <= n,
            n == s@.len(),
            out@ == old(out)@ + spec_escaped(s@.take(i as int)),
        decreases n - i,
    {
        let c = s.get_char(i);
        if c == '"' {
            out.push('\\');
            out.push('"');
        } else if c == '\\' {
            out.push('\\');
            out.push('\\');
        } else if (c as u32) < 32 {
            let code = c as u32;
            out.push('\\');
            out.push('u');
            out.push('0');
            out.push('0');
            out.push(hex_digit_char(code / 16));
            out.push(hex_digit_char(code % 16));
        } else {
            out.push(c);
        }
        proof {
            assert(s@.take(i + 1 as int).drop_last() =~= s@.take(i as int));
            assert(s@.take(i + 1 as int).last() == s@[i as int]);
            assert(out@ =~= old(out)@ + spec_escaped(s@.take(i + 1 as int)));
        }
        i += 1;
    }
    proof {
        assert(s@.take(n as int) =~= s@);
    }
}

/// A boolean field's text.
pub open spec fn spec_bool(b: bool) -> Seq<char> {
    if b {
        "true"@
    } else {
        "false"@
    }
}

fn bool_text(b: bool) -> (r: &'static str)
    ensures
        r@ == spec_bool(b),
{
    if b {
        "true"
    } else {
        "false"
    }
}

/// The whole persisted document for `c`: two-space-indented JSON with the
/// fields in the data model's order.
pub open spec fn spec_config_json(c: TtsConfig) -> Seq<char> {
    "{\n  \"use_file\": "@ + spec_bool(c.use_file) + ",\n  \"play_mode\": "@ + spec_bool(
        c.play_mode,
    ) + ",\n  \"play_mode_text\": \""@ + spec_escaped(c.play_mode_text@)
        + "\",\n  \"last_voice\": \""@ + spec_escaped(c.last_voice@) + "\",\n  \"pitch\": "@
        + spec_level(c.pitch as nat) + ",\n  \"rate\": "@ + spec_level(c.rate as nat)
        + ",\n  \"volume\": "@ + spec_level(c.volume as nat) + ",\n  \"api_port\": "@ + spec_dec(
        c.api_port as nat,
    ) + "\n}"@
}

/// Composes the configuration file's exact text.
pub fn config_json(c: &TtsConfig) -> (r: String)
    ensures
        r@ == spec_config_json(*c),
{
    let mut out = String::from_str("{\n  \"use_file\": ");
    out.append(bool_text(c.use_file));
    out.append(",\n  \"play_mode\": ");
    out.append(bool_text(c.play_mode));
    out.append(",\n  \"play_mode_text\": \"");
    push_escaped(&mut out, c.play_mode_text.as_str());
    out.append("\",\n  \"last_voice\": \"");
    push_escaped(&mut out, c.last_voice.as_str());
    out.append("\",\n  \"pitch\": ");
    let pitch = level_text(c.pitch);
    out.append(pitch.as_str());
    out.append(",\n  \"rate\": ");
    let rate = level_text(c.rate);
    out.append(rate.as_str());
    out.append(",\n  \"volume\": ");
    let volume = level_text(c.volume);
    out.append(volume.as_str());
    out.append(",\n  \"api_port\": ");
    let port = dec_u32(c.api_port as u32);
    out.append(port.as_str());
    out.append("\n}");
    out
}

} // verus!
