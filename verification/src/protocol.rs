//! The hardware command protocol: encoding of the textual command string and
//! decoding of the hexadecimal response.
//!
//! The write-then-read transaction against the hardware pseudo-file is the
//! caller's business; this module produces the exact request bytes of
//! `"\_SB.AMW3.WMAX 0 <primary> { <sub>, <arg0>, <arg1>, 0 }"` and decodes
//! the raw response bytes (a two-character prefix followed by a base-16
//! value) into a signed integer. The fixed table mapping each semantic
//! operation to its four-tuple of codes lives here too; it must be
//! reproduced exactly for hardware compatibility.

use vstd::prelude::*;

verus! {

use vstd::arithmetic::div_mod::lemma_fundamental_div_mod;
use vstd::slice::slice_subrange;

/// Failure of one command transaction.
#[derive(Clone, Copy, PartialEq, Eq, Structural, Debug)]
pub enum CommandError {
    /// The hardware interface could not be opened, written or read.
    Io,
    /// The response was not a valid hexadecimal value after prefix removal.
    Protocol,
}

/// The four-tuple of codes of one hardware command.
#[derive(Clone, Copy, PartialEq, Eq, Structural, Debug)]
pub struct CommandCode {
    pub primary: u8,
    pub sub: u8,
    pub arg0: u8,
    pub arg1: u8,
}

impl CommandCode {
    /// Query the current boost of the given fan.
    pub fn get_fan_boost(fan: u8) -> (c: CommandCode)
        ensures
            c == (CommandCode { primary: 0x14, sub: 0x0c, arg0: fan, arg1: 0 }),
    {
        CommandCode { primary: 0x14, sub: 0x0c, arg0: fan, arg1: 0 }
    }

    /// Command the given fan to the given boost value.
    pub fn set_fan_boost(fan: u8, value: u8) -> (c: CommandCode)
        ensures
            c == (CommandCode { primary: 0x15, sub: 0x02, arg0: fan, arg1: value }),
    {
        CommandCode { primary: 0x15, sub: 0x02, arg0: fan, arg1: value }
    }

    /// Query the measured speed of the given fan.
    pub fn get_fan_rpm(fan: u8) -> (c: CommandCode)
        ensures
            c == (CommandCode { primary: 0x14, sub: 0x05, arg0: fan, arg1: 0 }),
    {
        CommandCode { primary: 0x14, sub: 0x05, arg0: fan, arg1: 0 }
    }

    /// Query the temperature of the given sensor.
    pub fn get_temp(sensor: u8) -> (c: CommandCode)
        ensures
            c == (CommandCode { primary: 0x14, sub: 0x04, arg0: sensor, arg1: 0 }),
    {
        CommandCode { primary: 0x14, sub: 0x04, arg0: sensor, arg1: 0 }
    }

    /// Query the power mode register.
    pub fn get_power_mode() -> (c: CommandCode)
        ensures
            c == (CommandCode { primary: 0x14, sub: 0x0b, arg0: 0, arg1: 0 }),
    {
        CommandCode { primary: 0x14, sub: 0x0b, arg0: 0, arg1: 0 }
    }

    /// Write the power mode register (0 normal, the sentinel byte for
    /// performance).
    pub fn set_power_mode(mode: u8) -> (c: CommandCode)
        ensures
            c == (CommandCode { primary: 0x15, sub: 0x01, arg0: mode, arg1: 0 }),
    {
        CommandCode { primary: 0x15, sub: 0x01, arg0: mode, arg1: 0 }
    }
}

/// The decimal digits of `n`, most significant first, without leading
/// zeros (`0` is written as one digit).
pub open spec fn dec_digits(n: nat) -> Seq<u8>
    decreases n,
{
    if n < 10 {
        seq![(0x30 + n) as u8]
    } else {
        dec_digits(n / 10).push((0x30 + n % 10) as u8)
    }
}

/// The fixed head of every command string: `\_SB.AMW3.WMAX 0 `.
pub open spec fn command_prefix() -> Seq<u8> {
    seq![
        92, 95, 83, 66, 46, 65, 77, 87, 51, 46, 87, 77, 65, 88, 32,
        48, 32,
    ]
}

/// The ` { ` between the primary code and the argument list.
pub open spec fn command_open() -> Seq<u8> {
    seq![32, 123, 32]
}

/// The `, ` between arguments.
pub open spec fn command_sep() -> Seq<u8> {
    seq![44, 32]
}

/// The `, 0 }` closing the argument list.
pub open spec fn command_close() -> Seq<u8> {
    seq![44, 32, 48, 32, 125]
}

/// The full request bytes of a command.
pub open spec fn command_bytes(c: CommandCode) -> Seq<u8> {
    command_prefix() + dec_digits(c.primary as nat) + command_open() + dec_digits(c.sub as nat)
        + command_sep() + dec_digits(c.arg0 as nat) + command_sep() + dec_digits(c.arg1 as nat)
        + command_close()
}

/// Appends the decimal digits of `n` to `out`.
fn push_decimal(out: &mut Vec<u8>, n: u8)
    ensures
        final(out)@ == old(out)@ + dec_digits(n as nat),
    decreases n,
{
    if n >= 10 {
        push_decimal(out, n / 10);
    }
    out.push(0x30 + n % 10);
    proof {
        assert(out@ =~= old(out)@ + dec_digits(n as nat));
    }
}

/// Encodes a command as the exact textual request understood by the
/// hardware interface.
pub fn encode_command(c: &CommandCode) -> (r: Vec<u8>)
    ensures
        r@ == command_bytes(*c),
{
    let mut v: Vec<u8> = Vec::new();
    v.push(92);
    v.push(95);
    v.push(83);
    v.push(66);
    v.push(46);
    v.push(65);
    v.push(77);
    v.push(87);
    v.push(51);
    v.push(46);
    v.push(87);
    v.push(77);
    v.push(65);
    v.push(88);
    v.push(32);
    v.push(48);
    v.push(32);
    proof {
        assert(v@ =~= command_prefix());
    }
    push_decimal(&mut v, c.primary);
    v.push(32);
    v.push(123);
    v.push(32);
    proof {
        assert(v@ =~= command_prefix() + dec_digits(c.primary as nat) + command_open());
    }
    push_decimal(&mut v, c.sub);
    v.push(44);
    v.push(32);
    proof {
        assert(v@ =~= command_prefix() + dec_digits(c.primary as nat) + command_open()
            + dec_digits(c.sub as nat) + command_sep());
    }
    push_decimal(&mut v, c.arg0);
    v.push(44);
    v.push(32);
    proof {
        assert(v@ =~= command_prefix() + dec_digits(c.primary as nat) + command_open()
            + dec_digits(c.sub as nat) + command_sep() + dec_digits(c.arg0 as nat)
            + command_sep());
    }
    push_decimal(&mut v, c.arg1);
    v.push(44);
    v.push(32);
    v.push(48);
    v.push(32);
    v.push(125);
    proof {
        assert(v@ =~= command_bytes(*c));
    }
    v
}

/// Whether `b` is an ASCII hexadecimal digit (either case).
pub open spec fn is_hex_digit(b: u8) -> bool {
    (48 <= b && b <= 57) || (97 <= b && b <= 102) || (65 <= b && b <= 70)
}

/// The numeric value of a hexadecimal digit.
pub open spec fn hex_digit_val(b: u8) -> nat {
    if 48 <= b && b <= 57 {
        (b - 48) as nat
    } else if 97 <= b && b <= 102 {
        (b - 97 + 10) as nat
    } else {
        (b - 65 + 10) as nat
    }
}

/// Every byte of `s` is a hexadecimal digit.
pub open spec fn all_hex_digits(s: Seq<u8>) -> bool {
    forall|i: int| 0 <= i < s.len() ==> is_hex_digit(#[trigger] s[i])
}

/// The value of `s` read as a base-16 numeral, most significant digit
/// first.
pub open spec fn hex_val(s: Seq<u8>) -> nat
    decreases s.len(),
{
    if s.len() == 0 {
        0
    } else {
        hex_val(s.drop_last()) * 16 + hex_digit_val(s.last())
    }
}

/// The value of a numeral never shrinks as more digits follow.
proof fn lemma_hex_val_prefix_le(s: Seq<u8>, i: int, j: int)
    requires
        0 <= i <= j <= s.len(),
    ensures
        hex_val(s.take(i)) <= hex_val(s.take(j)),
    decreases j - i,
{
    if i < j {
        lemma_hex_val_prefix_le(s, i, j - 1);
        assert(s.take(j).drop_last() =~= s.take(j - 1));
    }
}

fn hex_digit_value(b: u8) -> (r: Option<u8>)
    ensures
        match r {
            Some(v) => is_hex_digit(b) && v == hex_digit_val(b),
            None => !is_hex_digit(b),
        },
{
    if b >= 48 && b <= 57 {
        Some(b - 48)
    } else if b >= 97 && b <= 102 {
        Some(b - 97 + 10)
    } else if b >= 65 && b <= 70 {
        Some(b - 65 + 10)
    } else {
        None
    }
}

/// Parses a base-16 numeral. Succeeds exactly when the input is nonempty,
/// every byte is a hexadecimal digit, and the value fits a signed 64-bit
/// integer; everything else is a protocol error.
pub fn parse_hex(digits: &[u8]) -> (r: Result<i64, CommandError>)
    ensures
        match r {
            Ok(v) => {
                &&& digits@.len() > 0
                &&& all_hex_digits(digits@)
                &&& hex_val(digits@) <= 0x7fff_ffff_ffff_ffff
                &&& v == hex_val(digits@)
            },
            Err(e) => {
                &&& e == CommandError::Protocol
                &&& (digits@.len() == 0 || !all_hex_digits(digits@) || hex_val(digits@)
                    > 0x7fff_ffff_ffff_ffff)
            },
        },
{
    let n = digits.len();
    if n == 0 {
        return Err(CommandError::Protocol);
    }
    let mut acc: u64 = 0;
    let mut i: usize = 0;
    proof {
        assert(digits@.take(0) =~= Seq::<u8>::empty());
    }
    while i < n
        invariant
            n == digits@.len(),
            i <= n,
            all_hex_digits(digits@.take(i as int)),
            acc == hex_val(digits@.take(i as int)),
            acc <= 0x7fff_ffff_ffff_ffff,
        decreases n - i,
    {
        let b = digits[i];
        match hex_digit_value(b) {
            Some(d) => {
                proof {
                    lemma_fundamental_div_mod(0x7fff_ffff_ffff_ffff - d, 16);
                    assert(digits@.take(i as int + 1).drop_last() =~= digits@.take(i as int));
                    assert(digits@.take(i as int + 1).last() == digits@[i as int]);
                }
                if acc > (0x7fff_ffff_ffff_ffffu64 - d as u64) / 16 {
                    proof {
                        assert(hex_val(digits@.take(i as int + 1)) > 0x7fff_ffff_ffff_ffff);
                        lemma_hex_val_prefix_le(digits@, i as int + 1, n as int);
                        assert(digits@.take(n as int) =~= digits@);
                    }
                    return Err(CommandError::Protocol);
                }
                acc = acc * 16 + d as u64;
                i = i + 1;
            },
            None => {
                proof {
                    assert(!is_hex_digit(digits@[i as int]));
                }
                return Err(CommandError::Protocol);
            },
        }
    }
    proof {
        assert(digits@.take(n as int) =~= digits@);
    }
    Ok(acc as i64)
}

/// Decodes a raw hardware response: strips the fixed two-character prefix
/// and parses the remainder as a base-16 value. Succeeds exactly when at
/// least one digit follows the prefix, all following bytes are hexadecimal
/// digits, and the value fits a signed 64-bit integer.
pub fn decode_response(resp: &[u8]) -> (r: Result<i64, CommandError>)
    ensures
        match r {
            Ok(v) => {
                &&& resp@.len() > 2
                &&& all_hex_digits(resp@.skip(2))
                &&& hex_val(resp@.skip(2)) <= 0x7fff_ffff_ffff_ffff
                &&& v == hex_val(resp@.skip(2))
            },
            Err(e) => {
                &&& e == CommandError::Protocol
                &&& (resp@.len() <= 2 || !all_hex_digits(resp@.skip(2)) || hex_val(resp@.skip(2))
                    > 0x7fff_ffff_ffff_ffff)
            },
        },
{
    if resp.len() <= 2 {
        return Err(CommandError::Protocol);
    }
    let tail = slice_subrange(resp, 2, resp.len());
    proof {
        assert(resp@.subrange(2, resp@.len() as int) =~= resp@.skip(2));
    }
    parse_hex(tail)
}

} // verus!
