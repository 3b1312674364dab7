//! What the command line may ask for on one channel, applied to its configuration.

use vstd::prelude::*;
use vstd::string::StrSliceExecFns;
use crate::channel::Channel;

verus! {

/// The request of the command line for one channel, as it was typed.
#[derive(Clone, Debug, PartialEq, Eq)]
pub struct ChannelOptions {
    /// Keep the channel off the bus.
    pub disable: bool,
    /// Turn loopback mode on; off where the option is absent.
    pub loopback: bool,
    /// Turn listen-only mode on; off where the option is absent.
    pub monitor: bool,
    /// Turn CAN-FD on; off where the option is absent.
    pub fd: bool,
    /// The text given for the bitrate, if any.
    pub bitrate: Option<String>,
    /// The text given for the data bitrate, if any.
    pub data_bitrate: Option<String>,
}

/// Why a request of the command line is refused.
#[derive(Clone, Debug, PartialEq, Eq)]
pub enum OptionsError {
    /// An option has a value that cannot be used; the text says which.
    InvalidArgument(String),
}

/// Whether `c` is one of the decimal digits `0` to `9`.
pub open spec fn is_digit(c: char) -> bool {
    '0' as u32 <= c as u32 <= '9' as u32
}

/// The number that a sequence of decimal digits denotes, the last digit counting least.
pub open spec fn decimal(s: Seq<char>) -> nat
    decreases s.len(),
{
    if s.len() == 0 {
        0
    } else {
        (decimal(s.drop_last()) * 10 + (s.last() as u32 - '0' as u32)) as nat
    }
}

/// Whether every character of `s` is a decimal digit.
pub open spec fn all_digits(s: Seq<char>) -> bool {
    forall|i: int| 0 <= i < s.len() ==> is_digit(#[trigger] s[i])
}

/// The text without the `+` that may stand before the digits of a number.
pub open spec fn unsigned_part(text: Seq<char>) -> Seq<char> {
    if text.len() > 0 && text[0] == '+' {
        text.skip(1)
    } else {
        text
    }
}

/// The number that a text denotes: one or more decimal digits, a `+` before them
/// allowed, and a value that fits 32 bits. Any other text denotes nothing.
pub open spec fn number(text: Seq<char>) -> Option<u32> {
    let digits = unsigned_part(text);
    if digits.len() > 0 && all_digits(digits) && decimal(digits) <= u32::MAX {
        Some(decimal(digits) as u32)
    } else {
        None
    }
}

/// A sequence of digits denotes at least what any of its beginnings denotes.
proof fn lemma_decimal_grows(s: Seq<char>, n: int)
    requires
        0 <= n <= s.len(),
        all_digits(s),
    ensures
        decimal(s.take(n)) <= decimal(s),
    decreases s.len() - n,
{
    if n == s.len() {
        assert(s.take(n) =~= s);
    } else {
        lemma_decimal_grows(s, n + 1);
        assert(s.take(n + 1).drop_last() =~= s.take(n));
        assert(is_digit(s[n]));
        assert(s.take(n + 1).last() == s[n]);
    }
}

/// Reads a number from a text. See [`number`] for the texts that denote one.
pub fn parse_number(text: &str) -> (res: Option<u32>)
    ensures
        res == number(text@),
{
    let len = text.unicode_len();
    let start: usize = if len > 0 && text.get_char(0) == '+' {
        1
    } else {
        0
    };
    if start == len {
        return None;
    }
    let ghost digits = unsigned_part(text@);
    assert(digits =~= text@.skip(start as int));
    let mut value: u64 = 0;
    let mut i: usize = start;
    while i < len
        invariant
            start <= i <= len,
            start < len,
            len == text@.len(),
            digits == unsigned_part(text@),
            digits == text@.skip(start as int),
            all_digits(digits.take(i - start)),
            value == decimal(digits.take(i - start)),
            value <= u32::MAX,
        decreases len - i,
    {
        let c = text.get_char(i);
        let ghost seen = digits.take(i - start + 1);
        assert(c == digits[i - start]);
        if !(c >= '0' && c <= '9') {
            assert(!is_digit(digits[i - start]));
            return None;
        }
        let next: u64 = value * 10 + (c as u32 - '0' as u32) as u64;
        assert(seen.drop_last() =~= digits.take(i - start));
        assert(seen.last() == c);
        assert(next == decimal(seen));
        assert(all_digits(seen)) by {
            assert forall|k: int| 0 <= k < seen.len() implies is_digit(#[trigger] seen[k]) by {
                if k < i - start {
                    assert(seen[k] == digits.take(i - start)[k]);
                }
            }
        }
        if next > u32::MAX as u64 {
            proof {
                if all_digits(digits) {
                    lemma_decimal_grows(digits, i - start + 1);
                }
            }
            return None;
        }
        value = next;
        i += 1;
    }
    assert(digits.take(i - start) =~= digits);
    Some(value as u32)
}

/// The configuration that the request `options` makes of `channel`: the four flags are
/// taken from the request as they are, and a bitrate is replaced where the request
/// gives one.
pub open spec fn applied(channel: Channel, options: ChannelOptions) -> Result<Channel, Seq<char>> {
    let bitrate = match options.bitrate {
        Some(text) => number(text@),
        None => Some(channel.bitrate),
    };
    let data_bitrate = match options.data_bitrate {
        Some(text) => number(text@),
        None => Some(channel.data_bitrate),
    };
    if bitrate is None {
        Err("invalid bitrate value"@)
    } else if data_bitrate is None {
        Err("invalid data_bitrate value"@)
    } else {
        Ok(
            Channel {
                bitrate: bitrate->0,
                enabled: !options.disable,
                loopback: options.loopback,
                monitor: options.monitor,
                fd: options.fd,
                data_bitrate: data_bitrate->0,
            },
        )
    }
}

/// Applies the request of the command line to the configuration of a channel. Fails
/// with `InvalidArgument` and the text `invalid bitrate value` or
/// `invalid data_bitrate value` where the text given for one of them denotes no
/// number, the bitrate being looked at first.
pub fn apply(channel: Channel, options: &ChannelOptions) -> (res: Result<Channel, OptionsError>)
    ensures
        match applied(channel, *options) {
            Ok(config) => res matches Ok(c) && c == config,
            Err(text) => res matches Err(OptionsError::InvalidArgument(t)) && t@ == text,
        },
{
    let mut config = channel;
    config.enabled = !options.disable;
    config.loopback = options.loopback;
    config.monitor = options.monitor;
    config.fd = options.fd;
    match &options.bitrate {
        Some(text) => {
            match parse_number(text.as_str()) {
                Some(bitrate) => {
                    config.bitrate = bitrate;
                },
                None => {
                    return Err(OptionsError::InvalidArgument("invalid bitrate value".to_owned()));
                },
            }
        },
        None => {},
    }
    match &options.data_bitrate {
        Some(text) => {
            match parse_number(text.as_str()) {
                Some(data_bitrate) => {
                    config.data_bitrate = data_bitrate;
                },
                None => {
                    return Err(
                        OptionsError::InvalidArgument("invalid data_bitrate value".to_owned()),
                    );
                },
            }
        },
        None => {},
    }
    Ok(config)
}

} // verus!
