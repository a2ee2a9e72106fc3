//! Validation of the relay and tunnel options that the command-line front
//! end collects: port and transport-protocol constraints, and WireGuard
//! keys.

use vstd::prelude::*;
use vstd::string::*;

verus! {

/// The front-end command that manages relay and tunnel constraints.
pub struct Relay;

/// A constraint on one relay selection parameter: either anything goes, or
/// exactly one value is allowed.
#[derive(Debug, Clone, Copy, PartialEq, Eq, Structural)]
pub enum Constraint<T> {
    /// Any value is acceptable.
    Any,
    /// Only this value is acceptable.
    Only(T),
}

/// The transport protocol of a relay endpoint.
#[derive(Debug, Clone, Copy, PartialEq, Eq, Structural)]
pub enum TransportProtocol {
    Udp,
    Tcp,
}

/// An error of the command front end: the input did not describe a valid
/// option, with a message for the user.
#[derive(Debug, Clone, PartialEq, Eq)]
pub enum CommandError {
    InvalidCommand(&'static str),
}

/// ASCII upper-case letters fold to lower case; every other byte stays.
pub open spec fn ascii_lower(b: u8) -> u8 {
    if 65 <= b <= 90 {
        (b + 32) as u8
    } else {
        b
    }
}

/// The bytes of the keyword "any".
pub open spec fn bytes_any() -> Seq<u8> {
    seq![97u8, 110u8, 121u8]
}

/// The bytes of the keyword "udp".
pub open spec fn bytes_udp() -> Seq<u8> {
    seq![117u8, 100u8, 112u8]
}

/// The bytes of the keyword "tcp".
pub open spec fn bytes_tcp() -> Seq<u8> {
    seq![116u8, 99u8, 112u8]
}

/// `s` spells "any" in any ASCII case.
pub open spec fn is_any_keyword(s: Seq<u8>) -> bool {
    s.map_values(|b: u8| ascii_lower(b)) =~= bytes_any()
}

/// Every byte of `s` is a decimal digit.
pub open spec fn all_digits(s: Seq<u8>) -> bool {
    forall|k: int| 0 <= k < s.len() ==> 48 <= #[trigger] s[k] <= 57
}

/// The value of `s` read as a decimal numeral, most significant digit
/// first.
pub open spec fn dec_val(s: Seq<u8>) -> int
    decreases s.len(),
{
    if s.len() == 0 {
        0
    } else {
        dec_val(s.drop_last()) * 10 + (s.last() - 48)
    }
}

/// The digits of a numeral: everything after an optional leading plus
/// sign.
pub open spec fn spec_digits(s: Seq<u8>) -> Seq<u8> {
    if s.len() > 0 && s[0] == 43 {
        s.subrange(1, s.len() as int)
    } else {
        s
    }
}

/// The number that `s` denotes as an unsigned 16-bit decimal numeral, with
/// an optional leading plus sign: `None` when `s` is empty, holds another
/// character, or exceeds the range.
pub open spec fn spec_parse_u16(s: Seq<u8>) -> Option<u16> {
    if spec_digits(s).len() == 0 || !all_digits(spec_digits(s)) {
        None
    } else if dec_val(spec_digits(s)) <= 65535 {
        Some(dec_val(spec_digits(s)) as u16)
    } else {
        None
    }
}

/// A decimal numeral's value is nonnegative.
proof fn lemma_dec_val_nonneg(s: Seq<u8>)
    requires
        all_digits(s),
    ensures
        dec_val(s) >= 0,
    decreases s.len(),
{
    if s.len() > 0 {
        assert(all_digits(s.drop_last()));
        lemma_dec_val_nonneg(s.drop_last());
    }
}

/// Reading more digits never shrinks a numeral's value.
proof fn lemma_dec_val_monotone(s: Seq<u8>, i: int, j: int)
    requires
        all_digits(s),
        0 <= i <= j <= s.len(),
    ensures
        dec_val(s.subrange(0, i)) <= dec_val(s.subrange(0, j)),
    decreases j - i,
{
    if i < j {
        lemma_dec_val_monotone(s, i, j - 1);
        assert(s.subrange(0, j).drop_last() =~= s.subrange(0, j - 1));
        assert(all_digits(s.subrange(0, j - 1)));
        lemma_dec_val_nonneg(s.subrange(0, j - 1));
    }
}

/// Parses an unsigned 16-bit decimal numeral with an optional leading plus
/// sign, exactly as `spec_parse_u16` reads it.
pub fn parse_u16(bytes: &[u8]) -> (r: Option<u16>)
    ensures
        r == spec_parse_u16(bytes@),
{
    let mut start: usize = 0;
    if bytes.len() > 0 && bytes[0] == 43 {
        start = 1;
    }
    let ghost digits = spec_digits(bytes@);
    proof {
        assert(digits =~= bytes@.subrange(start as int, bytes@.len() as int));
    }
    if bytes.len() == start {
        return None;
    }
    let mut acc: u32 = 0;
    let mut i: usize = start;
    while i < bytes.len()
        invariant
            start <= i <= bytes@.len(),
            digits == spec_digits(bytes@),
            digits =~= bytes@.subrange(start as int, bytes@.len() as int),
            all_digits(digits.subrange(0, i - start)),
            acc == dec_val(digits.subrange(0, i - start)),
            acc <= 65535,
        decreases bytes@.len() - i,
    {
        let b = bytes[i];
        proof {
            assert(digits[i - start] == bytes@[i as int]);
        }
        if b < 48 || b > 57 {
            proof {
                assert(!all_digits(digits));
            }
            return None;
        }
        proof {
            assert(digits.subrange(0, i - start + 1).drop_last() =~= digits.subrange(
                0,
                i - start,
            ));
            assert(all_digits(digits.subrange(0, i - start + 1)));
        }
        acc = acc * 10 + (b - 48) as u32;
        if acc > 65535 {
            proof {
                if all_digits(digits) {
                    lemma_dec_val_monotone(digits, i - start + 1, digits.len() as int);
                    assert(digits.subrange(0, digits.len() as int) =~= digits);
                }
            }
            return None;
        }
        i = i + 1;
    }
    proof {
        assert(digits.subrange(0, digits.len() as int) =~= digits);
    }
    Some(acc as u16)
}

/// Folds one byte to ASCII lower case.
fn ascii_lower_byte(b: u8) -> (r: u8)
    ensures
        r == ascii_lower(b),
{
    if 65 <= b && b <= 90 {
        b + 32
    } else {
        b
    }
}

/// Whether `bytes` spells "any" in any ASCII case.
fn matches_any_keyword(bytes: &[u8]) -> (r: bool)
    ensures
        r == is_any_keyword(bytes@),
{
    let r = bytes.len() == 3 && ascii_lower_byte(bytes[0]) == 97 && ascii_lower_byte(bytes[1])
        == 110 && ascii_lower_byte(bytes[2]) == 121;
    proof {
        if r {
            assert(bytes@.map_values(|b: u8| ascii_lower(b)) =~= bytes_any());
        }
    }
    r
}

/// Parses a port constraint: the keyword "any" in any ASCII case, or a
/// decimal port number.  Anything else is rejected with a message.
pub fn parse_port_constraint(raw_port: &str) -> (r: Result<Constraint<u16>, CommandError>)
    ensures
        is_any_keyword(raw_port.spec_bytes()) ==> r == Result::<
            Constraint<u16>,
            CommandError,
        >::Ok(Constraint::Any),
        !is_any_keyword(raw_port.spec_bytes()) ==> match spec_parse_u16(raw_port.spec_bytes()) {
            Some(port) => r == Result::<Constraint<u16>, CommandError>::Ok(
                Constraint::Only(port),
            ),
            None => r is Err,
        },
{
    let bytes = raw_port.as_bytes();
    if matches_any_keyword(bytes) {
        Ok(Constraint::Any)
    } else {
        match parse_u16(bytes) {
            Some(port) => Ok(Constraint::Only(port)),
            None => Err(
                CommandError::InvalidCommand("Invalid port. Must be \"any\" or [0-65535]."),
            ),
        }
    }
}

/// Parses a transport protocol constraint.  The caller limits the possible
/// values, so every other input is outside this function's domain.
pub fn parse_protocol_constraint(raw_protocol: &str) -> (r: Constraint<TransportProtocol>)
    requires
        raw_protocol.spec_bytes() =~= bytes_any() || raw_protocol.spec_bytes() =~= bytes_udp()
            || raw_protocol.spec_bytes() =~= bytes_tcp(),
    ensures
        raw_protocol.spec_bytes() =~= bytes_any() ==> r == Constraint::<TransportProtocol>::Any,
        raw_protocol.spec_bytes() =~= bytes_udp() ==> r == Constraint::Only(
            TransportProtocol::Udp,
        ),
        raw_protocol.spec_bytes() =~= bytes_tcp() ==> r == Constraint::Only(
            TransportProtocol::Tcp,
        ),
{
    let bytes = raw_protocol.as_bytes();
    if bytes.len() == 3 && bytes[0] == 97 && bytes[1] == 110 && bytes[2] == 121 {
        Constraint::Any
    } else if bytes.len() == 3 && bytes[0] == 117 && bytes[1] == 100 && bytes[2] == 112 {
        Constraint::Only(TransportProtocol::Udp)
    } else {
        Constraint::Only(TransportProtocol::Tcp)
    }
}

/// A WireGuard relay cannot use TCP: the tunnel constraint is acceptable
/// unless it pins WireGuard to that transport.
pub fn tunnel_accepts_transport(wireguard: bool, protocol: &Constraint<TransportProtocol>) -> (r:
    bool)
    ensures
        r == !(wireguard && *protocol == Constraint::Only(TransportProtocol::Tcp)),
{
    match protocol {
        Constraint::Only(TransportProtocol::Tcp) => !wireguard,
        _ => true,
    }
}

/// What `str::trim` leaves of a string.
pub uninterp spec fn trimmed_of(s: Seq<char>) -> Seq<char>;

/// What base64's standard-alphabet decode makes of a string: the decoded
/// bytes, or nothing when the string is not valid base64.
pub uninterp spec fn base64_decode_of(s: Seq<char>) -> Option<Seq<u8>>;

/// Relies on str::trim: the result depends on the characters alone, and
/// trimming an empty string leaves it empty.
#[verifier::external_body]
fn trim_str(s: &str) -> (r: &str)
    ensures
        r@ == trimmed_of(s@),
        s@.len() == 0 ==> r@.len() == 0,
{
    s.trim()
}

#[verifier::external_type_specification]
#[verifier::external_body]
pub struct ExDecodeError(base64::DecodeError);

/// Relies on base64's `Engine::decode` with the `STANDARD` engine: the
/// result is a function of the input characters alone, and the decode
/// either yields the decoded bytes or rejects the input.
#[verifier::external_body]
fn base64_decode(s: &str) -> (r: Result<Vec<u8>, base64::DecodeError>)
    ensures
        match base64_decode_of(s@) {
            Some(bytes) => r matches Ok(v) && v@ == bytes,
            None => r is Err,
        },
{
    base64::Engine::decode(&base64::engine::general_purpose::STANDARD, s)
}

impl Relay {
    /// The name of the subcommand that this front end handles.
    pub fn name(&self) -> (r: &'static str)
        ensures
            r@ == "relay"@,
    {
        "relay"
    }

    /// Validates a WireGuard key: the input, with surrounding whitespace
    /// removed, must be valid base64 for exactly 32 bytes.  Returns the key
    /// bytes, or nothing when the input is rejected.
    pub fn validate_wireguard_key(key_str: &str) -> (r: Option<Vec<u8>>)
        ensures
            match base64_decode_of(trimmed_of(key_str@)) {
                Some(bytes) => if bytes.len() == 32 {
                    r matches Some(key) && key@ == bytes
                } else {
                    r is None
                },
                None => r is None,
            },
    {
        let trimmed = trim_str(key_str);
        let decoded = match base64_decode(trimmed) {
            Ok(bytes) => bytes,
            Err(_) => {
                return None;
            },
        };
        if decoded.len() != 32 {
            return None;
        }
        Some(decoded)
    }
}

} // verus!
