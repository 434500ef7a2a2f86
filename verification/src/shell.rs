//! Helpers of the desktop shell: which product an executable is, and the
//! Wake-on-LAN packet it broadcasts for a MAC address.

use vstd::prelude::*;

use crate::text::{contains_text, lowercase, seq_contains, to_lowercase};
use vstd::string::StringSliceAdditionalSpecFns;
use vstd::utf8::is_continuation_byte;

verus! {

/// Whether an executable file name is the player's: its lower-cased name
/// contains "player" or "pulse".
pub fn is_player_executable(file_name: &str) -> (r: bool)
    ensures
        r == (seq_contains(lowercase(file_name@), "player"@) || seq_contains(
            lowercase(file_name@),
            "pulse"@,
        )),
{
    let lower = to_lowercase(file_name);
    contains_text(lower.as_str(), "player") || contains_text(lower.as_str(), "pulse")
}

/// Why a MAC address was refused.
#[derive(Debug, Clone, Copy, PartialEq, Eq, Structural)]
pub enum WolError {
    /// Without separators the address is not 12 bytes long.
    WrongLength,
    /// A pair of characters is not a hexadecimal byte.
    InvalidByte,
}

impl WolError {
    /// The message shown to the user.
    pub fn message(&self) -> (m: String)
        ensures
            *self == WolError::WrongLength ==> m@ == "MAC address must be 12 hexadecimal characters"@,
            *self == WolError::InvalidByte ==> m@ == "Invalid MAC byte: invalid digit found in string"@,
    {
        match self {
            WolError::WrongLength => String::from_str("MAC address must be 12 hexadecimal characters"),
            WolError::InvalidByte => String::from_str("Invalid MAC byte: invalid digit found in string"),
        }
    }
}

/// A byte that is neither `-` nor `:`.
pub open spec fn not_separator() -> spec_fn(u8) -> bool {
    |b: u8| b != 0x2d && b != 0x3a
}

/// The value of a hexadecimal digit byte.
pub open spec fn hex_value(b: u8) -> Option<u8> {
    if 0x30 <= b <= 0x39 {
        Some((b - 0x30) as u8)
    } else if 0x61 <= b <= 0x66 {
        Some((b - 0x61 + 10) as u8)
    } else if 0x41 <= b <= 0x46 {
        Some((b - 0x41 + 10) as u8)
    } else {
        None
    }
}

/// What `u8::from_str_radix(_, 16)` gives for a two-byte text: a `+` and
/// one digit, or two digits.
pub open spec fn pair_value(b0: u8, b1: u8) -> Option<u8> {
    if b0 == 0x2b {
        hex_value(b1)
    } else {
        match (hex_value(b0), hex_value(b1)) {
            (Some(h), Some(l)) => Some((h * 16 + l) as u8),
            _ => None,
        }
    }
}

/// Whether pair `k` of the cleaned address is a hexadecimal byte.
pub open spec fn pair_ok(c: Seq<u8>, k: int) -> bool {
    pair_value(c[2 * k], c[2 * k + 1]) is Some
}

/// The Wake-on-LAN magic packet for a MAC address: six 0xFF bytes, then the
/// address sixteen times.
pub open spec fn magic_packet_of(mac: Seq<u8>) -> Seq<u8> {
    Seq::new(102, |i: int| if i < 6 { 0xffu8 } else { mac[(i - 6) % 6] })
}

/// The result of turning MAC address bytes into a magic packet: the
/// separators `-` and `:` are dropped; twelve bytes must remain, read as six
/// hexadecimal pairs.
pub open spec fn wake_packet_of(mac_text: Seq<u8>) -> Result<Seq<u8>, WolError> {
    let c = mac_text.filter(not_separator());
    if c.len() != 12 {
        Err(WolError::WrongLength)
    } else if forall|k: int| 0 <= k < 6 ==> #[trigger] pair_ok(c, k) {
        Ok(magic_packet_of(Seq::new(6, |k: int| pair_value(c[2 * k], c[2 * k + 1])->0)))
    } else {
        Err(WolError::InvalidByte)
    }
}

/// The inputs on which the address parser does not split a character: it
/// stops at the first bad pair, and every pair it reaches ends on a
/// character boundary.
pub open spec fn wake_parse_defined(mac_text: Seq<u8>) -> bool {
    let c = mac_text.filter(not_separator());
    c.len() == 12 ==> forall|i: int|
        0 <= i < 5 && (forall|j: int| 0 <= j < i ==> #[trigger] pair_ok(c, j))
            ==> !is_continuation_byte(#[trigger] c[2 * i + 2])
}

fn hex_digit(b: u8) -> (r: Option<u8>)
    ensures
        r == hex_value(b),
{
    if 0x30 <= b && b <= 0x39 {
        Some(b - 0x30)
    } else if 0x61 <= b && b <= 0x66 {
        Some(b - 0x61 + 10)
    } else if 0x41 <= b && b <= 0x46 {
        Some(b - 0x41 + 10)
    } else {
        None
    }
}

fn hex_pair(b0: u8, b1: u8) -> (r: Option<u8>)
    ensures
        r == pair_value(b0, b1),
{
    if b0 == 0x2b {
        return hex_digit(b1);
    }
    match (hex_digit(b0), hex_digit(b1)) {
        (Some(h), Some(l)) => Some(h * 16 + l),
        _ => None,
    }
}

/// The Wake-on-LAN packet the shell broadcasts for a MAC address given as
/// text, such as `AA:BB:CC:DD:EE:FF` or `aa-bb-cc-dd-ee-ff`.
pub fn wake_on_lan_packet(mac: &str) -> (r: Result<Vec<u8>, WolError>)
    requires
        wake_parse_defined(mac.spec_bytes()),
    ensures
        match r {
            Ok(p) => wake_packet_of(mac.spec_bytes()) == Ok::<Seq<u8>, WolError>(p@),
            Err(e) => wake_packet_of(mac.spec_bytes()) == Err::<Seq<u8>, WolError>(e),
        },
{
    let bytes = mac.as_bytes();
    let ghost all = bytes@;
    assert(all == mac.spec_bytes());
    let mut c: Vec<u8> = Vec::new();
    let mut i: usize = 0;
    while i < bytes.len()
        invariant
            bytes@ == all,
            i <= bytes.len(),
            c@ == all.subrange(0, i as int).filter(not_separator()),
        decreases bytes.len() - i,
    {
        proof {
            reveal(Seq::filter);
            assert(all.subrange(0, i + 1).drop_last() =~= all.subrange(0, i as int));
        }
        let b = bytes[i];
        if b != 0x2d && b != 0x3a {
            c.push(b);
        }
        i = i + 1;
    }
    assert(all.subrange(0, bytes.len() as int) =~= all);
    if c.len() != 12 {
        return Err(WolError::WrongLength);
    }
    let mut mac_bytes: Vec<u8> = Vec::new();
    let mut k: usize = 0;
    while k < 6
        invariant
            all == mac.spec_bytes(),
            c.len() == 12,
            c@ == all.filter(not_separator()),
            k <= 6,
            mac_bytes.len() == k,
            forall|j: int| 0 <= j < k ==> #[trigger] pair_ok(c@, j),
            forall|j: int|
                0 <= j < k ==> mac_bytes@[j] == pair_value(c@[2 * j], c@[2 * j + 1])->0,
        decreases 6 - k,
    {
        match hex_pair(c[2 * k], c[2 * k + 1]) {
            Some(v) => {
                mac_bytes.push(v);
            },
            None => {
                assert(!pair_ok(c@, k as int));
                return Err(WolError::InvalidByte);
            },
        }
        k = k + 1;
    }
    let ghost mac_seq = Seq::new(6, |j: int| pair_value(c@[2 * j], c@[2 * j + 1])->0);
    assert(mac_bytes@ =~= mac_seq);
    let mut packet: Vec<u8> = Vec::new();
    let mut p: usize = 0;
    while p < 102
        invariant
            mac_bytes@ == mac_seq,
            mac_bytes.len() == 6,
            p <= 102,
            packet@ == magic_packet_of(mac_seq).subrange(0, p as int),
        decreases 102 - p,
    {
        if p < 6 {
            packet.push(0xff);
        } else {
            packet.push(mac_bytes[(p - 6) % 6]);
        }
        p = p + 1;
        assert(packet@ =~= magic_packet_of(mac_seq).subrange(0, p as int));
    }
    assert(packet@ =~= magic_packet_of(mac_seq));
    Ok(packet)
}

} // verus!
