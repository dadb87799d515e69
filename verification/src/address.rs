//! Hardware addresses and payloads as text, and the pattern by which the
//! beacons' advertisements are recognised.

use vstd::prelude::*;
use vstd::string::*;

verus! {

/// The manufacturer identifier under which the beacons advertise.
pub const MANUFACTURER_ID: u16 = 0x0499;

/// The advertising data type of manufacturer specific data.
pub const MANUFACTURER_SPECIFIC_DATA: u8 = 0xff;

/// The sixteen hexadecimal digits, in lower case.
pub open spec fn hex_digits() -> Seq<char> {
    seq!['0', '1', '2', '3', '4', '5', '6', '7', '8', '9', 'a', 'b', 'c', 'd', 'e', 'f']
}

/// The digit for a number below sixteen.
pub open spec fn hex_digit(n: int) -> char
    recommends
        0 <= n < 16,
{
    hex_digits()[n]
}

/// Bytes as text: two lower-case hexadecimal digits for each byte, the
/// high one first.
pub open spec fn hex_text(bytes: Seq<u8>) -> Seq<char> {
    Seq::new(
        2 * bytes.len(),
        |i: int|
            if i % 2 == 0 {
                hex_digit(bytes[i / 2] as int / 16)
            } else {
                hex_digit(bytes[i / 2] as int % 16)
            },
    )
}

/// A hardware address as text: its six bytes as two lower-case hexadecimal
/// digits each, with a colon between one byte and the next.
pub open spec fn address_text(address: Seq<u8>) -> Seq<char>
    recommends
        address.len() == 6,
{
    Seq::new(
        17,
        |i: int|
            if i % 3 == 2 {
                ':'
            } else if i % 3 == 0 {
                hex_digit(address[i / 3] as int / 16)
            } else {
                hex_digit(address[i / 3] as int % 16)
            },
    )
}

/// The text of one hexadecimal digit.
fn digit_text(n: u8) -> (r: &'static str)
    requires
        n < 16,
    ensures
        r@ == seq![hex_digit(n as int)],
{
    proof {
        reveal_strlit("0");
        reveal_strlit("1");
        reveal_strlit("2");
        reveal_strlit("3");
        reveal_strlit("4");
        reveal_strlit("5");
        reveal_strlit("6");
        reveal_strlit("7");
        reveal_strlit("8");
        reveal_strlit("9");
        reveal_strlit("a");
        reveal_strlit("b");
        reveal_strlit("c");
        reveal_strlit("d");
        reveal_strlit("e");
        reveal_strlit("f");
    }
    let r = match n {
        0 => "0",
        1 => "1",
        2 => "2",
        3 => "3",
        4 => "4",
        5 => "5",
        6 => "6",
        7 => "7",
        8 => "8",
        9 => "9",
        10 => "a",
        11 => "b",
        12 => "c",
        13 => "d",
        14 => "e",
        _ => "f",
    };
    assert(r@ =~= seq![hex_digit(n as int)]);
    r
}

/// Appends the two digits of a byte.
fn push_byte(text: &mut String, byte: u8)
    ensures
        final(text)@ == old(text)@.push(hex_digit(byte as int / 16)).push(
            hex_digit(byte as int % 16),
        ),
{
    text.append(digit_text(byte / 16));
    text.append(digit_text(byte % 16));
    assert(text@ =~= old(text)@.push(hex_digit(byte as int / 16)).push(
        hex_digit(byte as int % 16),
    ));
}

/// A hardware address in the form in which it labels a series and names a
/// session: `aa:bb:cc:dd:ee:ff`.
pub fn format_device_address(address: &[u8; 6]) -> (text: String)
    ensures
        text@ == address_text(address@),
{
    let mut text = String::new();
    let mut i: usize = 0;
    while i < 6
        invariant
            i <= 6,
            text@.len() == if i == 0 {
                0
            } else {
                3 * i - 1
            },
            forall|j: int| 0 <= j < text@.len() ==> text@[j] == address_text(address@)[j],
        decreases 6 - i,
    {
        if i > 0 {
            proof {
                reveal_strlit(":");
            }
            text.append(":");
        }
        push_byte(&mut text, address[i]);
        i += 1;
    }
    assert(text@ =~= address_text(address@));
    text
}

/// A payload as the text that a decoder takes: `hex_text` of its bytes.
pub fn payload_hex(value: &[u8]) -> (hex: String)
    ensures
        hex@ == hex_text(value@),
{
    let mut hex = String::new();
    let mut i: usize = 0;
    while i < value.len()
        invariant
            i <= value.len(),
            hex@ == hex_text(value@.take(i as int)),
        decreases value.len() - i,
    {
        push_byte(&mut hex, value[i]);
        i += 1;
        assert(hex@ =~= hex_text(value@.take(i as int)));
    }
    assert(value@.take(i as int) =~= value@);
    hex
}

/// A pattern in advertisement data by which a scanner selects devices.
#[derive(Clone, Debug, PartialEq, Eq)]
pub struct Pattern {
    /// The advertising data type to match.
    pub data_type: u8,
    /// Where in a field of that type the content is looked for.
    pub start_position: u8,
    /// The bytes to find there.
    pub content: Vec<u8>,
}

/// The pattern of the beacons: manufacturer specific data that begins with
/// the manufacturer identifier, low byte first.
pub fn manufacturer_pattern() -> (pattern: Pattern)
    ensures
        pattern.data_type == MANUFACTURER_SPECIFIC_DATA,
        pattern.start_position == 0,
        pattern.content@ == seq![0x99u8, 0x04u8],
        pattern.content@ == seq![(MANUFACTURER_ID % 256) as u8, (MANUFACTURER_ID / 256) as u8],
{
    let data_type: u8 = MANUFACTURER_SPECIFIC_DATA;
    let start_position: u8 = 0x00;
    let content: Vec<u8> = vec![0x99, 0x04];
    assert(content@ =~= seq![0x99u8, 0x04u8]);
    Pattern { data_type, start_position, content }
}

/// Different numbers below sixteen have different digits.
proof fn lemma_hex_digit_is_injective(n: int, m: int)
    requires
        0 <= n < 16,
        0 <= m < 16,
        hex_digit(n) == hex_digit(m),
    ensures
        n == m,
{
}

/// A byte is told by its two digits.
proof fn lemma_byte_by_its_digits(a: u8, b: u8)
    requires
        hex_digit(a as int / 16) == hex_digit(b as int / 16),
        hex_digit(a as int % 16) == hex_digit(b as int % 16),
    ensures
        a == b,
{
    lemma_hex_digit_is_injective(a as int / 16, b as int / 16);
    lemma_hex_digit_is_injective(a as int % 16, b as int % 16);
}

/// The text of an address names that address and no other: two addresses
/// with the same text are the same.
pub proof fn law_address_text_is_injective(first: Seq<u8>, second: Seq<u8>)
    requires
        first.len() == 6,
        second.len() == 6,
        address_text(first) == address_text(second),
    ensures
        first == second,
{
    assert forall|k: int| 0 <= k < 6 implies first[k] == second[k] by {
        assert((3 * k) / 3 == k && (3 * k) % 3 == 0);
        assert((3 * k + 1) / 3 == k && (3 * k + 1) % 3 == 1);
        assert(address_text(first)[3 * k] == hex_digit(first[k] as int / 16));
        assert(address_text(second)[3 * k] == hex_digit(second[k] as int / 16));
        assert(address_text(first)[3 * k + 1] == hex_digit(first[k] as int % 16));
        assert(address_text(second)[3 * k + 1] == hex_digit(second[k] as int % 16));
        lemma_byte_by_its_digits(first[k], second[k]);
    }
    assert(first =~= second);
}

/// The text of a payload names that payload and no other.
pub proof fn law_hex_text_is_injective(first: Seq<u8>, second: Seq<u8>)
    requires
        hex_text(first) == hex_text(second),
    ensures
        first == second,
{
    assert(hex_text(first).len() == 2 * first.len());
    assert(hex_text(second).len() == 2 * second.len());
    assert forall|k: int| 0 <= k < first.len() implies first[k] == second[k] by {
        assert((2 * k) / 2 == k && (2 * k) % 2 == 0);
        assert((2 * k + 1) / 2 == k && (2 * k + 1) % 2 == 1);
        assert(hex_text(first)[2 * k] == hex_digit(first[k] as int / 16));
        assert(hex_text(second)[2 * k] == hex_digit(second[k] as int / 16));
        assert(hex_text(first)[2 * k + 1] == hex_digit(first[k] as int % 16));
        assert(hex_text(second)[2 * k + 1] == hex_digit(second[k] as int % 16));
        lemma_byte_by_its_digits(first[k], second[k]);
    }
    assert(first =~= second);
}

} // verus!
