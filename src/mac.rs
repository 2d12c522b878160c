use vstd::prelude::*;
use vstd::string::*;
use crate::errors::{Errors, is_single_field_error, single_field_error};

verus! {

/// An ASCII hexadecimal digit, either case.
pub open spec fn is_hex_digit(c: char) -> bool {
    ('0' <= c && c <= '9') || ('a' <= c && c <= 'f') || ('A' <= c && c <= 'F')
}

/// The value of a hexadecimal digit.
pub open spec fn hex_value(c: char) -> int {
    if '0' <= c && c <= '9' {
        (c as int) - ('0' as int)
    } else if 'a' <= c && c <= 'f' {
        (c as int) - ('a' as int) + 10
    } else {
        (c as int) - ('A' as int) + 10
    }
}

/// A separator between the octets of a MAC address.
pub open spec fn is_mac_separator(c: char) -> bool {
    c == ':' || c == '-'
}

/// Six pairs of hex digits, each pair after the first preceded by `:` or `-`.
pub open spec fn well_formed_mac(s: Seq<char>) -> bool {
    &&& s.len() == 17
    &&& forall|i: int|
        0 <= i < 17 ==> if i % 3 == 2 {
            is_mac_separator(#[trigger] s[i])
        } else {
            is_hex_digit(s[i])
        }
}

/// The six octets written by a well-formed MAC string.
pub open spec fn mac_octets_of(s: Seq<char>) -> Seq<u8> {
    Seq::new(6, |k: int| (hex_value(s[3 * k]) * 16 + hex_value(s[3 * k + 1])) as u8)
}

/// Two well-formed MAC strings that write the same digits, up to case.
pub open spec fn same_mac_digits(s: Seq<char>, t: Seq<char>) -> bool {
    forall|i: int| 0 <= i < 17 && i % 3 != 2 ==> hex_value(#[trigger] s[i]) == hex_value(t[i])
}

/// The number of hexadecimal digits in a string.
pub open spec fn hex_digit_count(s: Seq<char>) -> int
    decreases s.len(),
{
    if s.len() == 0 {
        0
    } else {
        hex_digit_count(s.drop_last()) + if is_hex_digit(s.last()) {
            1int
        } else {
            0int
        }
    }
}

/// The number of bytes that a character takes in UTF-8.
pub open spec fn utf8_char_len(c: char) -> int {
    if (c as int) < 0x80 {
        1
    } else if (c as int) < 0x800 {
        2
    } else if (c as int) < 0x10000 {
        3
    } else {
        4
    }
}

/// The number of bytes that a string takes in UTF-8.
pub open spec fn utf8_len(s: Seq<char>) -> int
    decreases s.len(),
{
    if s.len() == 0 {
        0
    } else {
        utf8_len(s.drop_last()) + utf8_char_len(s.last())
    }
}

/// A lowercase hexadecimal digit for a value below 16.
pub open spec fn lower_hex_char(n: int) -> char {
    seq!['0', '1', '2', '3', '4', '5', '6', '7', '8', '9', 'a', 'b', 'c', 'd', 'e', 'f'][n]
}

/// Six octets as lowercase hex pairs joined by colons (`aa:bb:cc:dd:ee:ff`).
pub open spec fn hex_string_of(b: Seq<u8>) -> Seq<char> {
    Seq::new(
        17,
        |i: int|
            if i % 3 == 2 {
                ':'
            } else if i % 3 == 0 {
                lower_hex_char(b[i / 3] as int / 16)
            } else {
                lower_hex_char(b[i / 3] as int % 16)
            },
    )
}

/// Why a string was not read as a MAC address.
#[derive(Clone, Copy, PartialEq, Eq, Debug, Structural)]
pub enum MacParseError {
    /// The string is not 11 to 17 bytes long.
    InvalidLength,
    /// The string does not hold exactly six octets.
    InvalidByteCount,
}

/// A 48-bit hardware address.
#[derive(Clone, Copy, Debug)]
pub struct MacAddress {
    pub octets: [u8; 6],
}

/// Relies on eui48::MacAddress::parse_str: a string whose byte length lies outside
/// 11..=17 is refused with `InvalidLength`; six colon- or hyphen-separated hex pairs
/// are read as those six octets; each octet it reads takes at least one hex digit, so
/// a string of fitting length with fewer than six hex digits is refused with
/// `InvalidByteCount`.
#[verifier::external_body]
fn eui48_parse(s: &str) -> (r: Result<[u8; 6], MacParseError>)
    ensures
        11 <= utf8_len(s@) <= 17 && hex_digit_count(s@) < 6 ==> (r == Err::<[u8; 6], MacParseError>(
            MacParseError::InvalidByteCount,
        )),
        (r == Err::<[u8; 6], MacParseError>(MacParseError::InvalidLength)) <==> !(11 <= utf8_len(
            s@,
        ) <= 17),
        well_formed_mac(s@) ==> r is Ok && r->Ok_0@ == mac_octets_of(s@),
{
    match eui48::MacAddress::parse_str(s) {
        Ok(m) => Ok(m.to_array()),
        Err(eui48::ParseError::InvalidLength(_)) => Err(MacParseError::InvalidLength),
        Err(eui48::ParseError::InvalidByteCount(_, _)) => Err(MacParseError::InvalidByteCount),
    }
}

/// Relies on eui48::MacAddress::to_hex_string: `{:02x}` for each octet, joined by `:`.
#[verifier::external_body]
fn eui48_hex_string(octets: [u8; 6]) -> (r: String)
    ensures
        r@ == hex_string_of(octets@),
{
    eui48::MacAddress::new(octets).to_hex_string()
}

impl MacAddress {
    /// Reads a MAC address in any notation that the parser accepts.
    pub fn parse_str(s: &str) -> (r: Result<MacAddress, MacParseError>)
        ensures
            (r == Err::<MacAddress, MacParseError>(MacParseError::InvalidLength)) <==> !(11
                <= utf8_len(s@) <= 17),
            well_formed_mac(s@) ==> r is Ok && r->Ok_0.octets@ == mac_octets_of(s@),
            11 <= utf8_len(s@) <= 17 && hex_digit_count(s@) < 6 ==> (r == Err::<
                MacAddress,
                MacParseError,
            >(MacParseError::InvalidByteCount)),
    {
        match eui48_parse(s) {
            Ok(octets) => Ok(MacAddress { octets }),
            Err(e) => Err(e),
        }
    }

    /// The canonical form: lowercase hex pairs joined by colons.
    pub fn to_hex_string(&self) -> (r: String)
        ensures
            r@ == hex_string_of(self.octets@),
    {
        eui48_hex_string(self.octets)
    }
}

/// The field name under which MAC address failures are reported.
pub open spec fn mac_field() -> Seq<char> {
    "macAddress"@
}

/// The reason code for a parse failure: `length` for a wrong length, `bytes` otherwise.
pub open spec fn mac_error_code(e: MacParseError) -> Seq<char> {
    match e {
        MacParseError::InvalidLength => "length"@,
        MacParseError::InvalidByteCount => "bytes"@,
    }
}

/// The field-level validation error for a MAC address that did not parse.
pub fn create_error_response_for_mac_address(error: MacParseError) -> (r: Errors)
    ensures
        is_single_field_error(r, mac_field(), mac_error_code(error)),
{
    let code = match error {
        MacParseError::InvalidLength => "length",
        MacParseError::InvalidByteCount => "bytes",
    };
    single_field_error("macAddress", code)
}

/// A character that may stand in a MAC string: a hex digit or a separator.
pub open spec fn is_mac_char(c: char) -> bool {
    is_hex_digit(c) || is_mac_separator(c)
}

/// Hex digits and separators alone, but not twelve digits: the string writes the
/// wrong number of octets.
pub open spec fn wrong_octet_count(s: Seq<char>) -> bool {
    &&& forall|i: int| 0 <= i < s.len() ==> is_mac_char(#[trigger] s[i])
    &&& hex_digit_count(s) != 12
}

/// Six two-character octets between separators, one of which holds a character
/// that is neither a hex digit nor a separator.
pub open spec fn bad_octet_content(s: Seq<char>) -> bool {
    &&& s.len() == 17
    &&& forall|i: int| 0 <= i < 17 && i % 3 == 2 ==> is_mac_separator(#[trigger] s[i])
    &&& exists|i: int| 0 <= i < 17 && i % 3 != 2 && !is_mac_char(#[trigger] s[i])
}

/// The first `k` characters of a well-formed MAC string hold `k - k / 3` hex digits.
proof fn lemma_well_formed_hex_count(s: Seq<char>, k: int)
    requires
        well_formed_mac(s),
        0 <= k <= 17,
    ensures
        hex_digit_count(s.take(k)) == k - k / 3,
    decreases k,
{
    if k > 0 {
        lemma_well_formed_hex_count(s, k - 1);
        assert(s.take(k).drop_last() =~= s.take(k - 1));
        assert(s.take(k).last() == s[k - 1]);
        if (k - 1) % 3 == 2 {
            assert(is_mac_separator(s[k - 1]));
        } else {
            assert(is_hex_digit(s[k - 1]));
        }
    } else {
        assert(s.take(0) =~= Seq::<char>::empty());
    }
}

fn is_hex_char(c: char) -> (r: bool)
    ensures
        r == is_hex_digit(c),
{
    ('0' <= c && c <= '9') || ('a' <= c && c <= 'f') || ('A' <= c && c <= 'F')
}

fn is_separator_char(c: char) -> (r: bool)
    ensures
        r == is_mac_separator(c),
{
    c == ':' || c == '-'
}

/// Validates a MAC address taken from a request. No input makes this panic:
/// every failure comes back as a validation error on `macAddress` with one reason
/// code, `length` for a wrong number of characters or octets, `bytes` for invalid
/// octet content.
pub fn validate_mac_address(raw: &str) -> (r: Result<MacAddress, Errors>)
    ensures
        well_formed_mac(raw@) ==> r is Ok && r->Ok_0.octets@ == mac_octets_of(raw@),
        !(11 <= utf8_len(raw@) <= 17) ==> r is Err && is_single_field_error(
            r->Err_0,
            mac_field(),
            "length"@,
        ),
        wrong_octet_count(raw@) ==> r is Err && is_single_field_error(
            r->Err_0,
            mac_field(),
            "length"@,
        ),
        11 <= utf8_len(raw@) <= 17 && bad_octet_content(raw@) ==> r is Err
            && is_single_field_error(r->Err_0, mac_field(), "bytes"@),
        hex_digit_count(raw@) < 6 ==> r is Err,
        r is Err ==> (is_single_field_error(r->Err_0, mac_field(), "length"@)
            || is_single_field_error(r->Err_0, mac_field(), "bytes"@)),
{
    let parsed = MacAddress::parse_str(raw);
    if let Err(MacParseError::InvalidLength) = parsed {
        return Err(create_error_response_for_mac_address(MacParseError::InvalidLength));
    }
    let n = raw.unicode_len();
    let mut count: usize = 0;
    let mut all_mac = true;
    let mut seps_ok = true;
    let mut digits_hex = true;
    let mut i: usize = 0;
    while i < n
        invariant
            n == raw@.len(),
            i <= n,
            count <= i,
            count == hex_digit_count(raw@.take(i as int)),
            all_mac == forall|j: int| 0 <= j < i ==> is_mac_char(#[trigger] raw@[j]),
            seps_ok == forall|j: int| 0 <= j < i && j % 3 == 2 ==> is_mac_separator(#[trigger] raw@[j]),
            digits_hex == forall|j: int| 0 <= j < i && j % 3 != 2 ==> is_hex_digit(#[trigger] raw@[j]),
        decreases n - i,
    {
        let c = raw.get_char(i);
        let hex = is_hex_char(c);
        let sep = is_separator_char(c);
        proof {
            assert(raw@.take(i + 1).drop_last() =~= raw@.take(i as int));
        }
        if hex {
            count = count + 1;
        }
        all_mac = all_mac && (hex || sep);
        if i % 3 == 2 {
            seps_ok = seps_ok && sep;
        } else {
            digits_hex = digits_hex && hex;
        }
        i += 1;
    }
    proof {
        assert(raw@.take(n as int) =~= raw@);
        if well_formed_mac(raw@) {
            lemma_well_formed_hex_count(raw@, 17);
        }
    }
    if all_mac && count != 12 {
        return Err(single_field_error("macAddress", "length"));
    }
    if n == 17 && seps_ok && !digits_hex {
        return Err(single_field_error("macAddress", "bytes"));
    }
    match parsed {
        Ok(mac) => Ok(mac),
        Err(e) => Err(create_error_response_for_mac_address(e)),
    }
}

/// Validates a MAC address taken from a request and returns its canonical form:
/// lowercase hex pairs joined by colons.
pub fn validate(raw: &str) -> (r: Result<String, Errors>)
    ensures
        well_formed_mac(raw@) ==> r is Ok && r->Ok_0@ == hex_string_of(mac_octets_of(raw@)),
        r matches Ok(c) ==> well_formed_mac(c@),
        !(11 <= utf8_len(raw@) <= 17) ==> r is Err && is_single_field_error(
            r->Err_0,
            mac_field(),
            "length"@,
        ),
        wrong_octet_count(raw@) ==> r is Err && is_single_field_error(
            r->Err_0,
            mac_field(),
            "length"@,
        ),
        11 <= utf8_len(raw@) <= 17 && bad_octet_content(raw@) ==> r is Err
            && is_single_field_error(r->Err_0, mac_field(), "bytes"@),
        hex_digit_count(raw@) < 6 ==> r is Err,
        r is Err ==> (is_single_field_error(r->Err_0, mac_field(), "length"@)
            || is_single_field_error(r->Err_0, mac_field(), "bytes"@)),
{
    match validate_mac_address(raw) {
        Ok(mac) => {
            proof {
                lemma_canonical_form_round_trip(mac.octets@);
            }
            Ok(mac.to_hex_string())
        },
        Err(e) => Err(e),
    }
}

/// Any two well-formed MAC strings that write the same digits, whatever their
/// separators and letter case, validate to the same canonical form.
pub proof fn lemma_canonical_form_ignores_separator_and_case(s: Seq<char>, t: Seq<char>)
    requires
        well_formed_mac(s),
        well_formed_mac(t),
        same_mac_digits(s, t),
    ensures
        hex_string_of(mac_octets_of(s)) == hex_string_of(mac_octets_of(t)),
{
    assert forall|k: int| 0 <= k < 6 implies mac_octets_of(s)[k] == mac_octets_of(t)[k] by {
        assert(hex_value(s[3 * k]) == hex_value(t[3 * k]));
        assert(hex_value(s[3 * k + 1]) == hex_value(t[3 * k + 1]));
    }
    assert(mac_octets_of(s) =~= mac_octets_of(t));
}

/// A lowercase hex digit reads back as the value it was written for.
pub proof fn lemma_lower_hex_char_value(n: int)
    requires
        0 <= n < 16,
    ensures
        is_hex_digit(lower_hex_char(n)),
        hex_value(lower_hex_char(n)) == n,
{
    let digits = seq!['0', '1', '2', '3', '4', '5', '6', '7', '8', '9', 'a', 'b', 'c', 'd', 'e', 'f'];
    assert(lower_hex_char(n) == digits[n]);
}

/// The canonical form of any six octets is a well-formed MAC string that reads
/// back as the same six octets.
pub proof fn lemma_canonical_form_round_trip(b: Seq<u8>)
    requires
        b.len() == 6,
    ensures
        well_formed_mac(hex_string_of(b)),
        mac_octets_of(hex_string_of(b)) == b,
        hex_string_of(mac_octets_of(hex_string_of(b))) == hex_string_of(b),
{
    let s = hex_string_of(b);
    assert forall|i: int| 0 <= i < 17 implies if i % 3 == 2 {
        is_mac_separator(#[trigger] s[i])
    } else {
        is_hex_digit(s[i])
    } by {
        if i % 3 != 2 {
            lemma_lower_hex_char_value(b[i / 3] as int / 16);
            lemma_lower_hex_char_value(b[i / 3] as int % 16);
        }
    }
    assert forall|k: int| 0 <= k < 6 implies mac_octets_of(s)[k] == b[k] by {
        assert((3 * k) / 3 == k && (3 * k) % 3 == 0);
        assert((3 * k + 1) / 3 == k && (3 * k + 1) % 3 == 1);
        lemma_lower_hex_char_value(b[k] as int / 16);
        lemma_lower_hex_char_value(b[k] as int % 16);
        assert(hex_value(s[3 * k]) * 16 + hex_value(s[3 * k + 1]) == b[k] as int);
    }
    assert(mac_octets_of(s) =~= b);
}

} // verus!
