//! User identifiers: 128-bit values and their text forms.

use vstd::prelude::*;

verus! {

/// The sixteen lowercase hexadecimal digits, in order of value.
pub open spec fn hex_digits() -> Seq<char> {
    seq!['0', '1', '2', '3', '4', '5', '6', '7', '8', '9', 'a', 'b', 'c', 'd', 'e', 'f']
}

/// The lowercase hexadecimal numeral made of the `n` lowest digits of `value`,
/// most significant digit first.
pub open spec fn hex_text(value: nat, n: nat) -> Seq<char>
    decreases n,
{
    if n == 0 {
        Seq::empty()
    } else {
        hex_text(value / 16, (n - 1) as nat).push(hex_digits()[(value % 16) as int])
    }
}

/// The canonical text of a 128-bit identifier: 32 lowercase hexadecimal
/// digits in groups of 8, 4, 4, 4 and 12, with a hyphen between groups.
pub open spec fn canonical_text(bits: u128) -> Seq<char> {
    let d = hex_text(bits as nat, 32);
    d.subrange(0, 8) + seq!['-'] + d.subrange(8, 12) + seq!['-'] + d.subrange(12, 16)
        + seq!['-'] + d.subrange(16, 20) + seq!['-'] + d.subrange(20, 32)
}

/// A numeral of `n` digits has length `n`.
pub proof fn hex_text_len(value: nat, n: nat)
    ensures
        hex_text(value, n).len() == n,
    decreases n,
{
    if n > 0 {
        hex_text_len(value / 16, (n - 1) as nat);
    }
}

/// The canonical text has 36 characters, hyphens at positions 8, 13, 18 and
/// 23, and the digits of the 32-digit numeral everywhere else.
pub proof fn canonical_text_shape(bits: u128)
    ensures
        canonical_text(bits).len() == 36,
        canonical_text(bits)[8] == '-',
        canonical_text(bits)[13] == '-',
        canonical_text(bits)[18] == '-',
        canonical_text(bits)[23] == '-',
        forall|i: int| 0 <= i < 8 ==> canonical_text(bits)[i] == hex_text(bits as nat, 32)[i],
        forall|i: int|
            9 <= i < 13 ==> canonical_text(bits)[i] == hex_text(bits as nat, 32)[i - 1],
        forall|i: int|
            14 <= i < 18 ==> canonical_text(bits)[i] == hex_text(bits as nat, 32)[i - 2],
        forall|i: int|
            19 <= i < 23 ==> canonical_text(bits)[i] == hex_text(bits as nat, 32)[i - 3],
        forall|i: int|
            24 <= i < 36 ==> canonical_text(bits)[i] == hex_text(bits as nat, 32)[i - 4],
{
    hex_text_len(bits as nat, 32);
}

/// The value of one hexadecimal digit, in either case.
pub open spec fn hex_value(c: char) -> Option<nat> {
    let n = c as u32;
    if '0' as u32 <= n <= '9' as u32 {
        Some((n - '0' as u32) as nat)
    } else if 'a' as u32 <= n <= 'f' as u32 {
        Some((n - 'a' as u32 + 10) as nat)
    } else if 'A' as u32 <= n <= 'F' as u32 {
        Some((n - 'A' as u32 + 10) as nat)
    } else {
        None
    }
}

/// The value of a hexadecimal numeral, most significant digit first; `None`
/// where some character is no hexadecimal digit.
pub open spec fn hex_word(s: Seq<char>) -> Option<nat>
    decreases s.len(),
{
    if s.len() == 0 {
        Some(0)
    } else {
        match (hex_word(s.drop_last()), hex_value(s.last())) {
            (Some(high), Some(low)) => Some(high * 16 + low),
            _ => None,
        }
    }
}

/// The 32 characters that are left of a 36-character text when the four
/// positions of the hyphens are taken out.
pub open spec fn without_hyphens(s: Seq<char>) -> Seq<char> {
    s.subrange(0, 8) + s.subrange(9, 13) + s.subrange(14, 18) + s.subrange(19, 23) + s.subrange(
        24,
        36,
    )
}

/// The value of a text in hyphenated form: 36 characters, hyphens at
/// positions 8, 13, 18 and 23, hexadecimal digits elsewhere.
pub open spec fn hyphenated_value(s: Seq<char>) -> Option<nat> {
    if s.len() == 36 && s[8] == '-' && s[13] == '-' && s[18] == '-' && s[23] == '-' {
        hex_word(without_hyphens(s))
    } else {
        None
    }
}

/// Whether `p` is `urn:uuid:`, its letters in either case.
pub open spec fn is_urn_prefix(p: Seq<char>) -> bool {
    &&& p.len() == 9
    &&& (p[0] == 'u' || p[0] == 'U')
    &&& (p[1] == 'r' || p[1] == 'R')
    &&& (p[2] == 'n' || p[2] == 'N')
    &&& p[3] == ':'
    &&& (p[4] == 'u' || p[4] == 'U')
    &&& (p[5] == 'u' || p[5] == 'U')
    &&& (p[6] == 'i' || p[6] == 'I')
    &&& (p[7] == 'd' || p[7] == 'D')
    &&& p[8] == ':'
}

/// The identifier that a text denotes, if it denotes one. Four forms are
/// read: 32 hexadecimal digits; the hyphenated form; the hyphenated form in
/// braces; and the hyphenated form behind `urn:uuid:`.
pub open spec fn text_value(s: Seq<char>) -> Option<nat> {
    if s.len() == 32 {
        hex_word(s)
    } else if s.len() == 36 {
        hyphenated_value(s)
    } else if s.len() == 38 && s[0] == '{' && s[37] == '}' {
        hyphenated_value(s.subrange(1, 37))
    } else if s.len() == 45 && is_urn_prefix(s.subrange(0, 9)) {
        hyphenated_value(s.subrange(9, 45))
    } else {
        None
    }
}

/// Sixteen to the power `n`.
pub open spec fn pow16(n: nat) -> nat
    decreases n,
{
    if n == 0 {
        1
    } else {
        16 * pow16((n - 1) as nat)
    }
}

/// A numeral of `n` digits denotes a value below sixteen to the `n`.
pub proof fn hex_word_bound(s: Seq<char>)
    ensures
        hex_word(s) matches Some(v) ==> v < pow16(s.len()),
    decreases s.len(),
{
    if s.len() > 0 {
        hex_word_bound(s.drop_last());
    }
}

/// Reading the `n`-digit numeral of a value below sixteen to the `n` gives
/// the value back.
pub proof fn hex_word_of_hex_text(value: nat, n: nat)
    requires
        value < pow16(n),
    ensures
        hex_word(hex_text(value, n)) == Some(value),
    decreases n,
{
    hex_text_len(value, n);
    if n > 0 {
        hex_word_of_hex_text(value / 16, (n - 1) as nat);
        assert(hex_text(value, n).drop_last() =~= hex_text(value / 16, (n - 1) as nat));
    }
}

/// Sixteen to the 32 is two to the 128.
pub proof fn pow16_of_32()
    ensures
        pow16(32) == 0x1_0000_0000_0000_0000_0000_0000_0000_0000,
{
    reveal_with_fuel(pow16, 33);
}

/// Every text that denotes an identifier denotes a 128-bit value.
pub proof fn text_value_fits(s: Seq<char>)
    ensures
        text_value(s) matches Some(v) ==> v <= u128::MAX,
{
    pow16_of_32();
    if s.len() == 32 {
        hex_word_bound(s);
    } else if s.len() == 36 {
        hex_word_bound(without_hyphens(s));
    } else if s.len() == 38 {
        hex_word_bound(without_hyphens(s.subrange(1, 37)));
    } else if s.len() == 45 {
        hex_word_bound(without_hyphens(s.subrange(9, 45)));
    }
}

/// The canonical text of an identifier denotes that identifier.
pub proof fn canonical_text_round_trip(bits: u128)
    ensures
        text_value(canonical_text(bits)) == Some(bits as nat),
{
    canonical_text_shape(bits);
    hex_text_len(bits as nat, 32);
    pow16_of_32();
    hex_word_of_hex_text(bits as nat, 32);
    assert(without_hyphens(canonical_text(bits)) =~= hex_text(bits as nat, 32));
}

/// No power of sixteen is zero.
pub proof fn pow16_positive(n: nat)
    ensures
        pow16(n) > 0,
    decreases n,
{
    if n > 0 {
        pow16_positive((n - 1) as nat);
    }
}

/// Digit `i` of the `n`-digit numeral of `value` is the digit of
/// `value / 16^(n - 1 - i)` modulo sixteen.
pub proof fn hex_text_digit(value: nat, n: nat, i: int)
    requires
        0 <= i < n,
    ensures
        hex_text(value, n).len() == n,
        hex_text(value, n)[i] == hex_digits()[(value as int / pow16((n - 1 - i) as nat) as int)
            % 16],
    decreases n,
{
    hex_text_len(value, n);
    hex_text_len(value / 16, (n - 1) as nat);
    if i < n - 1 {
        let low = pow16((n - 2 - i) as nat);
        hex_text_digit(value / 16, (n - 1) as nat, i);
        pow16_positive((n - 2 - i) as nat);
        vstd::arithmetic::div_mod::lemma_div_denominator(value as int, 16, low as int);
    } else {
        assert(pow16((n - 1 - i) as nat) == 1);
    }
}

/// The canonical text begins with the digit of the four highest bits, so it
/// begins with `a` exactly when those bits are ten.
pub proof fn canonical_text_first(bits: u128)
    ensures
        canonical_text(bits)[0] == hex_digits()[(bits >> 124) as int],
        canonical_text(bits)[0] == 'a' <==> bits >> 124 == 10,
{
    canonical_text_shape(bits);
    hex_text_digit(bits as nat, 32, 0);
    assert(pow16(31) == 0x1000_0000_0000_0000_0000_0000_0000_0000) by {
        reveal_with_fuel(pow16, 32);
    }
    assert(bits >> 124 == bits / 0x1000_0000_0000_0000_0000_0000_0000_0000 && bits >> 124 < 16)
        by (bit_vector);
}

/// Whether a 128-bit value carries the marks of a randomly drawn
/// identifier: version four in bits 76 to 79, and `10` in bits 62 and 63.
pub open spec fn is_random_v4(bits: u128) -> bool {
    (bits >> 76) & 0xf == 4 && (bits >> 62) & 0x3 == 2
}

/// The canonical text of a randomly drawn identifier shows its marks: the
/// third group begins with `4`, and the fourth with `8`, `9`, `a` or `b`.
pub proof fn random_v4_text_marks(bits: u128)
    requires
        is_random_v4(bits),
    ensures
        canonical_text(bits)[14] == '4',
        canonical_text(bits)[19] == '8' || canonical_text(bits)[19] == '9' || canonical_text(
            bits,
        )[19] == 'a' || canonical_text(bits)[19] == 'b',
{
    canonical_text_shape(bits);
    hex_text_digit(bits as nat, 32, 12);
    hex_text_digit(bits as nat, 32, 16);
    assert(pow16(19) == 0x1000_0000_0000_0000_0000 && pow16(15) == 0x1000_0000_0000_0000) by {
        reveal_with_fuel(pow16, 20);
    }
    assert((bits / 0x1000_0000_0000_0000_0000) % 16 == 4 && 8 <= (bits / 0x1000_0000_0000_0000)
        % 16 <= 11) by (bit_vector)
        requires
            (bits >> 76) & 0xf == 4 && (bits >> 62) & 0x3 == 2,
    ;
}

/// A user identifier: any 128-bit value.
#[derive(Clone, Copy, Debug, PartialEq, Eq, Structural, Hash)]
pub struct UserId {
    pub bits: u128,
}

impl View for UserId {
    type V = u128;

    open spec fn view(&self) -> u128 {
        self.bits
    }
}

/// `uuid::Uuid::from_u128` followed by `Uuid`'s `Display`: the text is the
/// lowercase hyphenated form of the value, its first digit the highest four
/// bits.
#[verifier::external_body]
fn hyphenated_text(bits: u128) -> (text: String)
    ensures
        text@ == canonical_text(bits),
{
    uuid::Uuid::from_u128(bits).to_string()
}

/// `uuid::Uuid::try_parse`, with `Uuid::as_u128` on what it accepts. It reads
/// the four forms of `text_value`, hexadecimal digits in either case, and
/// gives the value whose highest four bits are the first digit; every other
/// text is refused. It tells the forms apart by the length in bytes, where
/// `text_value` counts characters: the two differ only for a text with a
/// character outside ASCII, and such a text is refused under either count.
#[verifier::external_body]
fn parse_text(text: &str) -> (r: Option<u128>)
    ensures
        match r {
            Some(bits) => text_value(text@) == Some(bits as nat),
            None => text_value(text@) is None,
        },
{
    match uuid::Uuid::try_parse(text) {
        Ok(id) => Some(id.as_u128()),
        Err(_) => None,
    }
}

/// `uuid::Uuid::new_v4`, with `Uuid::as_u128`. The bits come from the
/// system's random source, but for the version and variant marks, which are
/// set on every value. The call panics where the system has no random bytes
/// to give.
#[verifier::external_body]
fn random_v4_bits() -> (bits: u128)
    ensures
        is_random_v4(bits),
{
    uuid::Uuid::new_v4().as_u128()
}

impl UserId {
    /// The identifier with the given 128 bits.
    pub fn from_u128(bits: u128) -> (id: UserId)
        ensures
            id@ == bits,
    {
        UserId { bits }
    }

    /// The 128 bits of the identifier.
    pub fn as_u128(&self) -> (bits: u128)
        ensures
            bits == self@,
    {
        self.bits
    }

    /// The canonical text of the identifier: 36 characters, which denote the
    /// identifier again.
    pub fn to_text(&self) -> (text: String)
        ensures
            text@ == canonical_text(self@),
            text@.len() == 36,
            text_value(text@) == Some(self@ as nat),
    {
        proof {
            canonical_text_shape(self.bits);
            canonical_text_round_trip(self.bits);
        }
        hyphenated_text(self.bits)
    }

    /// Reads an identifier from text: `Some` exactly for the texts that
    /// denote one, with the identifier denoted.
    pub fn parse_str(text: &str) -> (r: Option<UserId>)
        ensures
            match r {
                Some(id) => text_value(text@) == Some(id@ as nat),
                None => text_value(text@) is None,
            },
    {
        match parse_text(text) {
            Some(bits) => Some(UserId { bits }),
            None => None,
        }
    }

    /// A freshly drawn random identifier.
    pub fn new_v4() -> (id: UserId)
        ensures
            is_random_v4(id@),
    {
        UserId { bits: random_v4_bits() }
    }
}

} // verus!
