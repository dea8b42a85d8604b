//! The text forms of a UUID, taken as a 128-bit number.
use vstd::prelude::*;

verus! {

#[verifier::external_type_specification]
#[verifier::external_body]
pub struct ExUuidError(uuid::Error);

/// The lowercase hex digit for `d`, for `d < 16`.
pub open spec fn lower_hex_digit(d: nat) -> char {
    seq!['0', '1', '2', '3', '4', '5', '6', '7', '8', '9', 'a', 'b', 'c', 'd', 'e', 'f'][d as int]
}

/// The value of a hex digit of either case.
pub open spec fn hex_digit_value(c: char) -> Option<nat> {
    if '0' <= c && c <= '9' {
        Some((c as nat - '0' as nat) as nat)
    } else if 'a' <= c && c <= 'f' {
        Some((c as nat - 'a' as nat + 10) as nat)
    } else if 'A' <= c && c <= 'F' {
        Some((c as nat - 'A' as nat + 10) as nat)
    } else {
        None
    }
}

pub open spec fn all_hex(s: Seq<char>) -> bool {
    forall|i: int| 0 <= i < s.len() ==> (#[trigger] hex_digit_value(s[i])) is Some
}

/// The number that hex digits write, most significant digit first.
pub open spec fn hex_value(s: Seq<char>) -> nat
    decreases s.len(),
{
    if s.len() == 0 {
        0
    } else {
        hex_value(s.drop_last()) * 16 + hex_digit_value(s.last()).unwrap_or(0)
    }
}

/// The last `n` hex digits of `v`, lowercase, most significant first.
pub open spec fn hex_digits(v: nat, n: nat) -> Seq<char>
    decreases n,
{
    if n == 0 {
        Seq::empty()
    } else {
        hex_digits(v / 16, (n - 1) as nat).push(lower_hex_digit(v % 16))
    }
}

pub open spec fn pow16(n: nat) -> nat
    decreases n,
{
    if n == 0 {
        1
    } else {
        16 * pow16((n - 1) as nat)
    }
}

/// The compact form of a UUID: 32 lowercase hex digits, no separators.
pub open spec fn compact_uuid_text(u: u128) -> Seq<char> {
    hex_digits(u as nat, 32)
}

/// 32 hex digits of either case.
pub open spec fn is_simple_form(s: Seq<char>) -> bool {
    s.len() == 32 && all_hex(s)
}

/// The hex digits of a text in the 8-4-4-4-12 grouping, without its hyphens.
pub open spec fn hyphenated_digits(s: Seq<char>) -> Seq<char> {
    s.subrange(0, 8) + s.subrange(9, 13) + s.subrange(14, 18) + s.subrange(19, 23) + s.subrange(
        24,
        36,
    )
}

/// Hex digits in groups of 8, 4, 4, 4 and 12, joined by hyphens.
pub open spec fn is_hyphenated_form(s: Seq<char>) -> bool {
    &&& s.len() == 36
    &&& s[8] == '-' && s[13] == '-' && s[18] == '-' && s[23] == '-'
    &&& all_hex(hyphenated_digits(s))
}

/// The hyphenated form of 32 hex digits.
pub open spec fn hyphenate(d: Seq<char>) -> Seq<char> {
    d.subrange(0, 8) + seq!['-'] + d.subrange(8, 12) + seq!['-'] + d.subrange(12, 16) + seq!['-']
        + d.subrange(16, 20) + seq!['-'] + d.subrange(20, 32)
}

pub open spec fn urn_prefix() -> Seq<char> {
    seq!['u', 'r', 'n', ':', 'u', 'u', 'i', 'd', ':']
}

/// The 32 digits of a UUID text in the simple, hyphenated or URN form.
pub open spec fn uuid_text_digits(s: Seq<char>) -> Option<Seq<char>> {
    if is_simple_form(s) {
        Some(s)
    } else if is_hyphenated_form(s) {
        Some(hyphenated_digits(s))
    } else if s.len() == 45 && s.subrange(0, 9) == urn_prefix() && is_hyphenated_form(
        s.subrange(9, 45),
    ) {
        Some(hyphenated_digits(s.subrange(9, 45)))
    } else {
        None
    }
}

/// The UUID that a text writes, if it is one.
pub open spec fn uuid_of_text(s: Seq<char>) -> Option<u128> {
    match uuid_text_digits(s) {
        Some(d) => Some(hex_value(d) as u128),
        None => None,
    }
}

/// Relies on `uuid::Uuid::from_u128` and the `Display` of `Uuid::to_simple`: the
/// number's 32 hex digits, lowercase, most significant first.
#[verifier::external_body]
pub(crate) fn simple_text(u: u128) -> (r: String)
    ensures
        r@ == compact_uuid_text(u),
{
    uuid::Uuid::from_u128(u).to_simple().to_string()
}

/// Relies on `uuid::Uuid::parse_str` and `Uuid::as_u128`: the simple, hyphenated
/// and URN forms are read, in either case, and nothing else.
#[verifier::external_body]
pub(crate) fn parse_text(s: &str) -> (r: Result<u128, uuid::Error>)
    ensures
        match uuid_of_text(s@) {
            Some(u) => r is Ok && r->Ok_0 == u,
            None => r is Err,
        },
{
    match uuid::Uuid::parse_str(s) {
        Ok(u) => Ok(u.as_u128()),
        Err(e) => Err(e),
    }
}

proof fn lemma_hex_digit(d: nat)
    requires
        d < 16,
    ensures
        hex_digit_value(lower_hex_digit(d)) == Some(d),
{
    assert(d == 0 || d == 1 || d == 2 || d == 3 || d == 4 || d == 5 || d == 6 || d == 7 || d == 8
        || d == 9 || d == 10 || d == 11 || d == 12 || d == 13 || d == 14 || d == 15);
}

proof fn lemma_hex_digits(v: nat, n: nat)
    requires
        v < pow16(n),
    ensures
        hex_digits(v, n).len() == n,
        all_hex(hex_digits(v, n)),
        hex_value(hex_digits(v, n)) == v,
    decreases n,
{
    if n > 0 {
        let p = pow16((n - 1) as nat);
        assert(v / 16 < p) by (nonlinear_arith)
            requires
                v < 16 * p,
        ;
        lemma_hex_digits(v / 16, (n - 1) as nat);
        lemma_hex_digit(v % 16);
        let s = hex_digits(v, n);
        assert(s.drop_last() =~= hex_digits(v / 16, (n - 1) as nat));
        assert(v == (v / 16) * 16 + v % 16) by (nonlinear_arith);
        assert forall|i: int| 0 <= i < s.len() implies (#[trigger] hex_digit_value(s[i])) is Some by {
            if i < s.len() - 1 {
                assert(s[i] == hex_digits(v / 16, (n - 1) as nat)[i]);
            }
        }
    }
}

/// Reading the compact form of a UUID gives the UUID back.
pub proof fn lemma_compact_round_trip(u: u128)
    ensures
        is_simple_form(compact_uuid_text(u)),
        uuid_of_text(compact_uuid_text(u)) == Some(u),
{
    reveal_with_fuel(pow16, 33);
    assert(pow16(32) == 0x1_0000_0000_0000_0000_0000_0000_0000_0000);
    lemma_hex_digits(u as nat, 32);
}

/// The hyphenated form of 32 hex digits reads as the same UUID as the digits do.
pub proof fn lemma_hyphenated_same_uuid(d: Seq<char>)
    requires
        is_simple_form(d),
    ensures
        is_hyphenated_form(hyphenate(d)),
        uuid_of_text(hyphenate(d)) == uuid_of_text(d),
{
    let h = hyphenate(d);
    assert(hyphenated_digits(h) =~= d);
}

} // verus!
