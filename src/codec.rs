use crate::error::{FormatError, PartialOfferError};
use vstd::prelude::*;

verus! {

/// The value of the digit string `s` in `base`, most significant digit first.
pub open spec fn value_in(s: Seq<u8>, base: nat) -> nat
    decreases s.len(),
{
    if s.len() == 0 {
        0
    } else {
        value_in(s.drop_last(), base) * base + s.last() as nat
    }
}

/// The `len` lowest digits of `v` in `base`, most significant first.
pub open spec fn digits_in(v: nat, len: nat, base: nat) -> Seq<u8>
    decreases len,
{
    if len == 0 {
        seq![]
    } else {
        digits_in(v / base, (len - 1) as nat, base).push((v % base) as u8)
    }
}

pub open spec fn pow_in(base: nat, k: nat) -> nat
    decreases k,
{
    if k == 0 {
        1
    } else {
        base * pow_in(base, (k - 1) as nat)
    }
}

pub open spec fn pow2(k: nat) -> nat {
    pow_in(2, k)
}

/// Every entry is a 5-bit group.
pub open spec fn all_groups(g: Seq<u8>) -> bool {
    forall|i: int| 0 <= i < g.len() ==> #[trigger] g[i] < 32
}

/// The 5-bit groups of `b`: its bits, zero-padded at the end to a multiple of five.
pub open spec fn groups_of(b: Seq<u8>) -> Seq<u8> {
    let m = (8 * b.len() + 4) / 5;
    digits_in(value_in(b, 256) * pow2((5 * m - 8 * b.len()) as nat), m, 32)
}

/// The bits left over when the groups `g` are read back as bytes.
pub open spec fn leftover_bits(g: Seq<u8>) -> nat {
    (5 * g.len()) % 8
}

/// Whether the groups `g` read back as whole bytes: fewer than five bits left
/// over, all of them zero.
pub open spec fn padding_ok(g: Seq<u8>) -> bool {
    leftover_bits(g) < 5 && value_in(g, 32) % pow2(leftover_bits(g)) == 0
}

/// The bytes that the groups `g` hold.
pub open spec fn bytes_of(g: Seq<u8>) -> Seq<u8> {
    digits_in(value_in(g, 32) / pow2(leftover_bits(g)), (5 * g.len() / 8) as nat, 256)
}

/// The bech32m string with human-readable part `partial` and data groups `g`.
pub uninterp spec fn partial_bech32m_of(g: Seq<u8>) -> Seq<char>;

/// What bech32 decoding reads from a string: its human-readable part as
/// bytes, its data groups, and whether the checksum is of the bech32m variant.
pub uninterp spec fn bech32_decoded_of(s: Seq<char>) -> Option<(Seq<u8>, Seq<u8>, bool)>;

/// The human-readable part of an encoded offer.
pub open spec fn partial_hrp() -> Seq<u8> {
    seq![0x70u8, 0x61, 0x72, 0x74, 0x69, 0x61, 0x6c]
}

/// Relies on bech32::convert_bits(data, 8, 5, true): the bits of the bytes
/// regrouped by five, the last group padded with zeros. It fails only on
/// input values wider than eight bits, which bytes never are.
#[verifier::external_body]
fn regroup_to_five(data: &Vec<u8>) -> (r: Result<Vec<u8>, ()>)
    ensures
        r.is_ok() && r.unwrap()@ == groups_of(data@),
{
    bech32::convert_bits(data.as_slice(), 8, 5, true).map_err(|_| ())
}

/// Relies on bech32::convert_bits(groups, 5, 8, false): the bits of the
/// groups regrouped by eight; it fails when five or more bits are left over
/// or a left-over bit is set.
#[verifier::external_body]
fn regroup_to_eight(groups: &Vec<u8>) -> (r: Result<Vec<u8>, ()>)
    requires
        all_groups(groups@),
    ensures
        r.is_ok() <==> padding_ok(groups@),
        r.is_ok() ==> r.unwrap()@ == bytes_of(groups@),
{
    bech32::convert_bits(groups.as_slice(), 5, 8, false).map_err(|_| ())
}

/// Relies on bech32::encode("partial", groups, Variant::Bech32m), which fails
/// only on an invalid human-readable part or a group wider than five bits.
#[verifier::external_body]
fn bech32m_encode(groups: &Vec<u8>) -> (r: Result<String, ()>)
    requires
        all_groups(groups@),
    ensures
        r.is_ok() && r.unwrap()@ == partial_bech32m_of(groups@),
{
    let data: Result<Vec<bech32::u5>, bech32::Error> =
        groups.iter().map(|g| bech32::u5::try_from_u8(*g)).collect();
    let data = data.map_err(|_| ())?;
    bech32::encode("partial", data, bech32::Variant::Bech32m).map_err(|_| ())
}

/// Relies on bech32::decode: the lower-case human-readable part, the 5-bit
/// data groups without the checksum, and the checksum variant. It reads back
/// exactly what bech32::encode wrote.
#[verifier::external_body]
fn bech32_decode(s: &str) -> (r: Result<(Vec<u8>, Vec<u8>, bool), ()>)
    ensures
        r.is_ok() <==> bech32_decoded_of(s@).is_some(),
        r.is_ok() ==> bech32_decoded_of(s@) == Some((r.unwrap().0@, r.unwrap().1@, r.unwrap().2)),
        r.is_ok() ==> all_groups(r.unwrap().1@),
        forall|g: Seq<u8>| all_groups(g) && s@ == #[trigger] partial_bech32m_of(g) ==> r.is_ok() && r.unwrap().0@ == partial_hrp() && r.unwrap().1@ == g && r.unwrap().2,
{
    let (hrp, data, variant) = bech32::decode(s).map_err(|_| ())?;
    let data: Vec<u8> = data.into_iter().map(|g| g.to_u8()).collect();
    Ok((hrp.into_bytes(), data, variant == bech32::Variant::Bech32m))
}

pub proof fn lemma_digits_value(v: nat, len: nat, base: nat)
    requires
        2 <= base <= 256,
        v < pow_in(base, len),
    ensures
        value_in(digits_in(v, len, base), base) == v,
        digits_in(v, len, base).len() == len,
    decreases len,
{
    if len > 0 {
        let p = pow_in(base, (len - 1) as nat);
        assert(v / base < p) by (nonlinear_arith)
            requires v < base * p, base > 0;
        lemma_digits_value(v / base, (len - 1) as nat, base);
        let d = digits_in(v, len, base);
        assert(d.drop_last() =~= digits_in(v / base, (len - 1) as nat, base));
        assert(v % base < 256) by (nonlinear_arith)
            requires base <= 256, base > 0;
        assert((v / base) * base + v % base == v) by (nonlinear_arith)
            requires base > 0;
    }
}

pub proof fn lemma_value_digits(s: Seq<u8>, base: nat)
    requires
        2 <= base <= 256,
        forall|i: int| 0 <= i < s.len() ==> #[trigger] s[i] < base,
    ensures
        digits_in(value_in(s, base), s.len(), base) == s,
    decreases s.len(),
{
    if s.len() > 0 {
        let t = s.drop_last();
        assert forall|i: int| 0 <= i < t.len() implies #[trigger] t[i] < base by {
            assert(t[i] == s[i]);
        }
        lemma_value_digits(t, base);
        let v = value_in(t, base);
        let last = s.last() as nat;
        assert(last < base);
        assert((v * base + last) / base == v && (v * base + last) % base == last) by (nonlinear_arith)
            requires last < base, base > 0;
        assert(digits_in(value_in(s, base), s.len(), base) =~= t.push(s.last()));
        assert(t.push(s.last()) =~= s);
    }
}

pub proof fn lemma_value_bound(s: Seq<u8>, base: nat)
    requires
        2 <= base <= 256,
        forall|i: int| 0 <= i < s.len() ==> #[trigger] s[i] < base,
    ensures
        value_in(s, base) < pow_in(base, s.len()),
    decreases s.len(),
{
    if s.len() > 0 {
        let t = s.drop_last();
        assert forall|i: int| 0 <= i < t.len() implies #[trigger] t[i] < base by {
            assert(t[i] == s[i]);
        }
        lemma_value_bound(t, base);
        let v = value_in(t, base);
        let p = pow_in(base, t.len());
        let last = s.last() as nat;
        assert(v * base + last < base * p) by (nonlinear_arith)
            requires v < p, last < base;
    }
}

proof fn lemma_pow_add(base: nat, x: nat, y: nat)
    ensures
        pow_in(base, x) * pow_in(base, y) == pow_in(base, x + y),
    decreases x,
{
    if x > 0 {
        lemma_pow_add(base, (x - 1) as nat, y);
        let a = pow_in(base, (x - 1) as nat);
        let b = pow_in(base, y);
        assert(base * a * b == base * (a * b)) by (nonlinear_arith);
        assert((x - 1) as nat + y == (x + y - 1) as nat);
        assert(pow_in(base, x + y) == base * pow_in(base, (x + y - 1) as nat));
        assert(pow_in(base, x) == base * a);
        let c = pow_in(base, x + y);
        let px = pow_in(base, x);
        assert(px * b == c) by (nonlinear_arith)
            requires px == base * a, c == base * (a * b);
    } else {
        assert(pow_in(base, 0) == 1);
        let py = pow_in(base, y);
        assert(1 * py == py) by (nonlinear_arith);
    }
}

proof fn lemma_pow_of_pow2(k: nat, n: nat)
    ensures
        pow_in(pow2(k), n) == pow2(k * n),
    decreases n,
{
    if n > 0 {
        lemma_pow_of_pow2(k, (n - 1) as nat);
        lemma_pow_add(2, k, k * (n - 1) as nat);
        assert(k + k * (n - 1) as nat == k * n) by (nonlinear_arith)
            requires n > 0;
        assert(pow_in(pow2(k), n) == pow2(k) * pow_in(pow2(k), (n - 1) as nat));
        assert(pow2(k) * pow2(k * (n - 1) as nat) == pow2(k + k * (n - 1) as nat));
    } else {
        assert(k * n == 0) by (nonlinear_arith)
            requires n == 0;
        assert(pow2(0) == 1);
    }
}

proof fn lemma_pow_positive(base: nat, k: nat)
    requires
        base > 0,
    ensures
        pow_in(base, k) > 0,
    decreases k,
{
    if k > 0 {
        lemma_pow_positive(base, (k - 1) as nat);
        assert(base * pow_in(base, (k - 1) as nat) > 0) by (nonlinear_arith)
            requires base > 0, pow_in(base, (k - 1) as nat) > 0;
    }
}

/// Regrouping bytes into 5-bit groups and back gives the same bytes, for
/// every byte string.
pub proof fn lemma_regroup_round_trip(b: Seq<u8>)
    ensures
        all_groups(groups_of(b)),
        padding_ok(groups_of(b)),
        bytes_of(groups_of(b)) == b,
{
    let n = b.len();
    let m = (8 * n + 4) / 5;
    let p = (5 * m - 8 * n) as nat;
    assert(8 * n <= 5 * m <= 8 * n + 4);
    assert(p <= 4);
    let v = value_in(b, 256);
    assert(pow2(8) == 256) by {
        reveal_with_fuel(pow_in, 9);
    }
    assert(pow2(5) == 32) by {
        reveal_with_fuel(pow_in, 6);
    }
    lemma_value_bound(b, 256);
    lemma_pow_of_pow2(8, n);
    lemma_pow_of_pow2(5, m);
    lemma_pow_add(2, 8 * n, p);
    assert(8 * n + p == 5 * m);
    lemma_pow_positive(2, p);
    let w = v * pow2(p);
    assert(w < pow_in(32, m)) by (nonlinear_arith)
        requires v < pow2(8 * n), pow2(8 * n) * pow2(p) == pow2(5 * m), pow_in(32, m) == pow2(5 * m),
            pow2(p) > 0, w == v * pow2(p);
    lemma_digits_value(w, m, 32);
    let g = groups_of(b);
    assert(g == digits_in(w, m, 32));
    assert forall|i: int| 0 <= i < g.len() implies #[trigger] g[i] < 32 by {
        lemma_digit_bound(w, m, 32, i);
    }
    assert(leftover_bits(g) == p);
    assert(w % pow2(p) == 0) by (nonlinear_arith)
        requires w == v * pow2(p), pow2(p) > 0;
    assert(w / pow2(p) == v) by (nonlinear_arith)
        requires w == v * pow2(p), pow2(p) > 0;
    assert(5 * g.len() / 8 == n);
    lemma_value_digits(b, 256);
}

pub proof fn lemma_digit_bound(v: nat, len: nat, base: nat, i: int)
    requires
        2 <= base <= 256,
        0 <= i < digits_in(v, len, base).len(),
    ensures
        digits_in(v, len, base)[i] < base,
    decreases len,
{
    if len > 0 {
        let d = digits_in(v, len, base);
        if i == d.len() - 1 {
            assert(v % base < base) by (nonlinear_arith)
                requires base > 0;
        } else {
            lemma_digit_bound(v / base, (len - 1) as nat, base, i);
        }
    }
}

fn is_partial_hrp(hrp: &Vec<u8>) -> (r: bool)
    ensures
        r == (hrp@ == partial_hrp()),
{
    let expected: Vec<u8> = vec![0x70u8, 0x61, 0x72, 0x74, 0x69, 0x61, 0x6c];
    assert(expected@ =~= partial_hrp());
    if hrp.len() != expected.len() {
        return false;
    }
    let mut i: usize = 0;
    while i < hrp.len()
        invariant
            0 <= i <= hrp@.len(),
            hrp@.len() == expected@.len(),
            expected@ == partial_hrp(),
            forall|j: int| 0 <= j < i ==> hrp@[j] == expected@[j],
        decreases hrp@.len() - i,
    {
        if hrp[i] != expected[i] {
            return false;
        }
        i = i + 1;
    }
    assert(hrp@ =~= partial_hrp());
    true
}

/// Encodes offer bytes as a bech32m string with human-readable part `partial`.
pub fn encode_partial_offer_data(offer: &Vec<u8>) -> (r: Result<String, PartialOfferError>)
    ensures
        r matches Ok(s) && s@ == partial_bech32m_of(groups_of(offer@)),
{
    proof {
        lemma_regroup_round_trip(offer@);
    }
    let groups = match regroup_to_five(offer) {
        Ok(g) => g,
        Err(_) => {
            return Err(PartialOfferError::Format(FormatError::Malformed));
        },
    };
    match bech32m_encode(&groups) {
        Ok(s) => Ok(s),
        Err(_) => Err(PartialOfferError::Format(FormatError::Malformed)),
    }
}

/// Decodes an offer string back into bytes. It refuses a string that is not
/// bech32, one with the original bech32 checksum, one whose human-readable
/// part is not `partial`, and one whose groups leave bad padding.
pub fn decode_partial_offer_data(offer: &str) -> (r: Result<Vec<u8>, PartialOfferError>)
    ensures
        match bech32_decoded_of(offer@) {
            None => r == Err::<Vec<u8>, PartialOfferError>(PartialOfferError::Format(FormatError::Malformed)),
            Some((hrp, data, is_m)) => {
                &&& !is_m ==> r == Err::<Vec<u8>, PartialOfferError>(PartialOfferError::Format(FormatError::WrongVariant))
                &&& is_m && hrp != partial_hrp() ==> r == Err::<Vec<u8>, PartialOfferError>(
                    PartialOfferError::Format(FormatError::WrongPrefix))
                &&& is_m && hrp == partial_hrp() && !padding_ok(data) ==> r == Err::<Vec<u8>, PartialOfferError>(
                    PartialOfferError::Format(FormatError::BadPadding))
                &&& is_m && hrp == partial_hrp() && padding_ok(data) ==> (r matches Ok(b) && b@ == bytes_of(data))
            },
        },
        forall|b: Seq<u8>| offer@ == #[trigger] partial_bech32m_of(groups_of(b)) ==> (r matches Ok(out) && out@ == b),
{
    proof {
        assert forall|b: Seq<u8>| offer@ == #[trigger] partial_bech32m_of(groups_of(b)) implies
            all_groups(groups_of(b)) && padding_ok(groups_of(b)) && bytes_of(groups_of(b)) == b by {
            lemma_regroup_round_trip(b);
        }
    }
    let (hrp, data, is_m) = match bech32_decode(offer) {
        Ok(parts) => parts,
        Err(_) => {
            return Err(PartialOfferError::Format(FormatError::Malformed));
        },
    };
    if !is_m {
        return Err(PartialOfferError::Format(FormatError::WrongVariant));
    }
    if !is_partial_hrp(&hrp) {
        return Err(PartialOfferError::Format(FormatError::WrongPrefix));
    }
    match regroup_to_eight(&data) {
        Ok(b) => Ok(b),
        Err(_) => Err(PartialOfferError::Format(FormatError::BadPadding)),
    }
}

} // verus!
