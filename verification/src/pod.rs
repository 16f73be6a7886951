//! The byte-representation model: little-endian base-256 digits.
//!
//! A plain-old-data value is modelled by one natural number, its unsigned
//! bit pattern; its byte view is the little-endian digit string of that
//! number, one digit per byte.  [`le_bytes`] and [`le_value`] are the two
//! directions of that correspondence and the lemmas here show they are
//! mutually inverse.

use vstd::assert_seqs_equal;
use vstd::prelude::*;

verus! {

/// 256 to the power `n`: the number of distinct byte strings of length `n`.
pub open spec fn pow256(n: nat) -> nat
    decreases n,
{
    if n == 0 {
        1
    } else {
        256 * pow256((n - 1) as nat)
    }
}

/// The `n` little-endian base-256 digits of `v`.
pub open spec fn le_bytes(v: nat, n: nat) -> Seq<u8>
    decreases n,
{
    if n == 0 {
        Seq::empty()
    } else {
        seq![(v % 256) as u8] + le_bytes(v / 256, (n - 1) as nat)
    }
}

/// The value written by a little-endian byte string.
pub open spec fn le_value(s: Seq<u8>) -> nat
    decreases s.len(),
{
    if s.len() == 0 {
        0nat
    } else {
        (s[0] + 256 * le_value(s.drop_first())) as nat
    }
}

pub broadcast proof fn lemma_le_bytes_len(v: nat, n: nat)
    ensures
        (#[trigger] le_bytes(v, n)).len() == n,
    decreases n,
{
    if n > 0 {
        lemma_le_bytes_len(v / 256, (n - 1) as nat);
    }
}

/// Digit `i` of the length-`n` encoding of `v` does not depend on `n`:
/// it is the base-256 digit of weight `pow256(i)`.
pub proof fn lemma_le_bytes_index(v: nat, n: nat, i: int)
    requires
        0 <= i < n,
    ensures
        le_bytes(v, n)[i] == (v / pow256(i as nat)) % 256,
    decreases n,
{
    broadcast use lemma_le_bytes_len;

    if i == 0 {
        assert(pow256(0) == 1);
        vstd::arithmetic::div_mod::lemma_div_basics(v as int);
    } else {
        lemma_le_bytes_index(v / 256, (n - 1) as nat, i - 1);
        assert(le_bytes(v, n)[i] == le_bytes(v / 256, (n - 1) as nat)[i - 1]);
        lemma_div_div(v, (i - 1) as nat);
    }
}

/// `(v / 256) / pow256(k) == v / pow256(k + 1)`.
proof fn lemma_div_div(v: nat, k: nat)
    ensures
        v / 256 / pow256(k) == v / pow256((k + 1) as nat),
{
    lemma_pow256_pos(k);
    vstd::arithmetic::div_mod::lemma_div_denominator(v as int, 256, pow256(k) as int);
    assert(pow256((k + 1) as nat) == 256 * pow256(k));
}

pub broadcast proof fn lemma_pow256_pos(n: nat)
    ensures
        #[trigger] pow256(n) >= 1,
    decreases n,
{
    if n > 0 {
        lemma_pow256_pos((n - 1) as nat);
    }
}

/// Decoding the `n`-digit encoding of `v` recovers `v` up to the number
/// of values `n` digits can hold.
pub proof fn lemma_le_value_le_bytes(v: nat, n: nat)
    ensures
        le_value(le_bytes(v, n)) == v % pow256(n),
    decreases n,
{
    broadcast use lemma_le_bytes_len;

    if n == 0 {
        assert(v % 1 == 0) by {
            vstd::arithmetic::div_mod::lemma_mod_self_0(1);
            vstd::arithmetic::div_mod::lemma_small_mod(0, 1);
            vstd::arithmetic::div_mod::lemma_mod_twice(v as int, 1);
            vstd::arithmetic::div_mod::lemma_mod_bound(v as int, 1);
        }
    } else {
        let s = le_bytes(v, n);
        let rest = le_bytes(v / 256, (n - 1) as nat);
        assert(s.drop_first() =~= rest);
        lemma_le_value_le_bytes(v / 256, (n - 1) as nat);
        lemma_pow256_pos((n - 1) as nat);
        vstd::arithmetic::div_mod::lemma_breakdown(v as int, 256, pow256((n - 1) as nat) as int);
        assert(pow256(n) == 256 * pow256((n - 1) as nat));
    }
}

/// A value below `pow256(n)` round-trips exactly through its encoding.
pub proof fn lemma_le_value_le_bytes_exact(v: nat, n: nat)
    requires
        v < pow256(n),
    ensures
        le_value(le_bytes(v, n)) == v,
{
    lemma_le_value_le_bytes(v, n);
    vstd::arithmetic::div_mod::lemma_small_mod(v, pow256(n));
}

/// Re-encoding the value of a byte string gives that byte string back.
pub proof fn lemma_le_bytes_le_value(s: Seq<u8>)
    ensures
        le_bytes(le_value(s), s.len()) == s,
    decreases s.len(),
{
    broadcast use lemma_le_bytes_len;

    if s.len() > 0 {
        let v = le_value(s);
        let rest = s.drop_first();
        lemma_le_bytes_le_value(rest);
        assert(v == s[0] + 256 * le_value(rest));
        assert(v % 256 == s[0] && v / 256 == le_value(rest)) by {
            vstd::arithmetic::div_mod::lemma_fundamental_div_mod_converse(
                v as int,
                256,
                le_value(rest) as int,
                s[0] as int,
            );
        }
        assert_seqs_equal!(le_bytes(v, s.len()) == s, i => {
            if i > 0 {
                assert(le_bytes(v, s.len())[i] == le_bytes(le_value(rest), rest.len())[i - 1]);
            }
        });
    }
}

/// A byte string of length `n` writes a value below `pow256(n)`.
pub proof fn lemma_le_value_bound(s: Seq<u8>)
    ensures
        le_value(s) < pow256(s.len()),
    decreases s.len(),
{
    if s.len() > 0 {
        lemma_le_value_bound(s.drop_first());
    }
}

/// The first `m` digits of a longer encoding are the `m`-digit encoding:
/// truncating an encoding truncates nothing but high digits.
pub proof fn lemma_le_bytes_prefix(v: nat, n: nat, m: nat)
    requires
        m <= n,
    ensures
        le_bytes(v, n).subrange(0, m as int) == le_bytes(v, m),
{
    broadcast use lemma_le_bytes_len;

    assert_seqs_equal!(le_bytes(v, n).subrange(0, m as int) == le_bytes(v, m), i => {
        lemma_le_bytes_index(v, n, i);
        lemma_le_bytes_index(v, m, i);
    });
}

/// Extending an encoding by one digit appends the digit of weight `pow256(n)`.
pub proof fn lemma_le_bytes_snoc(v: nat, n: nat)
    ensures
        le_bytes(v, n + 1) == le_bytes(v, n).push(((v / pow256(n)) % 256) as u8),
{
    broadcast use lemma_le_bytes_len;

    assert_seqs_equal!(le_bytes(v, n + 1) == le_bytes(v, n).push(((v / pow256(n)) % 256) as u8), i => {
        lemma_le_bytes_index(v, n + 1, i);
        if i < n {
            lemma_le_bytes_index(v, n, i);
        }
    });
}

/// `pow256` never decreases.
pub proof fn lemma_pow256_increases(m: nat, n: nat)
    requires
        m <= n,
    ensures
        pow256(m) <= pow256(n),
    decreases n,
{
    if m < n {
        lemma_pow256_increases(m, (n - 1) as nat);
        lemma_pow256_pos((n - 1) as nat);
    }
}

/// The low `n` bytes of `v`, little-endian, as a vector.
pub fn le_digits_of(v: u128, n: usize) -> (r: Vec<u8>)
    requires
        n <= 16,
    ensures
        r@ == le_bytes(v as nat, n as nat),
{
    let mut r: Vec<u8> = Vec::new();
    let mut cur: u128 = v;
    let mut i: usize = 0;
    proof {
        vstd::arithmetic::div_mod::lemma_div_basics(v as int);
        assert(le_bytes(v as nat, 0) =~= r@);
    }
    while i < n
        invariant
            i <= n <= 16,
            r@.len() == i,
            r@ == le_bytes(v as nat, i as nat),
            cur as nat == (v as nat) / pow256(i as nat),
        decreases n - i,
    {
        r.push((cur % 256) as u8);
        proof {
            lemma_le_bytes_snoc(v as nat, i as nat);
            lemma_pow256_pos(i as nat);
            vstd::arithmetic::div_mod::lemma_div_denominator(
                v as int,
                pow256(i as nat) as int,
                256,
            );
            assert(pow256((i + 1) as nat) == 256 * pow256(i as nat));
        }
        cur = cur / 256;
        i = i + 1;
    }
    r
}

/// The value written by the bytes of `s`, little-endian.  `s` must be
/// short enough for the value to fit the widest supported word.
pub fn le_value_of(s: &[u8]) -> (r: u128)
    requires
        s@.len() <= 16,
    ensures
        r as nat == le_value(s@),
{
    let n: usize = s.len();
    let mut r: u128 = 0;
    let mut i: usize = n;
    proof {
        assert(s@.subrange(n as int, n as int) =~= Seq::<u8>::empty());
    }
    while i > 0
        invariant
            i <= n <= 16,
            n == s@.len(),
            r as nat == le_value(s@.subrange(i as int, n as int)),
            r < pow256((n - i) as nat),
        decreases i,
    {
        let ghost prev = (n - i) as nat;
        proof {
            lemma_pow256_increases(prev, 15);
            assert(pow256(15) == 0x1000000000000000000000000000000) by {
                reveal_with_fuel(pow256, 16);
            }
            assert(s@.subrange(i - 1, n as int).drop_first() =~= s@.subrange(i as int, n as int));
        }
        i = i - 1;
        r = r * 256 + (s[i] as u128);
    }
    proof {
        assert(s@.subrange(0, n as int) =~= s@);
    }
    r
}

/// Marker for plain old data: a fixed-size integer type whose values are
/// exactly the byte strings of its size.
///
/// A value is modelled by `value_spec`, its unsigned bit pattern; its byte
/// view is [`pod_bytes`], the little-endian digits of that pattern.  The
/// three laws say that the model is faithful: the pattern fits the size,
/// distinct values have distinct patterns, and the size is a machine word's
/// at most.
///
/// Implemented for the ten fixed-width integer types.  The pointer-width
/// pair is left out: its size is not one constant across platforms, and
/// this library's byte views are stated with exact sizes.
pub trait Pod: Sized + Copy {
    /// Size of the type in bytes.
    spec fn size_spec() -> nat;

    /// The unsigned bit pattern of the value.
    spec fn value_spec(self) -> nat;

    proof fn lemma_size()
        ensures
            0 < Self::size_spec() <= 16,
    ;

    proof fn lemma_value_bound(self)
        ensures
            self.value_spec() < pow256(Self::size_spec()),
    ;

    proof fn lemma_value_injective(a: Self, b: Self)
        ensures
            a.value_spec() == b.value_spec() ==> a == b,
    ;

    /// Size of the type in bytes.
    fn size_of() -> (n: usize)
        ensures
            n == Self::size_spec(),
    ;

    /// The byte view of the value, as an owned vector.
    fn pod_to_bytes(&self) -> (r: Vec<u8>)
        ensures
            r@ == le_bytes(self.value_spec(), Self::size_spec()),
    ;

    /// The value whose byte view a string of exactly `size_spec` bytes is.
    fn pod_from_bytes(s: &[u8]) -> (r: Self)
        requires
            s@.len() == Self::size_spec(),
        ensures
            r.value_spec() == le_value(s@),
    ;
}

/// The byte view of a POD value: the little-endian digits of its bit
/// pattern, one per byte of its size.
pub open spec fn pod_bytes<T: Pod>(v: T) -> Seq<u8> {
    le_bytes(v.value_spec(), T::size_spec())
}

pub broadcast proof fn lemma_pod_bytes_len<T: Pod>(v: T)
    ensures
        (#[trigger] pod_bytes(v)).len() == T::size_spec(),
{
    broadcast use lemma_le_bytes_len;

}

/// Decoding a value's byte view recovers the value's bit pattern.
pub proof fn lemma_pod_round_trip<T: Pod>(v: T)
    ensures
        le_value(pod_bytes(v)) == v.value_spec(),
{
    T::lemma_value_bound(v);
    lemma_le_value_le_bytes_exact(v.value_spec(), T::size_spec());
}

/// Values with the same byte view are equal.
pub proof fn lemma_pod_bytes_injective<T: Pod>(a: T, b: T)
    ensures
        pod_bytes(a) == pod_bytes(b) ==> a == b,
{
    if pod_bytes(a) == pod_bytes(b) {
        lemma_pod_round_trip(a);
        lemma_pod_round_trip(b);
        T::lemma_value_injective(a, b);
    }
}

impl Pod for u8 {
    open spec fn size_spec() -> nat {
        1
    }

    open spec fn value_spec(self) -> nat {
        self as nat
    }

    proof fn lemma_size() {
    }

    proof fn lemma_value_bound(self) {
        assert(pow256(1) == 256) by {
            reveal_with_fuel(pow256, 2);
        }
    }

    proof fn lemma_value_injective(a: Self, b: Self) {
    }

    fn size_of() -> usize {
        1
    }

    fn pod_to_bytes(&self) -> Vec<u8> {
        le_digits_of(*self as u128, 1)
    }

    fn pod_from_bytes(s: &[u8]) -> Self {
        proof {
            lemma_le_value_bound(s@);
            assert(pow256(1) == 256) by {
                reveal_with_fuel(pow256, 2);
            }
        }
        le_value_of(s) as u8
    }
}

impl Pod for u16 {
    open spec fn size_spec() -> nat {
        2
    }

    open spec fn value_spec(self) -> nat {
        self as nat
    }

    proof fn lemma_size() {
    }

    proof fn lemma_value_bound(self) {
        assert(pow256(2) == 0x10000) by {
            reveal_with_fuel(pow256, 3);
        }
    }

    proof fn lemma_value_injective(a: Self, b: Self) {
    }

    fn size_of() -> usize {
        2
    }

    fn pod_to_bytes(&self) -> Vec<u8> {
        le_digits_of(*self as u128, 2)
    }

    fn pod_from_bytes(s: &[u8]) -> Self {
        proof {
            lemma_le_value_bound(s@);
            assert(pow256(2) == 0x10000) by {
                reveal_with_fuel(pow256, 3);
            }
        }
        le_value_of(s) as u16
    }
}

impl Pod for u32 {
    open spec fn size_spec() -> nat {
        4
    }

    open spec fn value_spec(self) -> nat {
        self as nat
    }

    proof fn lemma_size() {
    }

    proof fn lemma_value_bound(self) {
        assert(pow256(4) == 0x1_0000_0000) by {
            reveal_with_fuel(pow256, 5);
        }
    }

    proof fn lemma_value_injective(a: Self, b: Self) {
    }

    fn size_of() -> usize {
        4
    }

    fn pod_to_bytes(&self) -> Vec<u8> {
        le_digits_of(*self as u128, 4)
    }

    fn pod_from_bytes(s: &[u8]) -> Self {
        proof {
            lemma_le_value_bound(s@);
            assert(pow256(4) == 0x1_0000_0000) by {
                reveal_with_fuel(pow256, 5);
            }
        }
        le_value_of(s) as u32
    }
}

impl Pod for u64 {
    open spec fn size_spec() -> nat {
        8
    }

    open spec fn value_spec(self) -> nat {
        self as nat
    }

    proof fn lemma_size() {
    }

    proof fn lemma_value_bound(self) {
        assert(pow256(8) == 0x1_0000_0000_0000_0000) by {
            reveal_with_fuel(pow256, 9);
        }
    }

    proof fn lemma_value_injective(a: Self, b: Self) {
    }

    fn size_of() -> usize {
        8
    }

    fn pod_to_bytes(&self) -> Vec<u8> {
        le_digits_of(*self as u128, 8)
    }

    fn pod_from_bytes(s: &[u8]) -> Self {
        proof {
            lemma_le_value_bound(s@);
            assert(pow256(8) == 0x1_0000_0000_0000_0000) by {
                reveal_with_fuel(pow256, 9);
            }
        }
        le_value_of(s) as u64
    }
}

impl Pod for i8 {
    open spec fn size_spec() -> nat {
        1
    }

    open spec fn value_spec(self) -> nat {
        (self as u8) as nat
    }

    proof fn lemma_size() {
    }

    proof fn lemma_value_bound(self) {
        assert(pow256(1) == 256) by {
            reveal_with_fuel(pow256, 2);
        }
    }

    proof fn lemma_value_injective(a: Self, b: Self) {
        assert(a as u8 == b as u8 ==> a == b) by (bit_vector);
    }

    fn size_of() -> usize {
        1
    }

    fn pod_to_bytes(&self) -> Vec<u8> {
        le_digits_of((#[verifier::truncate] (*self as u8)) as u128, 1)
    }

    fn pod_from_bytes(s: &[u8]) -> Self {
        proof {
            lemma_le_value_bound(s@);
            assert(pow256(1) == 256) by {
                reveal_with_fuel(pow256, 2);
            }
        }
        let u: u8 = le_value_of(s) as u8;
        let r: i8 = #[verifier::truncate] (u as i8);
        proof {
            assert((u as i8) as u8 == u) by (bit_vector);
        }
        r
    }
}

impl Pod for i16 {
    open spec fn size_spec() -> nat {
        2
    }

    open spec fn value_spec(self) -> nat {
        (self as u16) as nat
    }

    proof fn lemma_size() {
    }

    proof fn lemma_value_bound(self) {
        assert(pow256(2) == 0x10000) by {
            reveal_with_fuel(pow256, 3);
        }
    }

    proof fn lemma_value_injective(a: Self, b: Self) {
        assert(a as u16 == b as u16 ==> a == b) by (bit_vector);
    }

    fn size_of() -> usize {
        2
    }

    fn pod_to_bytes(&self) -> Vec<u8> {
        le_digits_of((#[verifier::truncate] (*self as u16)) as u128, 2)
    }

    fn pod_from_bytes(s: &[u8]) -> Self {
        proof {
            lemma_le_value_bound(s@);
            assert(pow256(2) == 0x10000) by {
                reveal_with_fuel(pow256, 3);
            }
        }
        let u: u16 = le_value_of(s) as u16;
        let r: i16 = #[verifier::truncate] (u as i16);
        proof {
            assert((u as i16) as u16 == u) by (bit_vector);
        }
        r
    }
}

impl Pod for i32 {
    open spec fn size_spec() -> nat {
        4
    }

    open spec fn value_spec(self) -> nat {
        (self as u32) as nat
    }

    proof fn lemma_size() {
    }

    proof fn lemma_value_bound(self) {
        assert(pow256(4) == 0x1_0000_0000) by {
            reveal_with_fuel(pow256, 5);
        }
    }

    proof fn lemma_value_injective(a: Self, b: Self) {
        assert(a as u32 == b as u32 ==> a == b) by (bit_vector);
    }

    fn size_of() -> usize {
        4
    }

    fn pod_to_bytes(&self) -> Vec<u8> {
        le_digits_of((#[verifier::truncate] (*self as u32)) as u128, 4)
    }

    fn pod_from_bytes(s: &[u8]) -> Self {
        proof {
            lemma_le_value_bound(s@);
            assert(pow256(4) == 0x1_0000_0000) by {
                reveal_with_fuel(pow256, 5);
            }
        }
        let u: u32 = le_value_of(s) as u32;
        let r: i32 = #[verifier::truncate] (u as i32);
        proof {
            assert((u as i32) as u32 == u) by (bit_vector);
        }
        r
    }
}

impl Pod for i64 {
    open spec fn size_spec() -> nat {
        8
    }

    open spec fn value_spec(self) -> nat {
        (self as u64) as nat
    }

    proof fn lemma_size() {
    }

    proof fn lemma_value_bound(self) {
        assert(pow256(8) == 0x1_0000_0000_0000_0000) by {
            reveal_with_fuel(pow256, 9);
        }
    }

    proof fn lemma_value_injective(a: Self, b: Self) {
        assert(a as u64 == b as u64 ==> a == b) by (bit_vector);
    }

    fn size_of() -> usize {
        8
    }

    fn pod_to_bytes(&self) -> Vec<u8> {
        le_digits_of((#[verifier::truncate] (*self as u64)) as u128, 8)
    }

    fn pod_from_bytes(s: &[u8]) -> Self {
        proof {
            lemma_le_value_bound(s@);
            assert(pow256(8) == 0x1_0000_0000_0000_0000) by {
                reveal_with_fuel(pow256, 9);
            }
        }
        let u: u64 = le_value_of(s) as u64;
        let r: i64 = #[verifier::truncate] (u as i64);
        proof {
            assert((u as i64) as u64 == u) by (bit_vector);
        }
        r
    }
}

impl Pod for i128 {
    open spec fn size_spec() -> nat {
        16
    }

    open spec fn value_spec(self) -> nat {
        (self as u128) as nat
    }

    proof fn lemma_size() {
    }

    proof fn lemma_value_bound(self) {
        assert(pow256(16) == 0x1_0000_0000_0000_0000_0000_0000_0000_0000) by {
            reveal_with_fuel(pow256, 17);
        }
    }

    proof fn lemma_value_injective(a: Self, b: Self) {
        assert(a as u128 == b as u128 ==> a == b) by (bit_vector);
    }

    fn size_of() -> usize {
        16
    }

    fn pod_to_bytes(&self) -> Vec<u8> {
        le_digits_of(#[verifier::truncate] (*self as u128), 16)
    }

    fn pod_from_bytes(s: &[u8]) -> Self {
        let u: u128 = le_value_of(s);
        let r: i128 = #[verifier::truncate] (u as i128);
        proof {
            assert((u as i128) as u128 == u) by (bit_vector);
        }
        r
    }
}

impl Pod for u128 {
    open spec fn size_spec() -> nat {
        16
    }

    open spec fn value_spec(self) -> nat {
        self as nat
    }

    proof fn lemma_size() {
    }

    proof fn lemma_value_bound(self) {
        assert(pow256(16) == 0x1_0000_0000_0000_0000_0000_0000_0000_0000) by {
            reveal_with_fuel(pow256, 17);
        }
    }

    proof fn lemma_value_injective(a: Self, b: Self) {
    }

    fn size_of() -> usize {
        16
    }

    fn pod_to_bytes(&self) -> Vec<u8> {
        le_digits_of(*self, 16)
    }

    fn pod_from_bytes(s: &[u8]) -> Self {
        le_value_of(s)
    }
}

} // verus!
