//! Bits manipulation.
//!
//! [`Bits`] wraps one fixed-width unsigned integer and addresses its bits
//! by position, least significant first.  Indices wrap around the bit
//! width — `get(90)` on a 32-bit value reads bit `90 % 32 == 26` — so no
//! operation here can fault, matching hardware shift-by-register
//! semantics.

use vstd::arithmetic::power2::pow2;
use vstd::prelude::*;

verus! {

/// Bit `i` of the natural number `v`: its base-2 digit of weight
/// `pow2(i)`.
pub open spec fn nat_bit(v: nat, i: nat) -> bool {
    (v / pow2(i)) % 2 == 1
}

/// Zero has no bit set.
pub proof fn lemma_nat_bit_zero(i: nat)
    ensures
        !nat_bit(0, i),
{
    broadcast use vstd::arithmetic::power2::lemma_pow2_pos;

    vstd::arithmetic::div_mod::lemma_div_of0(pow2(i) as int);
}

/// Halving a number shifts its bits down by one position.
proof fn lemma_nat_bit_half(v: nat, i: nat)
    ensures
        nat_bit(v / 2, i) == nat_bit(v, i + 1),
{
    broadcast use vstd::arithmetic::power2::lemma_pow2_pos;

    vstd::arithmetic::div_mod::lemma_div_denominator(v as int, 2, pow2(i) as int);
    vstd::arithmetic::power2::lemma_pow2_unfold((i + 1) as nat);
}

/// A natural number below `pow2(n)` is determined by its first `n` bits.
pub proof fn lemma_nat_bits_injective(a: nat, b: nat, n: nat)
    requires
        a < pow2(n),
        b < pow2(n),
        forall|i: nat| i < n ==> nat_bit(a, i) == nat_bit(b, i),
    ensures
        a == b,
    decreases n,
{
    broadcast use vstd::arithmetic::power2::lemma_pow2_pos;

    if n == 0 {
        assert(pow2(0) == 1) by {
            vstd::arithmetic::power2::lemma2_to64();
        }
    } else {
        vstd::arithmetic::power2::lemma_pow2_unfold(n);
        vstd::arithmetic::div_mod::lemma_fundamental_div_mod(a as int, 2);
        vstd::arithmetic::div_mod::lemma_fundamental_div_mod(b as int, 2);
        assert(a / 2 < pow2((n - 1) as nat));
        assert(b / 2 < pow2((n - 1) as nat));
        assert(nat_bit(a, 0) == nat_bit(b, 0));
        assert(a / pow2(0) == a && b / pow2(0) == b) by {
            vstd::arithmetic::power2::lemma2_to64();
            vstd::arithmetic::div_mod::lemma_div_basics(a as int);
            vstd::arithmetic::div_mod::lemma_div_basics(b as int);
        }
        assert(a % 2 == b % 2);
        assert forall|i: nat| i < (n - 1) as nat implies #[trigger] nat_bit(a / 2, i) == nat_bit(
            b / 2,
            i,
        ) by {
            lemma_nat_bit_half(a, i);
            lemma_nat_bit_half(b, i);
            assert(nat_bit(a, i + 1) == nat_bit(b, i + 1));
        }
        lemma_nat_bits_injective(a / 2, b / 2, (n - 1) as nat);
    }
}

/// A fixed-width unsigned integer whose bits can be read and written one
/// at a time.  A value is determined by its bits: that is the last law.
pub trait BitInt: Sized + Copy {
    /// Number of bits in the type.
    spec fn bits_spec() -> nat;

    /// Bit `i` of the value, counted from the least significant end.
    spec fn bit_spec(self, i: nat) -> bool;

    proof fn lemma_bits()
        ensures
            0 < Self::bits_spec() <= 128,
    ;

    proof fn lemma_bit_injective(a: Self, b: Self)
        ensures
            (forall|i: nat| i < Self::bits_spec() ==> a.bit_spec(i) == b.bit_spec(i)) ==> a == b,
    ;

    /// Number of bits in the type.
    fn bits_exec() -> (n: u32)
        ensures
            n == Self::bits_spec(),
    ;

    /// Reads bit `i`.
    fn get_bit(self, i: u32) -> (b: bool)
        requires
            i < Self::bits_spec(),
        ensures
            b == self.bit_spec(i as nat),
    ;

    /// Writes bit `i`, leaving every other bit as it was.
    fn set_bit(self, i: u32, v: bool) -> (r: Self)
        requires
            i < Self::bits_spec(),
        ensures
            forall|j: nat|
                j < Self::bits_spec() ==> r.bit_spec(j) == if j == i as nat {
                    v
                } else {
                    self.bit_spec(j)
                },
    ;

    /// The value with every bit clear.
    fn zero() -> (r: Self)
        ensures
            forall|i: nat| i < Self::bits_spec() ==> !r.bit_spec(i),
    ;
}

impl BitInt for u16 {
    open spec fn bits_spec() -> nat {
        16
    }

    open spec fn bit_spec(self, i: nat) -> bool {
        nat_bit(self as nat, i)
    }

    proof fn lemma_bits() {
    }

    proof fn lemma_bit_injective(a: Self, b: Self) {
        if forall|i: nat| i < Self::bits_spec() ==> a.bit_spec(i) == b.bit_spec(i) {
            assert forall|i: nat| i < 16 implies #[trigger] nat_bit(a as nat, i) == nat_bit(
                b as nat,
                i,
            ) by {
                assert(a.bit_spec(i) == b.bit_spec(i));
            }
            vstd::arithmetic::power2::lemma2_to64();
            lemma_nat_bits_injective(a as nat, b as nat, 16);
        }
    }

    fn bits_exec() -> u32 {
        16
    }

    fn get_bit(self, i: u32) -> bool {
        let r = (self >> (i as u16)) % 2 == 1;
        proof {
            vstd::bits::lemma_u16_shr_is_div(self, i as u16);
        }
        r
    }

    fn set_bit(self, i: u32, v: bool) -> u16 {
        let ii = i as u16;
        let r: u16 = if v {
            self | (1u16 << ii)
        } else {
            self & !(1u16 << ii)
        };
        proof {
            let s = self;
            assert forall|j: nat|
                j < Self::bits_spec() implies r.bit_spec(j) == if j == i as nat {
                v
            } else {
                s.bit_spec(j)
            } by {
                let jj = j as u16;
                vstd::bits::lemma_u16_shr_is_div(r, jj);
                vstd::bits::lemma_u16_shr_is_div(s, jj);
                assert((((s | (1u16 << ii)) >> jj) % 2) == (if jj == ii {
                    1u16
                } else {
                    (s >> jj) % 2
                }) && (((s & !(1u16 << ii)) >> jj) % 2) == (if jj == ii {
                    0u16
                } else {
                    (s >> jj) % 2
                })) by (bit_vector)
                    requires
                        ii < 16,
                        jj < 16,
                ;
            }
        }
        r
    }

    fn zero() -> u16 {
        proof {
            assert forall|i: nat| i < 16 implies !nat_bit(0, i) by {
                lemma_nat_bit_zero(i);
            }
        }
        0
    }
}


impl BitInt for u8 {
    open spec fn bits_spec() -> nat {
        8
    }

    open spec fn bit_spec(self, i: nat) -> bool {
        nat_bit(self as nat, i)
    }

    proof fn lemma_bits() {
    }

    proof fn lemma_bit_injective(a: Self, b: Self) {
        if forall|i: nat| i < Self::bits_spec() ==> a.bit_spec(i) == b.bit_spec(i) {
            assert forall|i: nat| i < 8 implies #[trigger] nat_bit(a as nat, i) == nat_bit(
                b as nat,
                i,
            ) by {
                assert(a.bit_spec(i) == b.bit_spec(i));
            }
            vstd::arithmetic::power2::lemma2_to64();
            lemma_nat_bits_injective(a as nat, b as nat, 8);
        }
    }

    fn bits_exec() -> u32 {
        8
    }

    fn get_bit(self, i: u32) -> bool {
        let r = (self >> (i as u8)) % 2 == 1;
        proof {
            vstd::bits::lemma_u8_shr_is_div(self, i as u8);
        }
        r
    }

    fn set_bit(self, i: u32, v: bool) -> u8 {
        let ii = i as u8;
        let r: u8 = if v {
            self | (1u8 << ii)
        } else {
            self & !(1u8 << ii)
        };
        proof {
            let s = self;
            assert forall|j: nat|
                j < Self::bits_spec() implies r.bit_spec(j) == if j == i as nat {
                v
            } else {
                s.bit_spec(j)
            } by {
                let jj = j as u8;
                vstd::bits::lemma_u8_shr_is_div(r, jj);
                vstd::bits::lemma_u8_shr_is_div(s, jj);
                assert((((s | (1u8 << ii)) >> jj) % 2) == (if jj == ii {
                    1u8
                } else {
                    (s >> jj) % 2
                }) && (((s & !(1u8 << ii)) >> jj) % 2) == (if jj == ii {
                    0u8
                } else {
                    (s >> jj) % 2
                })) by (bit_vector)
                    requires
                        ii < 8,
                        jj < 8,
                ;
            }
        }
        r
    }

    fn zero() -> u8 {
        proof {
            assert forall|i: nat| i < 8 implies !nat_bit(0, i) by {
                lemma_nat_bit_zero(i);
            }
        }
        0
    }
}

impl BitInt for u32 {
    open spec fn bits_spec() -> nat {
        32
    }

    open spec fn bit_spec(self, i: nat) -> bool {
        nat_bit(self as nat, i)
    }

    proof fn lemma_bits() {
    }

    proof fn lemma_bit_injective(a: Self, b: Self) {
        if forall|i: nat| i < Self::bits_spec() ==> a.bit_spec(i) == b.bit_spec(i) {
            assert forall|i: nat| i < 32 implies #[trigger] nat_bit(a as nat, i) == nat_bit(
                b as nat,
                i,
            ) by {
                assert(a.bit_spec(i) == b.bit_spec(i));
            }
            vstd::arithmetic::power2::lemma2_to64();
            lemma_nat_bits_injective(a as nat, b as nat, 32);
        }
    }

    fn bits_exec() -> u32 {
        32
    }

    fn get_bit(self, i: u32) -> bool {
        let r = (self >> (i as u32)) % 2 == 1;
        proof {
            vstd::bits::lemma_u32_shr_is_div(self, i as u32);
        }
        r
    }

    fn set_bit(self, i: u32, v: bool) -> u32 {
        let ii = i as u32;
        let r: u32 = if v {
            self | (1u32 << ii)
        } else {
            self & !(1u32 << ii)
        };
        proof {
            let s = self;
            assert forall|j: nat|
                j < Self::bits_spec() implies r.bit_spec(j) == if j == i as nat {
                v
            } else {
                s.bit_spec(j)
            } by {
                let jj = j as u32;
                vstd::bits::lemma_u32_shr_is_div(r, jj);
                vstd::bits::lemma_u32_shr_is_div(s, jj);
                assert((((s | (1u32 << ii)) >> jj) % 2) == (if jj == ii {
                    1u32
                } else {
                    (s >> jj) % 2
                }) && (((s & !(1u32 << ii)) >> jj) % 2) == (if jj == ii {
                    0u32
                } else {
                    (s >> jj) % 2
                })) by (bit_vector)
                    requires
                        ii < 32,
                        jj < 32,
                ;
            }
        }
        r
    }

    fn zero() -> u32 {
        proof {
            assert forall|i: nat| i < 32 implies !nat_bit(0, i) by {
                lemma_nat_bit_zero(i);
            }
        }
        0
    }
}

impl BitInt for u64 {
    open spec fn bits_spec() -> nat {
        64
    }

    open spec fn bit_spec(self, i: nat) -> bool {
        nat_bit(self as nat, i)
    }

    proof fn lemma_bits() {
    }

    proof fn lemma_bit_injective(a: Self, b: Self) {
        if forall|i: nat| i < Self::bits_spec() ==> a.bit_spec(i) == b.bit_spec(i) {
            assert forall|i: nat| i < 64 implies #[trigger] nat_bit(a as nat, i) == nat_bit(
                b as nat,
                i,
            ) by {
                assert(a.bit_spec(i) == b.bit_spec(i));
            }
            vstd::arithmetic::power2::lemma2_to64();
            lemma_nat_bits_injective(a as nat, b as nat, 64);
        }
    }

    fn bits_exec() -> u32 {
        64
    }

    fn get_bit(self, i: u32) -> bool {
        let r = (self >> (i as u64)) % 2 == 1;
        proof {
            vstd::bits::lemma_u64_shr_is_div(self, i as u64);
        }
        r
    }

    fn set_bit(self, i: u32, v: bool) -> u64 {
        let ii = i as u64;
        let r: u64 = if v {
            self | (1u64 << ii)
        } else {
            self & !(1u64 << ii)
        };
        proof {
            let s = self;
            assert forall|j: nat|
                j < Self::bits_spec() implies r.bit_spec(j) == if j == i as nat {
                v
            } else {
                s.bit_spec(j)
            } by {
                let jj = j as u64;
                vstd::bits::lemma_u64_shr_is_div(r, jj);
                vstd::bits::lemma_u64_shr_is_div(s, jj);
                assert((((s | (1u64 << ii)) >> jj) % 2) == (if jj == ii {
                    1u64
                } else {
                    (s >> jj) % 2
                }) && (((s & !(1u64 << ii)) >> jj) % 2) == (if jj == ii {
                    0u64
                } else {
                    (s >> jj) % 2
                })) by (bit_vector)
                    requires
                        ii < 64,
                        jj < 64,
                ;
            }
        }
        r
    }

    fn zero() -> u64 {
        proof {
            assert forall|i: nat| i < 64 implies !nat_bit(0, i) by {
                lemma_nat_bit_zero(i);
            }
        }
        0
    }
}

impl BitInt for u128 {
    open spec fn bits_spec() -> nat {
        128
    }

    open spec fn bit_spec(self, i: nat) -> bool {
        nat_bit(self as nat, i)
    }

    proof fn lemma_bits() {
    }

    proof fn lemma_bit_injective(a: Self, b: Self) {
        if forall|i: nat| i < Self::bits_spec() ==> a.bit_spec(i) == b.bit_spec(i) {
            assert forall|i: nat| i < 128 implies #[trigger] nat_bit(a as nat, i) == nat_bit(
                b as nat,
                i,
            ) by {
                assert(a.bit_spec(i) == b.bit_spec(i));
            }
            vstd::arithmetic::power2::lemma2_to64();
            vstd::arithmetic::power2::lemma_pow2_adds(64, 64);
            lemma_nat_bits_injective(a as nat, b as nat, 128);
        }
    }

    fn bits_exec() -> u32 {
        128
    }

    fn get_bit(self, i: u32) -> bool {
        let r = (self >> (i as u128)) % 2 == 1;
        proof {
            vstd::bits::lemma_u128_shr_is_div(self, i as u128);
        }
        r
    }

    fn set_bit(self, i: u32, v: bool) -> u128 {
        let ii = i as u128;
        let r: u128 = if v {
            self | (1u128 << ii)
        } else {
            self & !(1u128 << ii)
        };
        proof {
            let s = self;
            assert forall|j: nat|
                j < Self::bits_spec() implies r.bit_spec(j) == if j == i as nat {
                v
            } else {
                s.bit_spec(j)
            } by {
                let jj = j as u128;
                vstd::bits::lemma_u128_shr_is_div(r, jj);
                vstd::bits::lemma_u128_shr_is_div(s, jj);
                assert((((s | (1u128 << ii)) >> jj) % 2) == (if jj == ii {
                    1u128
                } else {
                    (s >> jj) % 2
                }) && (((s & !(1u128 << ii)) >> jj) % 2) == (if jj == ii {
                    0u128
                } else {
                    (s >> jj) % 2
                })) by (bit_vector)
                    requires
                        ii < 128,
                        jj < 128,
                ;
            }
        }
        r
    }

    fn zero() -> u128 {
        proof {
            assert forall|i: nat| i < 128 implies !nat_bit(0, i) by {
                lemma_nat_bit_zero(i);
            }
        }
        0
    }
}


/// Bit-field wrapper over one unsigned integer, with value semantics:
/// an operation that "mutates" returns a new wrapper.  Bit indices wrap
/// modulo the bit width and so never fault.
#[derive(Copy)]
pub struct Bits<T>(pub T);

impl<T: Copy> Clone for Bits<T> {
    fn clone(&self) -> (r: Self)
        ensures
            r == *self,
    {
        *self
    }
}

impl<T: BitInt> Bits<T> {
    /// The wrapped value's bits, least significant first.
    pub open spec fn view_bits(self) -> Seq<bool> {
        Seq::new(T::bits_spec(), |i: int| self.0.bit_spec(i as nat))
    }

    /// The bit position a raw index addresses: the index, wrapped
    /// modulo the bit width.
    pub open spec fn wrap_index_spec(idx: u32) -> nat {
        (idx as nat) % T::bits_spec()
    }

    /// The bit an index reads.
    pub open spec fn get_spec(self, idx: u32) -> bool {
        self.view_bits()[Self::wrap_index_spec(idx) as int]
    }

    /// The bits after the bit at a wrapped index is replaced.
    pub open spec fn with_bit_spec(self, idx: u32, v: bool) -> Seq<bool> {
        self.view_bits().update(Self::wrap_index_spec(idx) as int, v)
    }

    /// The bits after the bit at a wrapped index is flipped.
    pub open spec fn toggle_spec(self, idx: u32) -> Seq<bool> {
        self.with_bit_spec(idx, !self.get_spec(idx))
    }

    proof fn lemma_wrap_index(idx: u32)
        ensures
            Self::wrap_index_spec(idx) < T::bits_spec(),
    {
        T::lemma_bits();
        vstd::arithmetic::div_mod::lemma_mod_bound(idx as int, T::bits_spec() as int);
    }

    /// Bit width of the wrapped type.
    pub fn len(&self) -> (n: u32)
        ensures
            n == T::bits_spec(),
    {
        T::bits_exec()
    }

    /// Bit width of the wrapped type.
    pub fn size(&self) -> (n: u32)
        ensures
            n == T::bits_spec(),
    {
        T::bits_exec()
    }

    /// Gets the bit at `idx`, wrapping the index modulo the bit width.
    pub fn get(&self, idx: u32) -> (b: bool)
        ensures
            b == self.get_spec(idx),
    {
        proof {
            Self::lemma_wrap_index(idx);
        }
        let w = T::bits_exec();
        self.0.get_bit(idx % w)
    }

    /// Sets the bit at `idx` (wrapped), leaving the others as they were.
    pub fn set(self, idx: u32) -> (r: Self)
        ensures
            r.view_bits() == self.with_bit_spec(idx, true),
    {
        proof {
            Self::lemma_wrap_index(idx);
        }
        let w = T::bits_exec();
        let r = Bits(self.0.set_bit(idx % w, true));
        proof {
            assert(r.view_bits() =~= self.with_bit_spec(idx, true));
        }
        r
    }

    /// Clears the bit at `idx` (wrapped), leaving the others as they were.
    pub fn unset(self, idx: u32) -> (r: Self)
        ensures
            r.view_bits() == self.with_bit_spec(idx, false),
    {
        proof {
            Self::lemma_wrap_index(idx);
        }
        let w = T::bits_exec();
        let r = Bits(self.0.set_bit(idx % w, false));
        proof {
            assert(r.view_bits() =~= self.with_bit_spec(idx, false));
        }
        r
    }

    /// Flips the bit at `idx` (wrapped), leaving the others as they were.
    pub fn toggle(self, idx: u32) -> (r: Self)
        ensures
            r.view_bits() == self.toggle_spec(idx),
    {
        proof {
            Self::lemma_wrap_index(idx);
        }
        let w = T::bits_exec();
        let i = idx % w;
        let cur = self.0.get_bit(i);
        let r = Bits(self.0.set_bit(i, !cur));
        proof {
            assert(r.view_bits() =~= self.toggle_spec(idx));
        }
        r
    }

    /// True exactly when every bit is clear.
    pub fn empty(&self) -> (b: bool)
        ensures
            b == (forall|i: int| 0 <= i < T::bits_spec() ==> !self.view_bits()[i]),
    {
        proof {
            T::lemma_bits();
        }
        let w = T::bits_exec();
        let mut j: u32 = 0;
        while j < w
            invariant
                j <= w == T::bits_spec(),
                forall|k: int| 0 <= k < j ==> !self.view_bits()[k],
            decreases w - j,
        {
            if self.0.get_bit(j) {
                proof {
                    assert(self.view_bits()[j as int]);
                }
                return false;
            }
            j = j + 1;
        }
        true
    }

    /// The wrapper with every bit clear.
    pub fn reset(self) -> (r: Self)
        ensures
            r.view_bits() == Seq::new(T::bits_spec(), |i: int| false),
    {
        let r = Bits(T::zero());
        proof {
            assert(r.view_bits() =~= Seq::new(T::bits_spec(), |i: int| false));
        }
        r
    }

    /// The wrapper with the bit order reversed end to end: bit `i` of the
    /// result is bit `width - 1 - i` of the input.  A reversal of
    /// positions, not a bitwise not.
    pub fn flip(self) -> (r: Self)
        ensures
            r.view_bits() == self.view_bits().reverse(),
    {
        proof {
            T::lemma_bits();
        }
        let w = T::bits_exec();
        let mut acc = T::zero();
        let mut j: u32 = 0;
        while j < w
            invariant
                j <= w == T::bits_spec(),
                forall|k: nat|
                    k < j ==> #[trigger] acc.bit_spec(k) == self.0.bit_spec(
                        (T::bits_spec() - 1 - k) as nat,
                    ),
                forall|k: nat| j <= k < T::bits_spec() ==> !(#[trigger] acc.bit_spec(k)),
            decreases w - j,
        {
            let b = self.0.get_bit(w - 1 - j);
            acc = acc.set_bit(j, b);
            j = j + 1;
        }
        let r = Bits(acc);
        proof {
            assert(r.view_bits() =~= self.view_bits().reverse());
        }
        r
    }

    /// Indices wrap modulo the bit width: an index and the index one
    /// whole width later address the same bit.
    pub proof fn lemma_get_wraps(self, idx: u32)
        requires
            idx + T::bits_spec() <= u32::MAX,
        ensures
            self.get_spec(idx) == self.get_spec((idx + T::bits_spec()) as u32),
    {
        T::lemma_bits();
        vstd::arithmetic::div_mod::lemma_mod_add_multiples_vanish(
            idx as int,
            T::bits_spec() as int,
        );
    }

    /// Toggling the same bit twice gives back the wrapper it started
    /// from, whatever the wrapper and whatever the index.
    pub proof fn lemma_toggle_twice(a: Self, b: Self, c: Self, idx: u32)
        requires
            b.view_bits() == a.toggle_spec(idx),
            c.view_bits() == b.toggle_spec(idx),
        ensures
            c == a,
    {
        Self::lemma_wrap_index(idx);
        assert forall|i: nat| i < T::bits_spec() implies c.0.bit_spec(i) == a.0.bit_spec(i) by {
            let i0 = Self::wrap_index_spec(idx);
            if i == i0 {
                assert(b.view_bits()[i0 as int] == !a.view_bits()[i0 as int]);
                assert(c.view_bits()[i0 as int] == !b.view_bits()[i0 as int]);
            } else {
                assert(c.view_bits()[i as int] == b.view_bits()[i as int]);
                assert(b.view_bits()[i as int] == a.view_bits()[i as int]);
            }
            assert(c.view_bits()[i as int] == a.view_bits()[i as int]);
        }
        T::lemma_bit_injective(a.0, c.0);
    }
}

} // verus!
