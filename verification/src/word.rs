//! Fixed-width 256-bit words, the value type of the operand stack.
//!
//! A word is stored as its 32 big-endian bytes; `bytes_as_nat` gives the
//! numeric value a byte string stands for.

use vstd::prelude::*;

verus! {

/// Numeric value of a big-endian byte string.
pub open spec fn bytes_as_nat(s: Seq<u8>) -> nat
    decreases s.len(),
{
    if s.len() == 0 {
        0
    } else {
        bytes_as_nat(s.drop_last()) * 256nat + s.last() as nat
    }
}

/// 256 to the power n.
pub open spec fn pow256(n: nat) -> nat
    decreases n,
{
    if n == 0 {
        1
    } else {
        256 * pow256((n - 1) as nat)
    }
}

/// The n-byte big-endian encoding of x, for x below 256^n.
pub open spec fn be_bytes(x: nat, n: nat) -> Seq<u8>
    decreases n,
{
    if n == 0 {
        Seq::empty()
    } else {
        be_bytes(x / 256, (n - 1) as nat).push((x % 256) as u8)
    }
}

/// The 32-byte big-endian encoding of a 64-bit value.
pub open spec fn word_from_u64(x: u64) -> Seq<u8> {
    be_bytes(x as nat, 32)
}

/// The all-zero word.
pub open spec fn word_zero() -> Seq<u8> {
    Seq::new(32, |i: int| 0u8)
}

pub proof fn lemma_be_bytes_len(x: nat, n: nat)
    ensures
        be_bytes(x, n).len() == n,
    decreases n,
{
    if n > 0 {
        lemma_be_bytes_len(x / 256, (n - 1) as nat);
    }
}

pub proof fn lemma_pow256_pos(n: nat)
    ensures
        pow256(n) >= 1,
    decreases n,
{
    if n > 0 {
        lemma_pow256_pos((n - 1) as nat);
    }
}

pub proof fn lemma_pow256_mono(a: nat, b: nat)
    requires
        a <= b,
    ensures
        pow256(a) <= pow256(b),
    decreases b,
{
    if a < b {
        lemma_pow256_mono(a, (b - 1) as nat);
        lemma_pow256_pos((b - 1) as nat);
    }
}

pub proof fn lemma_pow256_64_bits()
    ensures
        pow256(8) == 0x1_0000_0000_0000_0000,
{
    reveal_with_fuel(pow256, 9);
}

/// Encoding then decoding gives the value back.
pub proof fn lemma_be_bytes_value(x: nat, n: nat)
    requires
        x < pow256(n),
    ensures
        bytes_as_nat(be_bytes(x, n)) == x,
    decreases n,
{
    if n > 0 {
        let s = be_bytes(x, n);
        lemma_be_bytes_len(x / 256, (n - 1) as nat);
        assert(s.drop_last() =~= be_bytes(x / 256, (n - 1) as nat));
        vstd::arithmetic::div_mod::lemma_fundamental_div_mod(x as int, 256);
        assert(x / 256 < pow256((n - 1) as nat));
        lemma_be_bytes_value(x / 256, (n - 1) as nat);
    }
}

pub proof fn lemma_bytes_as_nat_bound(s: Seq<u8>)
    ensures
        bytes_as_nat(s) < pow256(s.len()),
    decreases s.len(),
{
    if s.len() > 0 {
        lemma_bytes_as_nat_bound(s.drop_last());
    }
}

pub proof fn lemma_all_zero(s: Seq<u8>)
    requires
        forall|i: int| 0 <= i < s.len() ==> s[i] == 0,
    ensures
        bytes_as_nat(s) == 0,
    decreases s.len(),
{
    if s.len() > 0 {
        lemma_all_zero(s.drop_last());
    }
}

/// Leading zero bytes do not change the value.
pub proof fn lemma_leading_zeros(s: Seq<u8>, k: int)
    requires
        0 <= k <= s.len(),
        forall|i: int| 0 <= i < k ==> s[i] == 0,
    ensures
        bytes_as_nat(s) == bytes_as_nat(s.skip(k)),
    decreases s.len(),
{
    if s.len() == k {
        lemma_all_zero(s);
        assert(s.skip(k) =~= Seq::<u8>::empty());
    } else {
        lemma_leading_zeros(s.drop_last(), k);
        assert(s.skip(k).drop_last() =~= s.drop_last().skip(k));
        assert(s.skip(k).last() == s.last());
    }
}

/// A nonzero byte at position i puts the value at or above 256^(len - 1 - i).
pub proof fn lemma_nonzero_byte(s: Seq<u8>, i: int)
    requires
        0 <= i < s.len(),
        s[i] != 0,
    ensures
        bytes_as_nat(s) >= pow256((s.len() - 1 - i) as nat),
    decreases s.len(),
{
    if i == s.len() - 1 {
        vstd::arithmetic::mul::lemma_mul_nonnegative(
            bytes_as_nat(s.drop_last()) as int,
            256,
        );
    } else {
        lemma_nonzero_byte(s.drop_last(), i);
    }
}

/// A 256-bit word, stored as 32 big-endian bytes.
#[derive(Debug)]
pub struct Word {
    bytes: Vec<u8>,
}

impl View for Word {
    type V = Seq<u8>;

    closed spec fn view(&self) -> Seq<u8> {
        self.bytes@
    }
}

impl Clone for Word {
    fn clone(&self) -> (r: Word)
        ensures
            r@ == self@,
    {
        Word { bytes: clone_bytes(&self.bytes) }
    }
}

/// Byte-for-byte copy of a byte vector.
pub fn clone_bytes(v: &Vec<u8>) -> (r: Vec<u8>)
    ensures
        r@ == v@,
{
    let mut r: Vec<u8> = Vec::new();
    let mut i: usize = 0;
    while i < v.len()
        invariant
            i <= v.len(),
            r@ =~= v@.subrange(0, i as int),
        decreases v.len() - i,
    {
        r.push(v[i]);
        i += 1;
    }
    proof {
        assert(r@ =~= v@);
    }
    r
}

impl Word {
    /// A word is well formed when it holds exactly 32 bytes.
    pub open spec fn wf(&self) -> bool {
        self@.len() == 32
    }

    /// The numeric value of the word.
    pub open spec fn as_nat(&self) -> nat {
        bytes_as_nat(self@)
    }

    /// The all-zero word.
    pub fn zero() -> (w: Word)
        ensures
            w.wf(),
            w@ == word_zero(),
            w.as_nat() == 0,
    {
        let mut bytes: Vec<u8> = Vec::new();
        let mut i: usize = 0;
        while i < 32
            invariant
                i <= 32,
                bytes@.len() == i,
                forall|j: int| 0 <= j < i ==> bytes@[j] == 0,
            decreases 32 - i,
        {
            bytes.push(0u8);
            i += 1;
        }
        proof {
            assert(bytes@ =~= word_zero());
            lemma_all_zero(bytes@);
        }
        Word { bytes }
    }

    /// A word from its 32 big-endian bytes.
    pub fn from_bytes(bytes: Vec<u8>) -> (w: Word)
        requires
            bytes@.len() == 32,
        ensures
            w.wf(),
            w@ == bytes@,
    {
        Word { bytes }
    }

    /// The word whose value is the given 64-bit integer.
    pub fn from_u64(x: u64) -> (w: Word)
        ensures
            w.wf(),
            w@ == word_from_u64(x),
            w.as_nat() == x,
    {
        let mut bytes: Vec<u8> = Vec::new();
        let mut j: usize = 0;
        while j < 32
            invariant
                j <= 32,
                bytes@.len() == j,
            decreases 32 - j,
        {
            bytes.push(0u8);
            j += 1;
        }
        let mut i: usize = 32;
        let mut cur: u64 = x;
        proof {
            assert(bytes@.skip(32) =~= Seq::<u8>::empty());
            assert(be_bytes(x as nat, 32) =~= be_bytes(cur as nat, 32) + bytes@.skip(32));
        }
        while i > 0
            invariant
                i <= 32,
                bytes@.len() == 32,
                be_bytes(x as nat, 32) =~= be_bytes(cur as nat, i as nat) + bytes@.skip(i as int),
            decreases i,
        {
            let ghost old_bytes = bytes@;
            let ghost old_cur = cur as nat;
            i -= 1;
            bytes[i] = (cur % 256) as u8;
            cur = cur / 256;
            proof {
                assert(bytes@.skip(i as int) =~= seq![(old_cur % 256) as u8] + old_bytes.skip(
                    i as int + 1,
                ));
                assert(be_bytes(old_cur, (i + 1) as nat) == be_bytes(cur as nat, i as nat).push(
                    (old_cur % 256) as u8,
                ));
                assert(be_bytes(cur as nat, i as nat) + bytes@.skip(i as int) =~= be_bytes(
                    old_cur,
                    (i + 1) as nat,
                ) + old_bytes.skip(i as int + 1));
            }
        }
        proof {
            lemma_be_bytes_len(x as nat, 32);
            assert(bytes@.skip(0) =~= bytes@);
            assert(bytes@ =~= be_bytes(x as nat, 32));
            lemma_pow256_64_bits();
            lemma_pow256_mono(8, 32);
            lemma_be_bytes_value(x as nat, 32);
        }
        Word { bytes }
    }

    /// The byte at a given position, counted from the most significant end.
    pub fn byte_at(&self, i: usize) -> (b: u8)
        requires
            self.wf(),
            i < 32,
        ensures
            b == self@[i as int],
    {
        self.bytes[i]
    }

    /// The least significant byte.
    pub fn least_byte(&self) -> (b: u8)
        requires
            self.wf(),
        ensures
            b == self@[31],
    {
        self.bytes[31]
    }

    /// The 32 big-endian bytes of the word.
    pub fn to_bytes(&self) -> (r: Vec<u8>)
        ensures
            r@ == self@,
    {
        clone_bytes(&self.bytes)
    }

    /// True exactly when the word's value is zero.
    pub fn is_zero(&self) -> (r: bool)
        requires
            self.wf(),
        ensures
            r <==> self@ =~= word_zero(),
    {
        let mut i: usize = 0;
        while i < 32
            invariant
                self.wf(),
                i <= 32,
                forall|j: int| 0 <= j < i ==> self@[j] == 0,
            decreases 32 - i,
        {
            if self.bytes[i] != 0 {
                return false;
            }
            i += 1;
        }
        proof {
            assert(self@ =~= word_zero());
        }
        true
    }

    /// The word's value as a usize, or `None` when it does not fit.
    pub fn to_usize(&self) -> (r: Option<usize>)
        requires
            self.wf(),
        ensures
            match r {
                Some(v) => v as nat == self.as_nat(),
                None => self.as_nat() > usize::MAX as nat,
            },
    {
        let mut i: usize = 0;
        while i < 24
            invariant
                self.wf(),
                i <= 24,
                forall|j: int| 0 <= j < i ==> self@[j] == 0,
            decreases 24 - i,
        {
            if self.bytes[i] != 0 {
                proof {
                    lemma_nonzero_byte(self@, i as int);
                    lemma_pow256_mono(8, (31 - i) as nat);
                    lemma_pow256_64_bits();
                }
                return None;
            }
            i += 1;
        }
        let mut v: u64 = 0;
        let mut k: usize = 24;
        proof {
            assert(self@.subrange(24, 24) =~= Seq::<u8>::empty());
            lemma_pow256_pos(0);
        }
        while k < 32
            invariant
                self.wf(),
                24 <= k <= 32,
                v as nat == bytes_as_nat(self@.subrange(24, k as int)),
                v < pow256((k - 24) as nat),
            decreases 32 - k,
        {
            let b = self.bytes[k];
            proof {
                lemma_pow256_mono((k - 24) as nat, 7);
                reveal_with_fuel(pow256, 9);
                assert(self@.subrange(24, k as int + 1).drop_last() =~= self@.subrange(
                    24,
                    k as int,
                ));
                assert(self@.subrange(24, k as int + 1).last() == self@[k as int]);
            }
            v = v * 256 + (b as u64);
            k += 1;
        }
        proof {
            lemma_leading_zeros(self@, 24);
            assert(self@.skip(24) =~= self@.subrange(24, 32));
        }
        match usize::try_from(v) {
            Ok(u) => Some(u),
            Err(_) => None,
        }
    }

    /// The word's value as a usize, saturating at `usize::MAX`.
    pub fn to_usize_saturated(&self) -> (r: usize)
        requires
            self.wf(),
        ensures
            r as nat == if self.as_nat() <= usize::MAX as nat {
                self.as_nat()
            } else {
                usize::MAX as nat
            },
    {
        match self.to_usize() {
            Option::Some(v) => v,
            Option::None => usize::MAX,
        }
    }

    /// Byte-for-byte equality of two words.
    pub fn eq_word(&self, other: &Word) -> (r: bool)
        requires
            self.wf(),
            other.wf(),
        ensures
            r <==> self@ =~= other@,
    {
        let mut i: usize = 0;
        while i < 32
            invariant
                self.wf(),
                other.wf(),
                i <= 32,
                forall|j: int| 0 <= j < i ==> self@[j] == other@[j],
            decreases 32 - i,
        {
            if self.bytes[i] != other.bytes[i] {
                return false;
            }
            i += 1;
        }
        true
    }
}

} // verus!
