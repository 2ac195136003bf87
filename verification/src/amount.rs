//! Amounts of currency and of tokens: natural numbers of any size, held as
//! their bytes, the most significant first.

use crate::bytes::copy_bytes;
use vstd::prelude::*;

verus! {

/// The number that `bytes` spell, the most significant byte first. Leading
/// zeros do not count, and no bytes at all spell zero.
pub open spec fn value_of(bytes: Seq<u8>) -> nat
    decreases bytes.len(),
{
    if bytes.len() == 0 {
        0
    } else {
        value_of(bytes.drop_last()) * 256 + bytes.last() as nat
    }
}

/// The byte of `bytes` that counts `256^place`, which is zero beyond their
/// length.
pub open spec fn digit(bytes: Seq<u8>, place: int) -> u8 {
    if 0 <= place < bytes.len() {
        bytes[bytes.len() - 1 - place]
    } else {
        0
    }
}

/// All but the least significant byte.
pub open spec fn higher(bytes: Seq<u8>) -> Seq<u8> {
    if bytes.len() == 0 {
        bytes
    } else {
        bytes.drop_last()
    }
}

/// A number is its higher bytes times 256 plus its lowest byte.
pub proof fn lemma_value_splits(bytes: Seq<u8>)
    ensures
        value_of(bytes) == value_of(higher(bytes)) * 256 + digit(bytes, 0),
        forall|place: int| 0 <= place ==> digit(higher(bytes), place) == digit(bytes, place + 1),
{
}

/// A number is at least what any of its leading bytes spell.
pub proof fn lemma_value_grows(bytes: Seq<u8>, count: int)
    requires
        0 <= count <= bytes.len(),
    ensures
        value_of(bytes.subrange(0, count)) <= value_of(bytes),
    decreases bytes.len(),
{
    if count == bytes.len() {
        assert(bytes.subrange(0, count) =~= bytes);
    } else {
        assert(bytes.drop_last().subrange(0, count) =~= bytes.subrange(0, count));
        lemma_value_grows(bytes.drop_last(), count);
    }
}

/// Two byte strings spell the same number exactly when they agree in every
/// place up to the longer one's length.
pub proof fn lemma_same_value_same_digits(left: Seq<u8>, right: Seq<u8>, places: int)
    requires
        left.len() <= places,
        right.len() <= places,
    ensures
        value_of(left) == value_of(right) <==> (forall|place: int|
            0 <= place < places ==> digit(left, place) == digit(right, place)),
    decreases places,
{
    lemma_value_splits(left);
    lemma_value_splits(right);
    if places > 0 {
        lemma_same_value_same_digits(higher(left), higher(right), places - 1);
        let l = value_of(higher(left)) as int;
        let r = value_of(higher(right)) as int;
        let a = digit(left, 0) as int;
        let b = digit(right, 0) as int;
        assert(l * 256 + a == r * 256 + b <==> (l == r && a == b)) by (nonlinear_arith)
            requires
                0 <= a < 256,
                0 <= b < 256,
        ;
        if value_of(left) == value_of(right) {
            assert forall|place: int| 0 <= place < places implies digit(left, place) == digit(
                right,
                place,
            ) by {
                if place > 0 {
                    assert(digit(higher(left), place - 1) == digit(left, place));
                    assert(digit(higher(right), place - 1) == digit(right, place));
                }
            }
        }
        if forall|place: int| 0 <= place < places ==> digit(left, place) == digit(right, place) {
            assert forall|place: int| 0 <= place < places - 1 implies digit(higher(left), place)
                == digit(higher(right), place) by {
                assert(digit(left, place + 1) == digit(right, place + 1));
            }
        }
    }
}

/// A natural number of any size.
#[derive(Clone, Debug)]
pub struct Amount {
    bytes: Vec<u8>,
}

impl View for Amount {
    type V = nat;

    closed spec fn view(&self) -> nat {
        value_of(self.bytes@)
    }
}

/// The bytes that spell `value`, without leading zeros.
fn digits_of(value: u128) -> (bytes: Vec<u8>)
    ensures
        value_of(bytes@) == value,
    decreases value,
{
    if value == 0 {
        Vec::new()
    } else {
        let mut bytes = digits_of(value / 256);
        let ghost higher_bytes = bytes@;
        bytes.push((value % 256) as u8);
        assert(bytes@.drop_last() =~= higher_bytes);
        bytes
    }
}

impl Amount {
    /// The bytes that the amount is held as.
    pub closed spec fn bytes(&self) -> Seq<u8> {
        self.bytes@
    }

    /// The amount that `bytes` spell, the most significant first.
    pub fn from_bytes_be(bytes: Vec<u8>) -> (amount: Amount)
        ensures
            amount@ == value_of(bytes@),
            amount.bytes() == bytes@,
    {
        Amount { bytes }
    }

    /// The bytes that the amount is held as, the most significant first.
    pub fn to_bytes_be(&self) -> (bytes: Vec<u8>)
        ensures
            bytes@ == self.bytes(),
            value_of(bytes@) == self@,
    {
        copy_bytes(&self.bytes)
    }

    /// The amount `value`.
    pub fn from_u128(value: u128) -> (amount: Amount)
        ensures
            amount@ == value,
    {
        Amount { bytes: digits_of(value) }
    }

    /// The same amount once more.
    pub fn copy(&self) -> (amount: Amount)
        ensures
            amount@ == self@,
            amount.bytes() == self.bytes(),
    {
        Amount { bytes: copy_bytes(&self.bytes) }
    }

    /// The amount as a machine integer, where it fits into one.
    pub fn to_u128(&self) -> (value: Option<u128>)
        ensures
            match value {
                Some(small) => self@ == small,
                None => self@ > u128::MAX,
            },
    {
        let mut sum: u128 = 0;
        let mut i: usize = 0;
        assert(self.bytes@.subrange(0, 0) =~= Seq::<u8>::empty());
        while i < self.bytes.len()
            invariant
                i <= self.bytes.len(),
                sum == value_of(self.bytes@.subrange(0, i as int)),
            decreases self.bytes.len() - i,
        {
            let byte = self.bytes[i];
            assert(self.bytes@.subrange(0, i + 1).drop_last() =~= self.bytes@.subrange(
                0,
                i as int,
            ));
            if sum > (u128::MAX - byte as u128) / 256 {
                proof {
                    lemma_value_grows(self.bytes@, i + 1);
                }
                return None;
            }
            sum = sum * 256 + byte as u128;
            i += 1;
        }
        assert(self.bytes@.subrange(0, self.bytes.len() as int) =~= self.bytes@);
        Some(sum)
    }

    /// Whether the amount is nothing.
    pub fn is_zero(&self) -> (zero: bool)
        ensures
            zero == (self@ == 0),
    {
        match self.to_u128() {
            Some(small) => small == 0,
            None => false,
        }
    }

    /// Whether the amount is at most `limit`.
    pub fn at_most(&self, limit: u128) -> (within: bool)
        ensures
            within == (self@ <= limit),
    {
        match self.to_u128() {
            Some(small) => small <= limit,
            None => false,
        }
    }

    /// Whether the amount is at least `floor`.
    pub fn at_least(&self, floor: u128) -> (reached: bool)
        ensures
            reached == (self@ >= floor),
    {
        match self.to_u128() {
            Some(small) => small >= floor,
            None => true,
        }
    }

    /// Whether two amounts are the same number.
    pub fn same_value(&self, other: &Amount) -> (same: bool)
        ensures
            same == (self@ == other@),
    {
        let places = if self.bytes.len() >= other.bytes.len() {
            self.bytes.len()
        } else {
            other.bytes.len()
        };
        let mut place: usize = 0;
        while place < places
            invariant
                place <= places,
                self.bytes.len() <= places,
                other.bytes.len() <= places,
                forall|below: int|
                    0 <= below < place ==> digit(self.bytes@, below) == digit(other.bytes@, below),
            decreases places - place,
        {
            let left: u8 = if place < self.bytes.len() {
                self.bytes[self.bytes.len() - 1 - place]
            } else {
                0
            };
            let right: u8 = if place < other.bytes.len() {
                other.bytes[other.bytes.len() - 1 - place]
            } else {
                0
            };
            if left != right {
                proof {
                    assert(digit(self.bytes@, place as int) != digit(other.bytes@, place as int));
                    lemma_same_value_same_digits(self.bytes@, other.bytes@, places as int);
                }
                return false;
            }
            place += 1;
        }
        proof {
            lemma_same_value_same_digits(self.bytes@, other.bytes@, places as int);
        }
        true
    }

    /// The amount divided by `divisor`, rounded down.
    pub fn divided_by(&self, divisor: u32) -> (quotient: Amount)
        requires
            divisor > 0,
        ensures
            quotient@ == self@ / (divisor as nat),
    {
        let mut digits: Vec<u8> = Vec::new();
        let mut rest: u64 = 0;
        let mut i: usize = 0;
        assert(value_of(self.bytes@.subrange(0, 0)) == 0);
        assert(value_of(digits@) * divisor == 0) by (nonlinear_arith)
            requires
                value_of(digits@) == 0,
        ;
        while i < self.bytes.len()
            invariant
                i <= self.bytes.len(),
                divisor > 0,
                rest < divisor,
                value_of(digits@) * divisor + rest == value_of(self.bytes@.subrange(0, i as int)),
            decreases self.bytes.len() - i,
        {
            let byte = self.bytes[i];
            let carried: u64 = rest * 256 + byte as u64;
            let step: u64 = carried / divisor as u64;
            let left: u64 = carried % divisor as u64;
            let ghost before = digits@;
            assert(step < 256 && carried == step * divisor + left) by (nonlinear_arith)
                requires
                    carried == rest * 256 + byte,
                    rest < divisor,
                    byte < 256,
                    divisor > 0,
                    step == carried / (divisor as u64),
                    left == carried % (divisor as u64),
            ;
            digits.push(step as u8);
            assert(digits@.drop_last() =~= before);
            assert(self.bytes@.subrange(0, i + 1).drop_last() =~= self.bytes@.subrange(
                0,
                i as int,
            ));
            assert(value_of(digits@) * divisor + left == value_of(
                self.bytes@.subrange(0, i + 1),
            )) by (nonlinear_arith)
                requires
                    value_of(digits@) == value_of(before) * 256 + step,
                    value_of(self.bytes@.subrange(0, i + 1)) == value_of(
                        self.bytes@.subrange(0, i as int),
                    ) * 256 + byte,
                    value_of(before) * divisor + rest == value_of(
                        self.bytes@.subrange(0, i as int),
                    ),
                    carried == rest * 256 + byte,
                    carried == step * divisor + left,
            ;
            rest = left;
            i += 1;
        }
        assert(self.bytes@.subrange(0, self.bytes.len() as int) =~= self.bytes@);
        proof {
            vstd::arithmetic::div_mod::lemma_fundamental_div_mod_converse(
                value_of(self.bytes@) as int,
                divisor as int,
                value_of(digits@) as int,
                rest as int,
            );
        }
        Amount { bytes: digits }
    }
}

} // verus!
