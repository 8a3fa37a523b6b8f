//! Unsigned integers of any size, held as big-endian bytes.

use vstd::prelude::*;

verus! {

/// The number that a sequence of bytes denotes when read with the most
/// significant byte first. Leading zero bytes do not change it.
pub open spec fn be_value(bytes: Seq<u8>) -> nat
    decreases bytes.len(),
{
    if bytes.len() == 0 {
        0
    } else {
        be_value(bytes.drop_last()) * 256 + bytes.last() as nat
    }
}

/// Appending a byte shifts the number by one byte and adds the new one.
pub proof fn lemma_be_value_push(bytes: Seq<u8>, byte: u8)
    ensures
        be_value(bytes.push(byte)) == be_value(bytes) * 256 + byte as nat,
{
    assert(bytes.push(byte).drop_last() =~= bytes);
}

/// The number is zero exactly when every byte is zero.
pub proof fn lemma_be_value_zero(bytes: Seq<u8>)
    ensures
        be_value(bytes) == 0 <==> forall|i: int| 0 <= i < bytes.len() ==> bytes[i] == 0,
    decreases bytes.len(),
{
    if bytes.len() > 0 {
        let front = bytes.drop_last();
        lemma_be_value_zero(front);
        if be_value(bytes) == 0 {
            assert forall|i: int| 0 <= i < bytes.len() implies bytes[i] == 0 by {
                if i < bytes.len() - 1 {
                    assert(front[i] == bytes[i]);
                }
            }
        }
        if forall|i: int| 0 <= i < bytes.len() ==> bytes[i] == 0 {
            assert forall|i: int| 0 <= i < front.len() implies front[i] == 0 by {
                assert(front[i] == bytes[i]);
            }
            assert(bytes.last() == 0);
        }
    }
}

/// A leading zero byte does not change the number.
pub proof fn lemma_be_value_leading_zero(bytes: Seq<u8>)
    requires
        bytes.len() > 0,
        bytes[0] == 0,
    ensures
        be_value(bytes) == be_value(bytes.drop_first()),
    decreases bytes.len(),
{
    if bytes.len() == 1 {
        assert(be_value(bytes.drop_last()) == 0);
        assert(be_value(bytes.drop_first()) == 0);
    } else {
        lemma_be_value_leading_zero(bytes.drop_last());
        assert(bytes.drop_last().drop_first() =~= bytes.drop_first().drop_last());
        assert(bytes.drop_first().last() == bytes.last());
    }
}

/// An unsigned integer without an upper bound.
#[derive(Debug)]
pub struct BigUint {
    bytes: Vec<u8>,
}

impl View for BigUint {
    type V = nat;

    /// The number itself.
    closed spec fn view(&self) -> nat {
        be_value(self.bytes@)
    }
}

impl BigUint {
    /// Zero.
    pub fn zero() -> (result: Self)
        ensures
            result@ == 0,
    {
        BigUint { bytes: Vec::new() }
    }

    /// The number written in the given bytes, most significant first.
    pub fn from_bytes_be(bytes: Vec<u8>) -> (result: Self)
        ensures
            result@ == be_value(bytes@),
    {
        BigUint { bytes }
    }

    /// The shortest bytes that denote the number, most significant first:
    /// none for zero, and never a leading zero byte.
    pub fn to_bytes_be(&self) -> (bytes: Vec<u8>)
        ensures
            be_value(bytes@) == self@,
            bytes@.len() > 0 ==> bytes@[0] != 0,
    {
        let len = self.bytes.len();
        let mut start: usize = 0;
        assert(self.bytes@.skip(0) =~= self.bytes@);
        while start < len && self.bytes[start] == 0
            invariant
                len == self.bytes@.len(),
                start <= len,
                be_value(self.bytes@.skip(start as int)) == be_value(self.bytes@),
            decreases len - start,
        {
            proof {
                lemma_be_value_leading_zero(self.bytes@.skip(start as int));
                assert(self.bytes@.skip(start as int).drop_first() =~= self.bytes@.skip(
                    start as int + 1,
                ));
            }
            start += 1;
        }
        let mut bytes: Vec<u8> = Vec::with_capacity(len - start);
        let mut i: usize = start;
        while i < len
            invariant
                len == self.bytes@.len(),
                start <= i <= len,
                bytes@ =~= self.bytes@.subrange(start as int, i as int),
            decreases len - i,
        {
            bytes.push(self.bytes[i]);
            i += 1;
        }
        assert(bytes@ =~= self.bytes@.skip(start as int));
        bytes
    }

    /// The number equal to a machine integer.
    pub fn from_u64(value: u64) -> (result: Self)
        ensures
            result@ == value,
    {
        let q1: u64 = value / 256;
        let q2: u64 = q1 / 256;
        let q3: u64 = q2 / 256;
        let q4: u64 = q3 / 256;
        let q5: u64 = q4 / 256;
        let q6: u64 = q5 / 256;
        let q7: u64 = q6 / 256;
        let mut bytes: Vec<u8> = Vec::with_capacity(8);
        proof {
            lemma_be_value_push(bytes@, (q7 % 256) as u8);
        }
        bytes.push((q7 % 256) as u8);
        assert(be_value(bytes@) == q7);
        proof {
            lemma_be_value_push(bytes@, (q6 % 256) as u8);
        }
        bytes.push((q6 % 256) as u8);
        assert(be_value(bytes@) == q6);
        proof {
            lemma_be_value_push(bytes@, (q5 % 256) as u8);
        }
        bytes.push((q5 % 256) as u8);
        assert(be_value(bytes@) == q5);
        proof {
            lemma_be_value_push(bytes@, (q4 % 256) as u8);
        }
        bytes.push((q4 % 256) as u8);
        assert(be_value(bytes@) == q4);
        proof {
            lemma_be_value_push(bytes@, (q3 % 256) as u8);
        }
        bytes.push((q3 % 256) as u8);
        assert(be_value(bytes@) == q3);
        proof {
            lemma_be_value_push(bytes@, (q2 % 256) as u8);
        }
        bytes.push((q2 % 256) as u8);
        assert(be_value(bytes@) == q2);
        proof {
            lemma_be_value_push(bytes@, (q1 % 256) as u8);
        }
        bytes.push((q1 % 256) as u8);
        assert(be_value(bytes@) == q1);
        proof {
            lemma_be_value_push(bytes@, (value % 256) as u8);
        }
        bytes.push((value % 256) as u8);
        BigUint { bytes }
    }

    /// Whether the number is zero.
    pub fn is_zero(&self) -> (zero: bool)
        ensures
            zero == (self@ == 0),
    {
        let mut i: usize = 0;
        while i < self.bytes.len()
            invariant
                i <= self.bytes@.len(),
                forall|j: int| 0 <= j < i ==> self.bytes@[j] == 0,
            decreases self.bytes@.len() - i,
        {
            if self.bytes[i] != 0 {
                proof {
                    lemma_be_value_zero(self.bytes@);
                }
                return false;
            }
            i += 1;
        }
        proof {
            lemma_be_value_zero(self.bytes@);
        }
        true
    }
}

} // verus!
