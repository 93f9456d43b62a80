//! Splitting a byte length into contiguous, bounded-size ranges.

use vstd::prelude::*;
use vstd::arithmetic::div_mod::{lemma_fundamental_div_mod, lemma_mod_bound};
use vstd::arithmetic::mul::{
    lemma_mul_basics, lemma_mul_inequality, lemma_mul_inequality_converse,
    lemma_mul_is_commutative, lemma_mul_is_distributive_add_other_way,
    lemma_mul_strict_inequality, lemma_mul_strict_inequality_converse,
};

verus! {

/// A half-open interval `[start, end)` of byte offsets within a file.
#[derive(Clone, Copy, Debug, PartialEq, Eq, Structural)]
pub struct ByteRange {
    pub start: u64,
    pub end: u64,
}

impl ByteRange {
    /// The number of bytes the range covers.
    pub fn length(&self) -> (r: u64)
        requires
            self.start <= self.end,
        ensures
            r == self.end - self.start,
    {
        self.end - self.start
    }
}

/// The `i`-th range of a split of `num` bytes at chunk size `chunk_size`:
/// it starts at `i * chunk_size` and ends one chunk later, or at `num`,
/// whichever comes first.
pub open spec fn is_split_range_at(r: ByteRange, i: int, num: u64, chunk_size: u64) -> bool {
    &&& r.start == i * chunk_size
    &&& r.end == if (i + 1) * chunk_size <= num {
        (i + 1) * chunk_size
    } else {
        num as int
    }
}

/// `rs` is exactly the split of `num` bytes at chunk size `chunk_size`:
/// as many ranges as needed to reach `num` and no more, each placed at its
/// chunk boundary. A length of zero yields no ranges at all.
pub open spec fn is_range_split(rs: Seq<ByteRange>, num: u64, chunk_size: u64) -> bool {
    &&& if num == 0 {
        rs.len() == 0
    } else {
        rs.len() >= 1 && (rs.len() - 1) * chunk_size < num <= rs.len() * chunk_size
    }
    &&& forall|i: int|
        0 <= i < rs.len() ==> is_split_range_at(#[trigger] rs[i], i, num, chunk_size)
}

/// Splits a number of bytes into ordered ranges, each with a maximum size of
/// `chunk_size`. The final range may be smaller than `chunk_size`.
pub fn split_ranges(num: u64, chunk_size: u64) -> (r: Vec<ByteRange>)
    requires
        chunk_size > 0,
    ensures
        is_range_split(r@, num, chunk_size),
{
    proof {
        lemma_mul_basics(chunk_size as int);
    }
    let mut ranges: Vec<ByteRange> = Vec::new();
    let mut start: u64 = 0;
    while start < num
        invariant
            chunk_size > 0,
            start <= num,
            start as int == if ranges@.len() * chunk_size <= num {
                ranges@.len() * chunk_size
            } else {
                num as int
            },
            ranges@.len() >= 1 ==> (ranges@.len() - 1) * chunk_size < num,
            forall|j: int|
                0 <= j < ranges@.len() ==> is_split_range_at(
                    #[trigger] ranges@[j],
                    j,
                    num,
                    chunk_size,
                ),
        decreases num - start,
    {
        proof {
            let l = ranges@.len() as int;
            lemma_mul_basics(chunk_size as int);
            lemma_mul_is_distributive_add_other_way(chunk_size as int, l, 1);
            assert((l + 1) * chunk_size == l * chunk_size + chunk_size);
            if l * chunk_size > num {
                // then start == num, contradicting the loop condition
                assert(false);
            }
        }
        let ghost l0 = ranges@.len() as int;
        let end: u64 = if num - start <= chunk_size {
            num
        } else {
            start + chunk_size
        };
        ranges.push(ByteRange { start, end });
        start = end;
        proof {
            assert(ranges@.len() == l0 + 1);
            assert(end as int == if (l0 + 1) * chunk_size <= num {
                (l0 + 1) * chunk_size
            } else {
                num as int
            });
        }
    }
    ranges
}

/// The total number of bytes a sequence of ranges covers.
pub open spec fn sum_of_lengths(rs: Seq<ByteRange>) -> int
    decreases rs.len(),
{
    if rs.len() == 0 {
        0
    } else {
        sum_of_lengths(rs.drop_last()) + (rs.last().end - rs.last().start)
    }
}

/// For a contiguous sequence of ranges, the covered lengths telescope: they
/// sum to the distance from the first start to the last end.
proof fn lemma_sum_contiguous(rs: Seq<ByteRange>)
    requires
        rs.len() > 0,
        forall|i: int| 0 <= i < rs.len() - 1 ==> (#[trigger] rs[i]).end == rs[i + 1].start,
    ensures
        sum_of_lengths(rs) == rs.last().end - rs[0].start,
    decreases rs.len(),
{
    let n = rs.len() as int;
    if rs.len() == 1 {
        assert(rs.drop_last().len() == 0);
        assert(sum_of_lengths(rs.drop_last()) == 0);
    }
    if rs.len() > 1 {
        assert forall|i: int|
            0 <= i < rs.drop_last().len() - 1 implies (#[trigger] rs.drop_last()[i]).end
            == rs.drop_last()[i + 1].start by {
            assert(rs.drop_last()[i] == rs[i]);
            assert(rs.drop_last()[i + 1] == rs[i + 1]);
            assert(rs[i].end == rs[i + 1].start);
        }
        lemma_sum_contiguous(rs.drop_last());
        assert(rs.drop_last()[0] == rs[0]);
        assert(rs.drop_last().last() == rs[n - 2]);
        assert(rs[n - 2].end == rs[n - 1].start);
    }
}

/// The laws of a range split: the ranges tile `[0, num)` exactly. Their
/// lengths sum to `num`; each is non-empty and at most `chunk_size` long;
/// every range but the last is exactly `chunk_size` long; consecutive ranges
/// are contiguous, so the ranges are pairwise disjoint and strictly
/// increasing; and the split is empty exactly when `num` is zero.
pub proof fn lemma_split_covers(rs: Seq<ByteRange>, num: u64, chunk_size: u64)
    requires
        chunk_size > 0,
        is_range_split(rs, num, chunk_size),
    ensures
        sum_of_lengths(rs) == num,
        forall|i: int| 0 <= i < rs.len() ==> (#[trigger] rs[i]).start < rs[i].end,
        forall|i: int| 0 <= i < rs.len() ==> (#[trigger] rs[i]).end - rs[i].start <= chunk_size,
        forall|i: int|
            0 <= i < rs.len() - 1 ==> (#[trigger] rs[i]).end - rs[i].start == chunk_size,
        forall|i: int| 0 <= i < rs.len() - 1 ==> (#[trigger] rs[i]).end == rs[i + 1].start,
        forall|i: int, j: int| 0 <= i < j < rs.len() ==> rs[i].end <= rs[j].start,
        forall|i: int, j: int| 0 <= i < j < rs.len() ==> rs[i].start < rs[j].start,
        rs.len() == 0 <==> num == 0,
        rs.len() > 0 ==> rs.last().end - rs.last().start == (if num as int % chunk_size as int
            == 0 {
            chunk_size as int
        } else {
            num as int % chunk_size as int
        }),
{
    let len = rs.len() as int;
    assert forall|i: int| 0 <= i < len implies {
        &&& (#[trigger] rs[i]).start < rs[i].end
        &&& rs[i].end - rs[i].start <= chunk_size
        &&& (i < len - 1 ==> rs[i].end - rs[i].start == chunk_size && rs[i].end == rs[i + 1].start)
    } by {
        lemma_mul_is_distributive_add_other_way(chunk_size as int, i, 1);
        lemma_mul_inequality(i + 1, len, chunk_size as int);
        lemma_mul_strict_inequality(i, i + 1, chunk_size as int);
        if i < len - 1 {
            lemma_mul_inequality(i + 1, len - 1, chunk_size as int);
        }
    }
    assert forall|i: int, j: int| 0 <= i < j < len implies rs[i].end <= rs[j].start && rs[i].start
        < rs[j].start by {
        lemma_mul_inequality(i + 1, j, chunk_size as int);
        lemma_mul_strict_inequality(i, j, chunk_size as int);
    }
    if rs.len() > 0 {
        lemma_mul_basics(chunk_size as int);
        lemma_sum_contiguous(rs);
        assert(rs[0].start == 0 * chunk_size);
        lemma_mul_inequality(rs.len() as int - 1, rs.len() as int, chunk_size as int);
        let c = chunk_size as int;
        let q = num as int / c;
        let r = num as int % c;
        lemma_fundamental_div_mod(num as int, c);
        lemma_mod_bound(num as int, c);
        lemma_mul_is_commutative(c, q);
        assert(rs[len - 1].start == (len - 1) * c);
        assert(rs[len - 1].end == num);
        if r == 0 {
            // the multiples pin the quotient: (len-1)*c < q*c <= len*c
            lemma_mul_strict_inequality_converse(len - 1, q, c);
            lemma_mul_inequality_converse(q, len, c);
            lemma_mul_is_distributive_add_other_way(c, len - 1, 1);
            assert(rs[len - 1].end - rs[len - 1].start == c);
        } else {
            // the multiples pin the quotient: q*c < num < (q+1)*c around (len-1)*c
            lemma_mul_is_distributive_add_other_way(c, q, 1);
            lemma_mul_strict_inequality_converse(len - 1, q + 1, c);
            lemma_mul_strict_inequality_converse(q, len, c);
            assert(rs[len - 1].end - rs[len - 1].start == r);
        }
    }
}

} // verus!
