use vstd::arithmetic::div_mod::lemma_fundamental_div_mod;
use vstd::arithmetic::div_mod::lemma_div_pos_is_pos;
use vstd::arithmetic::div_mod::lemma_mod_bound;
use vstd::arithmetic::mul::lemma_mul_inequality;
use vstd::prelude::*;

verus! {

/// One contiguous byte range of a file, uploaded as a single request.
#[derive(Debug, Clone, Copy)]
pub struct Chunk {
    pub index: usize,
    pub offset: usize,
    pub size: usize,
}

impl Chunk {
    pub fn new(index: usize, offset: usize, size: usize) -> (c: Self)
        ensures
            c.index == index,
            c.offset == offset,
            c.size == size,
    {
        Self { index, offset, size }
    }
}

/// Number of chunks that a byte length splits into: the ceiling of
/// `size / chunk_size`, except that an empty input still yields one
/// zero-sized chunk.
pub open spec fn spec_num_chunks(size: nat, chunk_size: nat) -> nat {
    if size == 0 {
        1
    } else {
        (((size - 1) / chunk_size as int) + 1) as nat
    }
}

/// Size of chunk `i`: the full `chunk_size`, unless the range would run
/// past the end of the input, in which case the remainder.
pub open spec fn spec_chunk_size(size: nat, chunk_size: nat, i: nat) -> nat {
    if i * chunk_size + chunk_size <= size {
        chunk_size
    } else {
        (size - i * chunk_size) as nat
    }
}

/// The sequence `cs` is the chunk plan for `size` bytes cut into pieces
/// of at most `chunk_size` bytes: indices are consecutive from zero,
/// each offset is `index * chunk_size`, and each size is the full piece
/// or the final remainder.
pub open spec fn is_chunk_plan(cs: Seq<Chunk>, size: nat, chunk_size: nat) -> bool {
    &&& cs.len() == spec_num_chunks(size, chunk_size)
    &&& forall|i: int|
        0 <= i < cs.len() ==> {
            &&& (#[trigger] cs[i]).index == i
            &&& cs[i].offset == i * chunk_size
            &&& cs[i].size == spec_chunk_size(size, chunk_size, i as nat)
        }
}

/// Sum of the `size` fields of a chunk sequence.
pub open spec fn chunk_sizes_sum(cs: Seq<Chunk>) -> int
    decreases cs.len(),
{
    if cs.len() == 0 {
        0
    } else {
        chunk_sizes_sum(cs.drop_last()) + cs.last().size
    }
}

/// Splits `size` bytes into ordered fixed-size chunks of `chunk_size`
/// bytes, the last chunk carrying the remainder. An empty input still
/// produces a single zero-sized chunk.
pub fn build_chunks_array(size: usize, chunk_size: usize) -> (chunks: Vec<Chunk>)
    requires
        chunk_size > 0,
    ensures
        is_chunk_plan(chunks@, size as nat, chunk_size as nat),
{
    let num_chunks: usize = if size == 0 {
        1
    } else {
        (size - 1) / chunk_size + 1
    };
    proof {
        if size > 0 {
            lemma_fundamental_div_mod(size - 1, chunk_size as int);
        }
    }
    let mut chunks: Vec<Chunk> = Vec::new();
    let mut i: usize = 0;
    while i < num_chunks
        invariant
            chunk_size > 0,
            num_chunks == spec_num_chunks(size as nat, chunk_size as nat),
            i <= num_chunks,
            chunks@.len() == i,
            forall|j: int|
                0 <= j < i ==> {
                    &&& (#[trigger] chunks@[j]).index == j
                    &&& chunks@[j].offset == j * chunk_size
                    &&& chunks@[j].size == spec_chunk_size(size as nat, chunk_size as nat, j as nat)
                },
        decreases num_chunks - i,
    {
        proof {
            if size > 0 {
                let q = (size - 1) as int / chunk_size as int;
                lemma_fundamental_div_mod(size - 1, chunk_size as int);
                lemma_mod_bound(size - 1, chunk_size as int);
                lemma_div_pos_is_pos(size - 1, chunk_size as int);
                lemma_mul_inequality(i as int, q, chunk_size as int);
                assert(num_chunks == q + 1);
                assert(i <= q);
                assert(i * chunk_size <= q * chunk_size);
                assert(q * chunk_size <= size - 1);
                assert(i * chunk_size <= size);
            } else {
                assert(i == 0);
                assert(i * chunk_size == 0);
            }
            assert(i * chunk_size <= size);
        }
        let offset: usize = i * chunk_size;
        let csize: usize = if chunk_size <= size - offset {
            chunk_size
        } else {
            size - offset
        };
        chunks.push(Chunk::new(i, offset, csize));
        i = i + 1;
    }
    chunks
}

/// Law: the chunk sizes of a plan for `size` bytes sum to exactly `size`.
pub proof fn lemma_chunk_plan_sizes_sum(cs: Seq<Chunk>, size: nat, chunk_size: nat)
    requires
        chunk_size > 0,
        is_chunk_plan(cs, size, chunk_size),
    ensures
        chunk_sizes_sum(cs) == size,
{
    assert(cs.subrange(0, cs.len() as int) =~= cs);
    lemma_chunk_plan_prefix_sum(cs, size, chunk_size, cs.len() as int);
}

/// Law: within a plan, the derived final-chunk marker (`index` equal to
/// the last position) holds of the last chunk and of no other.
pub proof fn lemma_chunk_plan_unique_final(cs: Seq<Chunk>, size: nat, chunk_size: nat, i: int)
    requires
        chunk_size > 0,
        is_chunk_plan(cs, size, chunk_size),
        0 <= i < cs.len(),
    ensures
        (cs[i].index == cs.len() - 1) <==> (i == cs.len() - 1),
{
}

proof fn lemma_chunk_plan_prefix_sum(cs: Seq<Chunk>, size: nat, chunk_size: nat, k: int)
    requires
        chunk_size > 0,
        is_chunk_plan(cs, size, chunk_size),
        0 <= k <= cs.len(),
    ensures
        chunk_sizes_sum(cs.subrange(0, k)) == if k == cs.len() {
            size as int
        } else {
            k * chunk_size
        },
    decreases k,
{
    if size > 0 {
        lemma_fundamental_div_mod(size - 1, chunk_size as int);
        lemma_mod_bound(size - 1, chunk_size as int);
        lemma_div_pos_is_pos(size - 1, chunk_size as int);
    }
    if k == 0 {
        assert(cs.subrange(0, 0) =~= Seq::<Chunk>::empty());
    } else {
        let sub = cs.subrange(0, k);
        assert(sub.drop_last() =~= cs.subrange(0, k - 1));
        lemma_chunk_plan_prefix_sum(cs, size, chunk_size, k - 1);
        assert(sub.last() == cs[k - 1]);
        assert(chunk_sizes_sum(sub) == (k - 1) * chunk_size + cs[k - 1].size);
        assert((k - 1) * chunk_size + chunk_size == k * chunk_size) by (nonlinear_arith);
        if size == 0 {
            assert(k == 1 && k == cs.len());
            assert(cs[0].size == spec_chunk_size(0, chunk_size, 0));
        } else {
            let q = (size - 1) / chunk_size as int;
            lemma_mul_inequality(k - 1, q, chunk_size as int);
            if k < cs.len() {
                lemma_mul_inequality(k, q, chunk_size as int);
                assert(k * chunk_size <= size - 1);
                assert(cs[k - 1].size == chunk_size);
            } else {
                assert(k == q + 1);
                let r = (size - 1) % (chunk_size as int);
                assert(size - 1 == chunk_size * q + r);
                assert(0 <= r < chunk_size);
                assert(size <= k * chunk_size) by (nonlinear_arith)
                    requires
                        size - 1 == chunk_size * q + r,
                        r < chunk_size,
                        k == q + 1,
                ;
                if k * chunk_size <= size {
                    assert((k - 1) * chunk_size + chunk_size <= size);
                    assert(cs[k - 1].size == chunk_size);
                    assert(k * chunk_size == size);
                } else {
                    assert(!((k - 1) * chunk_size + chunk_size <= size));
                    assert((k - 1) * chunk_size <= size - 1) by (nonlinear_arith)
                        requires
                            size - 1 == chunk_size * q + r,
                            r >= 0,
                            k == q + 1,
                    ;
                    assert(cs[k - 1].size == size - (k - 1) * chunk_size);
                }
            }
        }
    }
}

} // verus!
