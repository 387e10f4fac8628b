use vstd::prelude::*;
use vstd::arithmetic::div_mod::{lemma_fundamental_div_mod, lemma_mod_multiples_basic};

use crate::error::Error;

verus! {

/// A single block-clone call must cover fewer bytes than this (4 GiB).
pub const MAX_BLOCK_LEN: u64 = 4294967296;

/// One block-clone call: `length` bytes of the source from `from_offset`
/// onto the destination from `to_offset`.
#[derive(Debug, Clone, Copy, PartialEq, Eq, Structural)]
pub struct BlockRange {
    pub from_offset: u64,
    pub to_offset: u64,
    pub length: u64,
}

/// The longest sub-block for a cluster size: the largest multiple of the
/// cluster size below the single-call limit.
pub open spec fn max_chunk(cluster: int) -> int {
    ((MAX_BLOCK_LEN - 1) / cluster) * cluster
}

/// Whether a request of `length` bytes with this cluster size is split
/// into several calls.
pub open spec fn is_split(length: u64, cluster_size: Option<u64>) -> bool {
    &&& cluster_size matches Some(c)
    &&& c < MAX_BLOCK_LEN
    &&& length >= MAX_BLOCK_LEN
}

/// The number of bytes covered by a sequence of sub-blocks.
pub open spec fn total_length(bs: Seq<BlockRange>) -> int
    decreases bs.len(),
{
    if bs.len() == 0 {
        0
    } else {
        total_length(bs.drop_last()) + bs.last().length
    }
}

/// Each sub-block starts, in the source and in the destination alike,
/// where the ones before it end.
pub open spec fn is_contiguous(bs: Seq<BlockRange>, from_offset: int, to_offset: int) -> bool {
    forall|i: int|
        0 <= i < bs.len() ==> {
            &&& #[trigger] bs[i].from_offset == from_offset + total_length(bs.take(i))
            &&& bs[i].to_offset == to_offset + total_length(bs.take(i))
        }
}

proof fn lemma_max_chunk(c: int)
    requires
        0 < c < MAX_BLOCK_LEN,
    ensures
        c <= max_chunk(c) < MAX_BLOCK_LEN,
        MAX_BLOCK_LEN - c <= max_chunk(c),
        max_chunk(c) % c == 0,
{
    let n = MAX_BLOCK_LEN - 1;
    lemma_fundamental_div_mod(n, c);
    lemma_mod_multiples_basic(n / c, c);
    assert(n / c >= 1) by (nonlinear_arith)
        requires
            n == c * (n / c) + n % c,
            0 <= n % c < c,
            c <= n,
    ;
    assert(c * (n / c) == (n / c) * c) by (nonlinear_arith);
    assert(c <= (n / c) * c) by (nonlinear_arith)
        requires
            n / c >= 1,
            c > 0,
    ;
}

proof fn lemma_total_push(bs: Seq<BlockRange>, b: BlockRange)
    ensures
        total_length(bs.push(b)) == total_length(bs) + b.length,
        bs.push(b).take(bs.len() as int) == bs,
{
    assert(bs.push(b).drop_last() =~= bs);
    assert(bs.push(b).take(bs.len() as int) =~= bs);
}

/// `bs` is how a block-clone request is made in calls: they cover the
/// request without gap or overlap, each call is non-empty, and where the
/// request is split, every call but the last is `max_chunk` bytes long, a
/// multiple of the cluster size below the single-call limit.
pub open spec fn splits(
    bs: Seq<BlockRange>,
    from_offset: u64,
    to_offset: u64,
    length: u64,
    cluster_size: Option<u64>,
) -> bool {
    &&& bs.len() >= 1
    &&& total_length(bs) == length
    &&& is_contiguous(bs, from_offset as int, to_offset as int)
    &&& forall|i: int| 0 <= i < bs.len() ==> #[trigger] bs[i].length > 0
    &&& !is_split(length, cluster_size) ==> bs.len() == 1
    &&& is_split(length, cluster_size) ==> {
        &&& forall|i: int|
            0 <= i < bs.len() ==> #[trigger] bs[i].length <= max_chunk(cluster_size->0 as int)
        &&& forall|i: int|
            0 <= i < bs.len() - 1 ==> #[trigger] bs[i].length == max_chunk(cluster_size->0 as int)
        &&& forall|i: int| 0 <= i < bs.len() - 1 ==> #[trigger] bs[i].length % cluster_size->0 == 0
        &&& max_chunk(cluster_size->0 as int) < MAX_BLOCK_LEN
    }
}

/// Splits a block-clone request into the calls that the system accepts.
///
/// Without a cluster size, or below the single-call limit, the request is
/// one call. Otherwise it becomes calls of `max_chunk` bytes, a multiple
/// of the cluster size, and a last call with what remains; source and
/// destination offsets advance together.
pub fn split_request(from_offset: u64, to_offset: u64, length: u64, cluster_size: Option<u64>) -> (r:
    Vec<BlockRange>)
    requires
        length > 0,
        cluster_size matches Some(c) ==> c > 0,
        from_offset + length <= u64::MAX,
        to_offset + length <= u64::MAX,
    ensures
        splits(r@, from_offset, to_offset, length, cluster_size),
        forall|dst: Seq<u8>, src: Seq<u8>|
            #[trigger] clone_all(dst, src, r@) == clone_range(
                dst,
                src,
                from_offset as int,
                to_offset as int,
                length as int,
            ),
{
    let mut out: Vec<BlockRange> = Vec::new();
    let single = BlockRange { from_offset, to_offset, length };
    let c: u64 = match cluster_size {
        None => {
            out.push(single);
            proof {
                lemma_total_push(Seq::empty(), single);
                lemma_request_clones_whole(out@, from_offset, to_offset);
            }
            return out;
        },
        Some(c) => c,
    };
    if c >= MAX_BLOCK_LEN || length < MAX_BLOCK_LEN {
        out.push(single);
        proof {
            lemma_total_push(Seq::empty(), single);
            lemma_request_clones_whole(out@, from_offset, to_offset);
        }
        return out;
    }
    proof {
        lemma_max_chunk(c as int);
    }
    let chunk: u64 = (MAX_BLOCK_LEN - 1) / c * c;
    let mut done: u64 = 0;
    while done < length
        invariant
            0 < chunk < MAX_BLOCK_LEN,
            chunk == max_chunk(c as int),
            cluster_size == Some(c),
            done <= length,
            from_offset + length <= u64::MAX,
            to_offset + length <= u64::MAX,
            total_length(out@) == done,
            out@.len() == 0 <==> done == 0,
            is_contiguous(out@, from_offset as int, to_offset as int),
            forall|i: int|
                0 <= i < out@.len() ==> {
                    &&& #[trigger] out@[i].length > 0
                    &&& out@[i].length <= chunk
                    &&& (out@[i].length == chunk || (i == out@.len() - 1 && done == length))
                },
        decreases length - done,
    {
        let n: u64 = if length - done < chunk {
            length - done
        } else {
            chunk
        };
        let b = BlockRange { from_offset: from_offset + done, to_offset: to_offset + done, length: n };
        proof {
            lemma_total_push(out@, b);
            let bs = out@.push(b);
            assert forall|i: int| 0 <= i < bs.len() implies {
                &&& #[trigger] bs[i].from_offset == from_offset + total_length(bs.take(i))
                &&& bs[i].to_offset == to_offset + total_length(bs.take(i))
            } by {
                if i < out@.len() {
                    assert(bs.take(i) =~= out@.take(i));
                }
            }
        }
        out.push(b);
        done = done + n;
    }
    proof {
        lemma_request_clones_whole(out@, from_offset, to_offset);
        assert forall|i: int| 0 <= i < out@.len() - 1 implies #[trigger] out@[i].length % c == 0 by {
            assert(out@[i].length == chunk);
        }
    }
    out
}

proof fn lemma_request_clones_whole(bs: Seq<BlockRange>, from_offset: u64, to_offset: u64)
    requires
        is_contiguous(bs, from_offset as int, to_offset as int),
    ensures
        forall|dst: Seq<u8>, src: Seq<u8>|
            #[trigger] clone_all(dst, src, bs) == clone_range(
                dst,
                src,
                from_offset as int,
                to_offset as int,
                total_length(bs),
            ),
{
    assert forall|dst: Seq<u8>, src: Seq<u8>|
        #[trigger] clone_all(dst, src, bs) == clone_range(
            dst,
            src,
            from_offset as int,
            to_offset as int,
            total_length(bs),
        ) by {
        lemma_contiguous_clones_whole(dst, src, bs, from_offset as int, to_offset as int);
    }
}

/// Builds a request to clone a block of one open file onto another. `H`
/// is the type of a file handle.
///
/// Block cloning runs only on Windows, where a request longer than a
/// single call allows is made in several calls, each aligned to the
/// cluster size (see [`split_request`]). If one call fails, the calls
/// made before it are not undone.
#[derive(Debug)]
pub struct ReflinkBlockBuilder<H> {
    from: Option<H>,
    from_offset: u64,
    to: Option<H>,
    to_offset: u64,
    src_length: u64,
    cluster_size: Option<u64>,
}

impl<H> ReflinkBlockBuilder<H> {
    /// A cluster size, where one is set, is positive.
    #[verifier::type_invariant]
    spec fn cluster_size_positive(&self) -> bool {
        self.cluster_size matches Some(c) ==> c > 0
    }

    pub closed spec fn spec_from(&self) -> Option<H> {
        self.from
    }

    pub closed spec fn spec_from_offset(&self) -> u64 {
        self.from_offset
    }

    pub closed spec fn spec_to(&self) -> Option<H> {
        self.to
    }

    pub closed spec fn spec_to_offset(&self) -> u64 {
        self.to_offset
    }

    pub closed spec fn spec_src_length(&self) -> u64 {
        self.src_length
    }

    pub closed spec fn spec_cluster_size(&self) -> Option<u64> {
        self.cluster_size
    }

    /// Whether the request names both files and a non-empty length.
    pub open spec fn spec_complete(&self) -> bool {
        &&& self.spec_from() is Some
        &&& self.spec_to() is Some
        &&& self.spec_src_length() > 0
    }

    /// Whether the request names both files and a non-empty length, as
    /// cloning it requires.
    pub fn is_complete(&self) -> (r: bool)
        ensures
            r == self.spec_complete(),
    {
        self.from.is_some() && self.to.is_some() && self.src_length > 0
    }

    /// A request with nothing set: no files, offsets and length zero, no
    /// cluster size.
    pub fn new() -> (r: Self)
        ensures
            r.spec_from() is None,
            r.spec_from_offset() == 0,
            r.spec_to() is None,
            r.spec_to_offset() == 0,
            r.spec_src_length() == 0,
            r.spec_cluster_size() is None,
    {
        ReflinkBlockBuilder {
            from: None,
            from_offset: 0,
            to: None,
            to_offset: 0,
            src_length: 0,
            cluster_size: None,
        }
    }

    /// Sets the source file.
    pub fn from(self, from: H) -> (r: Self)
        ensures
            r.spec_from() == Some(from),
            r.spec_from_offset() == self.spec_from_offset(),
            r.spec_to() == self.spec_to(),
            r.spec_to_offset() == self.spec_to_offset(),
            r.spec_src_length() == self.spec_src_length(),
            r.spec_cluster_size() == self.spec_cluster_size(),
    {
        proof {
            use_type_invariant(&self);
        }
        ReflinkBlockBuilder { from: Some(from), ..self }
    }

    /// Sets the offset within the source file.
    pub fn from_offset(self, from_offset: u64) -> (r: Self)
        ensures
            r.spec_from() == self.spec_from(),
            r.spec_from_offset() == from_offset,
            r.spec_to() == self.spec_to(),
            r.spec_to_offset() == self.spec_to_offset(),
            r.spec_src_length() == self.spec_src_length(),
            r.spec_cluster_size() == self.spec_cluster_size(),
    {
        proof {
            use_type_invariant(&self);
        }
        ReflinkBlockBuilder { from_offset, ..self }
    }

    /// Sets the destination file.
    pub fn to(self, to: H) -> (r: Self)
        ensures
            r.spec_from() == self.spec_from(),
            r.spec_from_offset() == self.spec_from_offset(),
            r.spec_to() == Some(to),
            r.spec_to_offset() == self.spec_to_offset(),
            r.spec_src_length() == self.spec_src_length(),
            r.spec_cluster_size() == self.spec_cluster_size(),
    {
        proof {
            use_type_invariant(&self);
        }
        ReflinkBlockBuilder { to: Some(to), ..self }
    }

    /// Sets the offset within the destination file.
    pub fn to_offset(self, to_offset: u64) -> (r: Self)
        ensures
            r.spec_from() == self.spec_from(),
            r.spec_from_offset() == self.spec_from_offset(),
            r.spec_to() == self.spec_to(),
            r.spec_to_offset() == to_offset,
            r.spec_src_length() == self.spec_src_length(),
            r.spec_cluster_size() == self.spec_cluster_size(),
    {
        proof {
            use_type_invariant(&self);
        }
        ReflinkBlockBuilder { to_offset, ..self }
    }

    /// Sets the number of source bytes to clone.
    pub fn src_length(self, src_length: u64) -> (r: Self)
        requires
            src_length > 0,
        ensures
            r.spec_from() == self.spec_from(),
            r.spec_from_offset() == self.spec_from_offset(),
            r.spec_to() == self.spec_to(),
            r.spec_to_offset() == self.spec_to_offset(),
            r.spec_src_length() == src_length,
            r.spec_cluster_size() == self.spec_cluster_size(),
    {
        proof {
            use_type_invariant(&self);
        }
        ReflinkBlockBuilder { src_length, ..self }
    }

    /// Sets the cluster size, from which the longest single call is
    /// computed.
    pub fn cluster_size(self, cluster_size: u64) -> (r: Self)
        requires
            cluster_size > 0,
        ensures
            r.spec_from() == self.spec_from(),
            r.spec_from_offset() == self.spec_from_offset(),
            r.spec_to() == self.spec_to(),
            r.spec_to_offset() == self.spec_to_offset(),
            r.spec_src_length() == self.spec_src_length(),
            r.spec_cluster_size() == Some(cluster_size),
    {
        proof {
            use_type_invariant(&self);
        }
        ReflinkBlockBuilder { cluster_size: Some(cluster_size), ..self }
    }

    /// The calls in which the request is made.
    pub fn sub_blocks(&self) -> (r: Vec<BlockRange>)
        requires
            self.spec_complete(),
            self.spec_from_offset() + self.spec_src_length() <= u64::MAX,
            self.spec_to_offset() + self.spec_src_length() <= u64::MAX,
        ensures
            splits(
                r@,
                self.spec_from_offset(),
                self.spec_to_offset(),
                self.spec_src_length(),
                self.spec_cluster_size(),
            ),
    {
        proof {
            use_type_invariant(self);
        }
        split_request(self.from_offset, self.to_offset, self.src_length, self.cluster_size)
    }

    /// Clones the requested block. Block cloning is not implemented on
    /// this platform, so the call fails.
    pub fn reflink_block(self) -> (r: Result<(), Error>)
        requires
            self.spec_complete(),
        ensures
            r == Err::<(), Error>(Error::NotImplemented),
    {
        Err(Error::NotImplemented)
    }
}

impl<H> Default for ReflinkBlockBuilder<H> {
    fn default() -> (r: Self)
        ensures
            r.spec_from() is None,
            r.spec_from_offset() == 0,
            r.spec_to() is None,
            r.spec_to_offset() == 0,
            r.spec_src_length() == 0,
            r.spec_cluster_size() is None,
    {
        Self::new()
    }
}

/// The destination after `length` bytes of the source from `from` are
/// cloned onto it at `to`: the bytes of that region come from the source,
/// all others stay.
pub open spec fn clone_range(dst: Seq<u8>, src: Seq<u8>, from: int, to: int, length: int) -> Seq<
    u8,
> {
    Seq::new(
        dst.len(),
        |i: int|
            if to <= i < to + length {
                src[from + (i - to)]
            } else {
                dst[i]
            },
    )
}

/// Whether sub-block `b` writes byte `i` of the destination.
pub open spec fn writes(b: BlockRange, i: int) -> bool {
    b.to_offset <= i < b.to_offset + b.length
}

/// The destination after the sub-blocks are cloned one after the other.
pub open spec fn clone_all(dst: Seq<u8>, src: Seq<u8>, bs: Seq<BlockRange>) -> Seq<u8>
    decreases bs.len(),
{
    if bs.len() == 0 {
        dst
    } else {
        let b = bs.last();
        clone_range(
            clone_all(dst, src, bs.drop_last()),
            src,
            b.from_offset as int,
            b.to_offset as int,
            b.length as int,
        )
    }
}

/// No two of the sub-blocks write the same destination byte.
pub open spec fn targets_disjoint(bs: Seq<BlockRange>) -> bool {
    forall|i: int, j: int|
        0 <= i < j < bs.len() ==> {
            ||| #[trigger] bs[i].to_offset + bs[i].length <= bs[j].to_offset
            ||| #[trigger] bs[j].to_offset + bs[j].length <= bs[i].to_offset
        }
}

proof fn lemma_clone_all_at(dst: Seq<u8>, src: Seq<u8>, bs: Seq<BlockRange>, i: int)
    requires
        targets_disjoint(bs),
        0 <= i < dst.len(),
    ensures
        clone_all(dst, src, bs).len() == dst.len(),
        forall|k: int|
            0 <= k < bs.len() && writes(bs[k], i) ==> clone_all(dst, src, bs)[i] == src[bs[k].from_offset
                + (i - bs[k].to_offset)],
        (forall|k: int| 0 <= k < bs.len() ==> !writes(bs[k], i)) ==> clone_all(dst, src, bs)[i]
            == dst[i],
    decreases bs.len(),
{
    if bs.len() > 0 {
        let init = bs.drop_last();
        assert(targets_disjoint(init)) by {
            assert forall|a: int, b: int| 0 <= a < b < init.len() implies {
                ||| #[trigger] init[a].to_offset + init[a].length <= init[b].to_offset
                ||| #[trigger] init[b].to_offset + init[b].length <= init[a].to_offset
            } by {
                assert(init[a] == bs[a] && init[b] == bs[b]);
            }
        }
        lemma_clone_all_at(dst, src, init, i);
        let n = bs.len() - 1;
        assert forall|k: int| 0 <= k < bs.len() && writes(bs[k], i) implies clone_all(dst, src, bs)[i]
            == src[bs[k].from_offset + (i - bs[k].to_offset)] by {
            if k < n {
                assert(bs[k] == init[k]);
                assert(!writes(bs[n], i)) by {
                    assert(bs[k].to_offset + bs[k].length <= bs[n].to_offset || bs[n].to_offset
                        + bs[n].length <= bs[k].to_offset);
                }
            }
        }
        if forall|k: int| 0 <= k < bs.len() ==> !writes(bs[k], i) {
            assert(!writes(bs[n], i));
            assert forall|k: int| 0 <= k < init.len() implies !writes(init[k], i) by {
                assert(init[k] == bs[k]);
            }
        }
    }
}

/// Cloning sub-blocks that write disjoint parts of the destination gives
/// the same destination in whatever order the calls are made.
pub proof fn lemma_disjoint_clones_any_order(
    dst: Seq<u8>,
    src: Seq<u8>,
    a: Seq<BlockRange>,
    b: Seq<BlockRange>,
)
    requires
        targets_disjoint(a),
        targets_disjoint(b),
        a.to_multiset() == b.to_multiset(),
    ensures
        clone_all(dst, src, a) == clone_all(dst, src, b),
{
    a.to_multiset_ensures();
    b.to_multiset_ensures();
    let ra = clone_all(dst, src, a);
    let rb = clone_all(dst, src, b);
    if dst.len() > 0 {
        lemma_clone_all_at(dst, src, a, 0);
        lemma_clone_all_at(dst, src, b, 0);
    } else {
        assert(ra.len() == 0 && rb.len() == 0) by {
            lemma_len_kept(dst, src, a);
            lemma_len_kept(dst, src, b);
        }
    }
    assert forall|i: int| 0 <= i < ra.len() implies ra[i] == rb[i] by {
        lemma_clone_all_at(dst, src, a, i);
        lemma_clone_all_at(dst, src, b, i);
        if exists|k: int| 0 <= k < a.len() && writes(a[k], i) {
            let k = choose|k: int| 0 <= k < a.len() && writes(a[k], i);
            assert(a.contains(a[k]));
            assert(a.to_multiset().count(a[k]) > 0);
            assert(b.contains(a[k]));
            let k2 = choose|k2: int| 0 <= k2 < b.len() && b[k2] == a[k];
            assert(writes(b[k2], i));
        } else {
            assert forall|k2: int| 0 <= k2 < b.len() implies !writes(b[k2], i) by {
                assert(b.contains(b[k2]));
                assert(b.to_multiset().count(b[k2]) > 0);
                assert(a.contains(b[k2]));
            }
        }
    }
    assert(ra =~= rb);
}

proof fn lemma_total_nonneg(bs: Seq<BlockRange>)
    ensures
        total_length(bs) >= 0,
    decreases bs.len(),
{
    if bs.len() > 0 {
        lemma_total_nonneg(bs.drop_last());
    }
}

proof fn lemma_len_kept(dst: Seq<u8>, src: Seq<u8>, bs: Seq<BlockRange>)
    ensures
        clone_all(dst, src, bs).len() == dst.len(),
    decreases bs.len(),
{
    if bs.len() > 0 {
        lemma_len_kept(dst, src, bs.drop_last());
    }
}

/// Cloning sub-blocks that follow one another in source and destination
/// alike gives the destination that one clone of their whole extent gives.
pub proof fn lemma_contiguous_clones_whole(
    dst: Seq<u8>,
    src: Seq<u8>,
    bs: Seq<BlockRange>,
    from_offset: int,
    to_offset: int,
)
    requires
        is_contiguous(bs, from_offset, to_offset),
    ensures
        clone_all(dst, src, bs) == clone_range(dst, src, from_offset, to_offset, total_length(bs)),
    decreases bs.len(),
{
    if bs.len() == 0 {
        assert(clone_range(dst, src, from_offset, to_offset, 0) =~= dst);
    } else {
        let init = bs.drop_last();
        let n = bs.len() - 1;
        assert forall|i: int| 0 <= i < init.len() implies {
            &&& #[trigger] init[i].from_offset == from_offset + total_length(init.take(i))
            &&& init[i].to_offset == to_offset + total_length(init.take(i))
        } by {
            assert(init.take(i) =~= bs.take(i));
            assert(init[i] == bs[i]);
        }
        lemma_contiguous_clones_whole(dst, src, init, from_offset, to_offset);
        assert(bs.take(n) =~= init);
        let b = bs[n];
        assert(b.from_offset == from_offset + total_length(init));
        lemma_total_nonneg(init);
        let whole = clone_range(dst, src, from_offset, to_offset, total_length(bs));
        let got = clone_all(dst, src, bs);
        lemma_len_kept(dst, src, bs);
        assert forall|i: int| 0 <= i < got.len() implies got[i] == whole[i] by {
            if to_offset + total_length(init) <= i < to_offset + total_length(bs) {
            } else {
            }
        }
        assert(clone_all(dst, src, bs) =~= clone_range(
            dst,
            src,
            from_offset,
            to_offset,
            total_length(bs),
        ));
    }
}

} // verus!
