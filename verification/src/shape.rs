//! Tensor shapes as plain vectors of dimension sizes.

use vstd::prelude::*;

verus! {

/// A tensor shape: every dimension size is nonnegative.
pub open spec fn valid_shape(dims: Seq<i64>) -> bool {
    forall|i: int| 0 <= i < dims.len() ==> #[trigger] dims[i] >= 0
}

/// Number of elements of a tensor with the given shape
/// (the empty shape is a scalar with one element).
pub open spec fn numel(dims: Seq<i64>) -> int
    decreases dims.len(),
{
    if dims.len() == 0 {
        1
    } else {
        dims[0] * numel(dims.subrange(1, dims.len() as int))
    }
}

/// The shape with its last dimension removed; a scalar shape stays as it is.
pub open spec fn drop_last_dim(dims: Seq<i64>) -> Seq<i64> {
    if dims.len() == 0 {
        dims
    } else {
        dims.drop_last()
    }
}

/// The shape with its two trailing dimensions exchanged, as a transpose of
/// the last two dimensions produces it.
pub open spec fn swap_last_two(dims: Seq<i64>) -> Seq<i64> {
    dims.update(dims.len() - 2, dims[dims.len() - 1]).update(dims.len() - 1, dims[dims.len() - 2])
}

/// Two dimension sizes broadcast together when they are equal or either
/// one is a singleton.
pub open spec fn dims_broadcastable(x: i64, y: i64) -> bool {
    x == y || x == 1 || y == 1
}

/// The dimension size two broadcastable sizes produce: a singleton is
/// stretched to the other size.
pub open spec fn broadcast_dim(x: i64, y: i64) -> i64 {
    if x == 1 {
        y
    } else {
        x
    }
}

/// Rank of the shape two shapes broadcast to: the larger of the two ranks.
pub open spec fn broadcast_len(a: Seq<i64>, b: Seq<i64>) -> nat {
    if a.len() >= b.len() {
        a.len()
    } else {
        b.len()
    }
}

/// Dimension `i` of `dims` once it is aligned from the right to rank `n`:
/// a position the shape does not reach counts as a singleton.
pub open spec fn aligned_dim(dims: Seq<i64>, n: int, i: int) -> i64 {
    if i < n - dims.len() {
        1
    } else {
        dims[i - (n - dims.len())]
    }
}

/// Whether two shapes broadcast together: aligned from the right, every
/// pair of dimension sizes must broadcast.
pub open spec fn broadcastable(a: Seq<i64>, b: Seq<i64>) -> bool {
    forall|i: int|
        0 <= i < broadcast_len(a, b) ==> dims_broadcastable(
            #[trigger] aligned_dim(a, broadcast_len(a, b) as int, i),
            aligned_dim(b, broadcast_len(a, b) as int, i),
        )
}

/// The shape two broadcastable shapes broadcast to.
pub open spec fn broadcast_shape(a: Seq<i64>, b: Seq<i64>) -> Seq<i64> {
    Seq::new(
        broadcast_len(a, b),
        |i: int|
            broadcast_dim(
                aligned_dim(a, broadcast_len(a, b) as int, i),
                aligned_dim(b, broadcast_len(a, b) as int, i),
            ),
    )
}

/// Whether a batched matrix product accepts the two shapes: both operands
/// have at least two dimensions, the trailing dimension of the left
/// operand matches the next-to-last dimension of the right one, and the
/// leading (batch) dimensions broadcast.
pub open spec fn matmul_compatible(a: Seq<i64>, b: Seq<i64>) -> bool {
    &&& a.len() >= 2
    &&& b.len() >= 2
    &&& a[a.len() - 1] == b[b.len() - 2]
    &&& broadcastable(a.take(a.len() - 2), b.take(b.len() - 2))
}

/// Shape of a batched matrix product: the broadcast batch dimensions,
/// then the rows of the left operand and the columns of the right one.
pub open spec fn matmul_shape(a: Seq<i64>, b: Seq<i64>) -> Seq<i64> {
    broadcast_shape(a.take(a.len() - 2), b.take(b.len() - 2)).push(a[a.len() - 2]).push(
        b[b.len() - 1],
    )
}

/// The shape two broadcastable shapes broadcast to, computed dimension by
/// dimension.
pub fn broadcast_shapes(a: &Vec<i64>, b: &Vec<i64>) -> (r: Vec<i64>)
    requires
        valid_shape(a@),
        valid_shape(b@),
        broadcastable(a@, b@),
    ensures
        r@ == broadcast_shape(a@, b@),
        valid_shape(r@),
{
    let la = a.len();
    let lb = b.len();
    let n = if la >= lb {
        la
    } else {
        lb
    };
    let mut out: Vec<i64> = Vec::new();
    let mut i: usize = 0;
    proof {
        assert(out@ =~= broadcast_shape(a@, b@).take(0));
    }
    while i < n
        invariant
            la == a@.len(),
            lb == b@.len(),
            n == broadcast_len(a@, b@),
            la <= n,
            lb <= n,
            i <= n,
            out@ == broadcast_shape(a@, b@).take(i as int),
        decreases n - i,
    {
        let da: i64 = if n - la <= i {
            a[i - (n - la)]
        } else {
            1
        };
        let db: i64 = if n - lb <= i {
            b[i - (n - lb)]
        } else {
            1
        };
        let d: i64 = if da == 1 {
            db
        } else {
            da
        };
        proof {
            assert(da == aligned_dim(a@, n as int, i as int));
            assert(db == aligned_dim(b@, n as int, i as int));
            assert(d == broadcast_shape(a@, b@)[i as int]);
            assert(broadcast_shape(a@, b@).take(i as int + 1) =~= broadcast_shape(a@, b@).take(
                i as int,
            ).push(d));
        }
        out.push(d);
        i = i + 1;
    }
    proof {
        assert(out@ =~= broadcast_shape(a@, b@));
        assert forall|j: int|
            0 <= j < broadcast_shape(a@, b@).len() implies #[trigger] broadcast_shape(a@, b@)[j]
            >= 0 by {
            let ni = broadcast_len(a@, b@) as int;
            if ni - a@.len() <= j {
                assert(a@[j - (ni - a@.len())] >= 0);
            }
            if ni - b@.len() <= j {
                assert(b@[j - (ni - b@.len())] >= 0);
            }
        }
    }
    out
}

/// Shape of a batched matrix product of tensors with the given shapes.
pub fn matmul_result_shape(a: &Vec<i64>, b: &Vec<i64>) -> (r: Vec<i64>)
    requires
        valid_shape(a@),
        valid_shape(b@),
        matmul_compatible(a@, b@),
    ensures
        r@ == matmul_shape(a@, b@),
        valid_shape(r@),
{
    let la = a.len();
    let lb = b.len();
    let mut batch_a: Vec<i64> = Vec::new();
    let mut i: usize = 0;
    proof {
        assert(batch_a@ =~= a@.take(0));
    }
    while i < la - 2
        invariant
            la == a@.len(),
            la >= 2,
            i <= la - 2,
            batch_a@ == a@.take(i as int),
        decreases la - 2 - i,
    {
        proof {
            assert(a@.take(i as int + 1) =~= a@.take(i as int).push(a@[i as int]));
        }
        batch_a.push(a[i]);
        i = i + 1;
    }
    let mut batch_b: Vec<i64> = Vec::new();
    let mut j: usize = 0;
    proof {
        assert(batch_b@ =~= b@.take(0));
    }
    while j < lb - 2
        invariant
            lb == b@.len(),
            lb >= 2,
            j <= lb - 2,
            batch_b@ == b@.take(j as int),
        decreases lb - 2 - j,
    {
        proof {
            assert(b@.take(j as int + 1) =~= b@.take(j as int).push(b@[j as int]));
        }
        batch_b.push(b[j]);
        j = j + 1;
    }
    proof {
        assert forall|p: int| 0 <= p < batch_a@.len() implies #[trigger] batch_a@[p] >= 0 by {
            assert(a@[p] >= 0);
        }
        assert forall|p: int| 0 <= p < batch_b@.len() implies #[trigger] batch_b@[p] >= 0 by {
            assert(b@[p] >= 0);
        }
    }
    let mut out = broadcast_shapes(&batch_a, &batch_b);
    out.push(a[la - 2]);
    out.push(b[lb - 1]);
    proof {
        assert(out@ =~= matmul_shape(a@, b@));
        assert(a@[la - 2] >= 0);
        assert(b@[lb - 1] >= 0);
        let bc = broadcast_shape(a@.take(a@.len() - 2), b@.take(b@.len() - 2));
        assert forall|p: int| 0 <= p < out@.len() implies #[trigger] out@[p] >= 0 by {
            if p < bc.len() {
                assert(bc[p] >= 0);
            }
        }
    }
    out
}

/// The shape with its two trailing dimensions exchanged, as the transpose
/// of the last two dimensions of a key or value tensor produces it.
pub fn transpose_last_two(a: &Vec<i64>) -> (r: Vec<i64>)
    requires
        valid_shape(a@),
        a@.len() >= 2,
    ensures
        r@ == swap_last_two(a@),
        valid_shape(r@),
{
    let n = a.len();
    let mut out: Vec<i64> = Vec::new();
    let mut i: usize = 0;
    proof {
        assert(out@ =~= swap_last_two(a@).take(0));
    }
    while i < n
        invariant
            n == a@.len(),
            n >= 2,
            i <= n,
            out@ == swap_last_two(a@).take(i as int),
        decreases n - i,
    {
        let j = if i == n - 2 {
            n - 1
        } else if i == n - 1 {
            n - 2
        } else {
            i
        };
        proof {
            assert(swap_last_two(a@)[i as int] == a@[j as int]);
            assert(swap_last_two(a@).take(i as int + 1) =~= swap_last_two(a@).take(i as int).push(
                a@[j as int],
            ));
        }
        out.push(a[j]);
        i = i + 1;
    }
    proof {
        assert(out@ =~= swap_last_two(a@));
        assert forall|p: int| 0 <= p < out@.len() implies #[trigger] out@[p] >= 0 by {
            if p == a@.len() - 2 {
                assert(a@[a@.len() - 1] >= 0);
            } else if p == a@.len() - 1 {
                assert(a@[a@.len() - 2] >= 0);
            } else {
                assert(a@[p] >= 0);
            }
        }
    }
    out
}

} // verus!
