//! The shape transformations of a GPT-Neo local self-attention layer.

use crate::shape::broadcast_shape;
use crate::shape::broadcast_shapes;
use crate::shape::broadcastable;
use crate::shape::drop_last_dim;
use crate::shape::matmul_compatible;
use crate::shape::matmul_result_shape;
use crate::shape::matmul_shape;
use crate::shape::numel;
use crate::shape::swap_last_two;
use crate::shape::transpose_last_two;
use crate::shape::valid_shape;
use vstd::prelude::*;

verus! {

/// Error reported by the attention layer when a tensor of an unsupported
/// rank is handed to one of its shape transformations.  `found` is the
/// rank of the offending tensor; `expected_min` and `expected_max` bound
/// the ranks the operation accepts.
#[derive(Clone, Copy, Debug, PartialEq, Eq, Structural)]
pub enum AttentionError {
    InvalidRank { expected_min: usize, expected_max: usize, found: usize },
}

/// The largest block length that is at most `window_size` and divides
/// `sequence_length` evenly, together with the resulting number of blocks.
pub fn get_block_length_and_num_blocks(sequence_length: i64, window_size: i64) -> (r: (i64, i64))
    requires
        0 <= sequence_length,
        1 <= window_size,
    ensures
        1 <= r.0 <= window_size,
        sequence_length % r.0 == 0,
        r.1 == sequence_length / r.0,
        forall|b: i64| r.0 < b <= window_size ==> #[trigger] (sequence_length % b) != 0,
{
    let mut block_length: i64 = window_size;
    while sequence_length % block_length != 0
        invariant
            1 <= block_length <= window_size,
            0 <= sequence_length,
            forall|b: i64| block_length < b <= window_size ==> #[trigger] (sequence_length % b)
                != 0,
        decreases block_length,
    {
        proof {
            assert(sequence_length % 1 == 0);
        }
        block_length = block_length - 1;
    }
    let num_blocks = sequence_length / block_length;
    (block_length, num_blocks)
}

/// How `look_back` turns a sequence of positions into overlapping
/// lookback windows: the tensor is padded at the front of its sequence
/// dimension, unfolded along that dimension into blocks, and, for keys and
/// values, the two trailing dimensions are swapped.
#[derive(Debug)]
pub struct LookBackPlan {
    /// Padding, two entries (after, before) per dimension from the last
    /// dimension backwards, as a constant-pad operation takes it.
    pub padding: Vec<i64>,
    /// The value the padded positions hold, if the caller gave one.
    pub pad_value: Option<i64>,
    /// Length of each extracted window: `window_size + block_length`.
    pub unfold_size: i64,
    /// Stride between window starts: `block_length`.
    pub unfold_step: i64,
    /// Whether the two trailing dimensions are swapped afterwards.
    pub transpose_last_two: bool,
    /// Shape of the tensor the whole operation produces.
    pub output_shape: Vec<i64>,
}

/// Number of windows that unfolding the padded sequence dimension yields:
/// the padded length is `len + window`, each window spans
/// `window + block` positions, and successive windows start `block`
/// positions apart.
pub open spec fn num_windows(len: i64, block: i64, window: i64) -> int {
    (len + window - (window + block)) / (block as int) + 1
}

/// The lookback windows tile the sequence exactly: with a block length
/// that divides the sequence length — as the block length that
/// `get_block_length_and_num_blocks` picks always does — the unfold of
/// `look_back` yields one window per block, whatever the window size.
pub proof fn lemma_windows_match_blocks(sequence_length: i64, block_length: i64, window_size: i64)
    requires
        1 <= block_length <= sequence_length,
        sequence_length % block_length == 0,
    ensures
        num_windows(sequence_length, block_length, window_size) == sequence_length as int
            / block_length as int,
{
    let s = sequence_length as int;
    let b = block_length as int;
    let q = s / b;
    vstd::arithmetic::div_mod::lemma_fundamental_div_mod(s, b);
    assert(s == b * q);
    assert(s - b == b * (q - 1)) by (nonlinear_arith)
        requires
            s == b * q,
    ;
    vstd::arithmetic::div_mod::lemma_div_multiples_vanish(q - 1, b);
    assert((s - b) / b == q - 1);
}

/// The block split that `get_block_length_and_num_blocks` sets up is a
/// valid reshape: a `[batch, sequence]` tensor holds exactly
/// `batch * num_blocks * block_length` elements, so
/// `split_sequence_length_dim_to` accepts the pair of factors the block
/// search returns.
pub proof fn lemma_block_split_keeps_elements(batch: i64, sequence_length: i64, block_length: i64)
    requires
        0 <= batch,
        0 <= sequence_length,
        1 <= block_length,
        sequence_length % block_length == 0,
    ensures
        batch * (sequence_length / block_length) * block_length == numel(
            seq![batch, sequence_length],
        ),
{
    reveal_with_fuel(numel, 3);
    let s = sequence_length as int;
    let b = block_length as int;
    let q = s / b;
    vstd::arithmetic::div_mod::lemma_fundamental_div_mod(s, b);
    assert(s == b * q);
    assert(seq![batch, sequence_length].subrange(1, 2) =~= seq![sequence_length]);
    assert(seq![sequence_length].subrange(1, 1) =~= Seq::<i64>::empty());
    assert(numel(seq![batch, sequence_length]) == batch * (s * 1));
    assert(batch * q * b == batch * (b * q)) by (nonlinear_arith);
}

/// Plan for `look_back`: pad the sequence dimension of a
/// `[batch, sequence, hidden]` or `[batch, sequence]` tensor at the front
/// by `window_size`, unfold that dimension into windows of
/// `window_size + block_length` positions starting every `block_length`
/// positions, and, for key/value tensors, swap the two trailing
/// dimensions of the result.
///
/// The unfold needs at least one full window in the padded sequence
/// dimension, so `block_length` may not exceed the sequence length.
pub fn look_back(
    input_shape: &Vec<i64>,
    block_length: i64,
    window_size: i64,
    pad_value: Option<i64>,
    is_key_value: bool,
) -> (r: Result<LookBackPlan, AttentionError>)
    requires
        valid_shape(input_shape@),
        (input_shape@.len() == 2 || input_shape@.len() == 3) ==> {
            &&& 1 <= block_length <= input_shape@[1]
            &&& 0 <= window_size
            &&& input_shape@[1] + window_size <= i64::MAX
        },
    ensures
        r is Ok <==> (input_shape@.len() == 2 || input_shape@.len() == 3),
        r is Err ==> r == Err::<LookBackPlan, AttentionError>(
            (AttentionError::InvalidRank {
                expected_min: 2,
                expected_max: 3,
                found: input_shape@.len() as usize,
            }),
        ),
        r matches Ok(plan) ==> {
            &&& plan.pad_value == pad_value
            &&& plan.unfold_size == window_size + block_length
            &&& plan.unfold_step == block_length
            &&& plan.transpose_last_two == is_key_value
        },
        input_shape@.len() == 2 ==> (r matches Ok(plan) && {
            &&& plan.padding@ == seq![window_size, 0i64]
            &&& plan.output_shape@ == (if is_key_value {
                seq![
                    input_shape@[0],
                    (window_size + block_length) as i64,
                    num_windows(input_shape@[1], block_length, window_size) as i64,
                ]
            } else {
                seq![
                    input_shape@[0],
                    num_windows(input_shape@[1], block_length, window_size) as i64,
                    (window_size + block_length) as i64,
                ]
            })
        }),
        input_shape@.len() == 3 ==> (r matches Ok(plan) && {
            &&& plan.padding@ == seq![0i64, 0i64, window_size, 0i64]
            &&& plan.output_shape@ == (if is_key_value {
                seq![
                    input_shape@[0],
                    num_windows(input_shape@[1], block_length, window_size) as i64,
                    (window_size + block_length) as i64,
                    input_shape@[2],
                ]
            } else {
                seq![
                    input_shape@[0],
                    num_windows(input_shape@[1], block_length, window_size) as i64,
                    input_shape@[2],
                    (window_size + block_length) as i64,
                ]
            })
        }),
{
    let rank = input_shape.len();
    if rank != 2 && rank != 3 {
        return Err(AttentionError::InvalidRank { expected_min: 2, expected_max: 3, found: rank });
    }
    let mut padding: Vec<i64> = Vec::new();
    if rank == 3 {
        padding.push(0);
        padding.push(0);
        padding.push(window_size);
        padding.push(0);
        proof {
            assert(padding@ =~= seq![0i64, 0i64, window_size, 0i64]);
        }
    } else {
        padding.push(window_size);
        padding.push(0);
        proof {
            assert(padding@ =~= seq![window_size, 0i64]);
        }
    }
    let sequence_length = input_shape[1];
    proof {
        let s = sequence_length as int;
        let b = block_length as int;
        assert((s - b) / b <= s - b) by (nonlinear_arith)
            requires
                1 <= b,
                b <= s,
        ;
        assert(0 <= (s - b) / b) by (nonlinear_arith)
            requires
                1 <= b,
                b <= s,
        ;
        assert(num_windows(sequence_length, block_length, window_size) == (s - b) / b + 1);
    }
    let windows = (sequence_length - block_length) / block_length + 1;
    let window_span = window_size + block_length;
    let mut output_shape: Vec<i64> = Vec::new();
    output_shape.push(input_shape[0]);
    if rank == 3 {
        output_shape.push(windows);
        if is_key_value {
            output_shape.push(window_span);
            output_shape.push(input_shape[2]);
        } else {
            output_shape.push(input_shape[2]);
            output_shape.push(window_span);
        }
    } else {
        if is_key_value {
            output_shape.push(window_span);
            output_shape.push(windows);
        } else {
            output_shape.push(windows);
            output_shape.push(window_span);
        }
    }
    Ok(
        LookBackPlan {
            padding,
            pad_value,
            unfold_size: window_span,
            unfold_step: block_length,
            transpose_last_two: is_key_value,
            output_shape,
        },
    )
}

/// Shape of the tensor that `split_heads` produces: the last (hidden)
/// dimension is split into `num_heads` and `attention_head_size`, and the
/// head dimension is moved in front of the sequence dimension.
///
/// The split is a view, so the view target must hold exactly as many
/// elements as the input; for any other rank than the two the layer works
/// on, the view is followed by a rank error.
pub fn split_heads(input_shape: &Vec<i64>, num_heads: i64, attention_head_size: i64) -> (r: Result<
    Vec<i64>,
    AttentionError,
>)
    requires
        valid_shape(input_shape@),
        0 <= num_heads,
        0 <= attention_head_size,
        numel(drop_last_dim(input_shape@)) * num_heads * attention_head_size == numel(
            input_shape@,
        ),
    ensures
        r is Ok <==> (input_shape@.len() == 3 || input_shape@.len() == 4),
        r is Err ==> r == Err::<Vec<i64>, AttentionError>(
            (AttentionError::InvalidRank {
                expected_min: 4,
                expected_max: 5,
                found: input_shape@.len() as usize,
            }),
        ),
        input_shape@.len() == 3 ==> (r matches Ok(out) && out@ == seq![
            input_shape@[0],
            num_heads,
            input_shape@[1],
            attention_head_size,
        ]),
        input_shape@.len() == 4 ==> (r matches Ok(out) && out@ == seq![
            input_shape@[0],
            input_shape@[1],
            num_heads,
            input_shape@[2],
            attention_head_size,
        ]),
{
    let rank = input_shape.len();
    if rank == 3 {
        let mut out: Vec<i64> = Vec::new();
        out.push(input_shape[0]);
        out.push(num_heads);
        out.push(input_shape[1]);
        out.push(attention_head_size);
        proof {
            assert(out@ =~= seq![
                input_shape@[0],
                num_heads,
                input_shape@[1],
                attention_head_size,
            ]);
        }
        Ok(out)
    } else if rank == 4 {
        let mut out: Vec<i64> = Vec::new();
        out.push(input_shape[0]);
        out.push(input_shape[1]);
        out.push(num_heads);
        out.push(input_shape[2]);
        out.push(attention_head_size);
        proof {
            assert(out@ =~= seq![
                input_shape@[0],
                input_shape@[1],
                num_heads,
                input_shape@[2],
                attention_head_size,
            ]);
        }
        Ok(out)
    } else {
        Err(AttentionError::InvalidRank { expected_min: 4, expected_max: 5, found: rank })
    }
}

/// Shape of the tensor that `merge_heads` produces: the last two
/// dimensions of the input are replaced by one dimension of size
/// `num_heads * attention_head_size`.
///
/// The layer permutes the head dimension back behind the sequence
/// dimension and then views the result, so for the two supported ranks
/// the view target must hold exactly as many elements as the input.
pub fn merge_heads(input_shape: &Vec<i64>, num_heads: i64, attention_head_size: i64) -> (r: Result<
    Vec<i64>,
    AttentionError,
>)
    requires
        valid_shape(input_shape@),
        0 <= num_heads,
        0 <= attention_head_size,
        (input_shape@.len() == 4 || input_shape@.len() == 5) ==> {
            &&& num_heads * attention_head_size <= i64::MAX
            &&& numel(input_shape@.subrange(0, input_shape@.len() - 2)) * num_heads
                * attention_head_size == numel(input_shape@)
        },
    ensures
        r is Ok <==> (input_shape@.len() == 4 || input_shape@.len() == 5),
        r is Err ==> r == Err::<Vec<i64>, AttentionError>(
            (AttentionError::InvalidRank {
                expected_min: 4,
                expected_max: 5,
                found: input_shape@.len() as usize,
            }),
        ),
        input_shape@.len() == 4 ==> (r matches Ok(out) && out@ == seq![
            input_shape@[0],
            input_shape@[1],
            (num_heads * attention_head_size) as i64,
        ]),
        input_shape@.len() == 5 ==> (r matches Ok(out) && out@ == seq![
            input_shape@[0],
            input_shape@[1],
            input_shape@[2],
            (num_heads * attention_head_size) as i64,
        ]),
{
    let rank = input_shape.len();
    if rank == 4 {
        let merged = num_heads * attention_head_size;
        let mut out: Vec<i64> = Vec::new();
        out.push(input_shape[0]);
        out.push(input_shape[1]);
        out.push(merged);
        proof {
            assert(out@ =~= seq![
                input_shape@[0],
                input_shape@[1],
                (num_heads * attention_head_size) as i64,
            ]);
        }
        Ok(out)
    } else if rank == 5 {
        let merged = num_heads * attention_head_size;
        let mut out: Vec<i64> = Vec::new();
        out.push(input_shape[0]);
        out.push(input_shape[1]);
        out.push(input_shape[2]);
        out.push(merged);
        proof {
            assert(out@ =~= seq![
                input_shape@[0],
                input_shape@[1],
                input_shape@[2],
                (num_heads * attention_head_size) as i64,
            ]);
        }
        Ok(out)
    } else {
        Err(AttentionError::InvalidRank { expected_min: 4, expected_max: 5, found: rank })
    }
}

/// Shape of the tensor that `split_sequence_length_dim_to` produces: the
/// sequence dimension of a `[batch, sequence, hidden]` or
/// `[batch, sequence]` tensor is reshaped into `dim_factor_1` blocks of
/// `dim_factor_2` positions each.
///
/// The reshape keeps the element count, so for the two supported ranks the
/// factors must multiply out to the input's element count.
pub fn split_sequence_length_dim_to(
    input_shape: &Vec<i64>,
    dim_factor_1: i64,
    dim_factor_2: i64,
    hidden_size: i64,
) -> (r: Result<Vec<i64>, AttentionError>)
    requires
        valid_shape(input_shape@),
        input_shape@.len() >= 1,
        input_shape@.len() == 2 ==> {
            &&& 0 <= dim_factor_1
            &&& 0 <= dim_factor_2
            &&& input_shape@[0] * dim_factor_1 * dim_factor_2 == numel(input_shape@)
        },
        input_shape@.len() == 3 ==> {
            &&& 0 <= dim_factor_1
            &&& 0 <= dim_factor_2
            &&& 0 <= hidden_size
            &&& input_shape@[0] * dim_factor_1 * dim_factor_2 * hidden_size == numel(input_shape@)
        },
    ensures
        r is Ok <==> (input_shape@.len() == 2 || input_shape@.len() == 3),
        r is Err ==> r == Err::<Vec<i64>, AttentionError>(
            (AttentionError::InvalidRank {
                expected_min: 2,
                expected_max: 3,
                found: input_shape@.len() as usize,
            }),
        ),
        input_shape@.len() == 2 ==> (r matches Ok(out) && out@ == seq![
            input_shape@[0],
            dim_factor_1,
            dim_factor_2,
        ]),
        input_shape@.len() == 3 ==> (r matches Ok(out) && out@ == seq![
            input_shape@[0],
            dim_factor_1,
            dim_factor_2,
            hidden_size,
        ]),
{
    let rank = input_shape.len();
    let batch_size = input_shape[0];
    if rank == 3 {
        let mut out: Vec<i64> = Vec::new();
        out.push(batch_size);
        out.push(dim_factor_1);
        out.push(dim_factor_2);
        out.push(hidden_size);
        proof {
            assert(out@ =~= seq![input_shape@[0], dim_factor_1, dim_factor_2, hidden_size]);
        }
        Ok(out)
    } else if rank == 2 {
        let mut out: Vec<i64> = Vec::new();
        out.push(batch_size);
        out.push(dim_factor_1);
        out.push(dim_factor_2);
        proof {
            assert(out@ =~= seq![input_shape@[0], dim_factor_1, dim_factor_2]);
        }
        Ok(out)
    } else {
        Err(AttentionError::InvalidRank { expected_min: 2, expected_max: 3, found: rank })
    }
}

/// The two shapes `attend` produces: the attention output and the
/// attention weights it was formed from.
pub struct AttendShapes {
    /// Shape of the attention output, the weights multiplied onto the
    /// value tensor.
    pub output_shape: Vec<i64>,
    /// Shape of the attention weights after masking, softmax and dropout.
    pub weights_shape: Vec<i64>,
}

/// Shape of the attention weights: the query is multiplied with the
/// transposed key, the result is masked against the causal mask and the
/// masked bias, and an attention mask, when one is given, is added on.
/// Softmax and dropout keep that shape.
pub open spec fn attend_weights_shape(
    query: Seq<i64>,
    key: Seq<i64>,
    causal_mask: Seq<i64>,
    masked_bias: Seq<i64>,
    attention_mask: Option<Seq<i64>>,
) -> Seq<i64> {
    let scores = matmul_shape(query, swap_last_two(key));
    let masked = broadcast_shape(broadcast_shape(causal_mask, scores), masked_bias);
    match attention_mask {
        Some(mask) => broadcast_shape(masked, mask),
        None => masked,
    }
}

/// Whether `attend` accepts the shapes: every matrix product and every
/// broadcast it performs must be defined.
pub open spec fn attend_compatible(
    query: Seq<i64>,
    key: Seq<i64>,
    value: Seq<i64>,
    causal_mask: Seq<i64>,
    masked_bias: Seq<i64>,
    attention_mask: Option<Seq<i64>>,
) -> bool {
    let scores = matmul_shape(query, swap_last_two(key));
    let masked = broadcast_shape(broadcast_shape(causal_mask, scores), masked_bias);
    &&& key.len() >= 2
    &&& matmul_compatible(query, swap_last_two(key))
    &&& broadcastable(causal_mask, scores)
    &&& broadcastable(broadcast_shape(causal_mask, scores), masked_bias)
    &&& (attention_mask matches Some(mask) ==> broadcastable(masked, mask))
    &&& matmul_compatible(
        attend_weights_shape(query, key, causal_mask, masked_bias, attention_mask),
        value,
    )
}

/// Shapes of the tensors that `attend` produces from query, key and value
/// tensors of the given shapes: the attention weights are the scores of
/// the query against the transposed key, masked by the causal mask (the
/// masked bias fills the hidden positions), with the attention mask, when
/// one is given, added on; the output multiplies the weights onto the
/// value tensor.  Softmax and dropout leave both shapes unchanged.
pub fn attend(
    query: &Vec<i64>,
    key: &Vec<i64>,
    value: &Vec<i64>,
    causal_mask: &Vec<i64>,
    masked_bias: &Vec<i64>,
    attention_mask: Option<&Vec<i64>>,
) -> (r: AttendShapes)
    requires
        valid_shape(query@),
        valid_shape(key@),
        valid_shape(value@),
        valid_shape(causal_mask@),
        valid_shape(masked_bias@),
        attention_mask matches Some(mask) ==> valid_shape(mask@) && attend_compatible(
            query@,
            key@,
            value@,
            causal_mask@,
            masked_bias@,
            Some(mask@),
        ),
        attention_mask is None ==> attend_compatible(
            query@,
            key@,
            value@,
            causal_mask@,
            masked_bias@,
            None,
        ),
    ensures
        attention_mask matches Some(mask) ==> {
            &&& r.weights_shape@ == attend_weights_shape(
                query@,
                key@,
                causal_mask@,
                masked_bias@,
                Some(mask@),
            )
            &&& r.output_shape@ == matmul_shape(
                attend_weights_shape(query@, key@, causal_mask@, masked_bias@, Some(mask@)),
                value@,
            )
        },
        attention_mask is None ==> {
            &&& r.weights_shape@ == attend_weights_shape(
                query@,
                key@,
                causal_mask@,
                masked_bias@,
                None,
            )
            &&& r.output_shape@ == matmul_shape(
                attend_weights_shape(query@, key@, causal_mask@, masked_bias@, None),
                value@,
            )
        },
{
    let key_t = transpose_last_two(key);
    let scores = matmul_result_shape(query, &key_t);
    let causal_masked = broadcast_shapes(causal_mask, &scores);
    let biased = broadcast_shapes(&causal_masked, masked_bias);
    let weights_shape = match attention_mask {
        Some(mask) => broadcast_shapes(&biased, mask),
        None => biased,
    };
    let output_shape = matmul_result_shape(&weights_shape, value);
    AttendShapes { output_shape, weights_shape }
}

} // verus!
