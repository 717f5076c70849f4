use gpt_neo_attention::attention::attend;
use gpt_neo_attention::attention::get_block_length_and_num_blocks;
use gpt_neo_attention::attention::look_back;
use gpt_neo_attention::attention::merge_heads;
use gpt_neo_attention::attention::split_heads;
use gpt_neo_attention::attention::split_sequence_length_dim_to;
use gpt_neo_attention::attention::AttentionError;

#[test]
fn block_length_of_divisible_window() {
    assert_eq!(get_block_length_and_num_blocks(256, 256), (256, 1));
}

#[test]
fn block_length_shrinks_to_largest_divisor() {
    assert_eq!(get_block_length_and_num_blocks(256, 70), (64, 4));
    assert_eq!(get_block_length_and_num_blocks(12, 5), (4, 3));
}

#[test]
fn block_length_of_prime_sequence() {
    assert_eq!(get_block_length_and_num_blocks(7, 4), (1, 7));
}

#[test]
fn split_heads_rank_three() {
    let shape = vec![2i64, 5, 12];
    let out = split_heads(&shape, 3, 4).unwrap();
    assert_eq!(out, vec![2, 3, 5, 4]);
}

#[test]
fn split_heads_rank_four() {
    let shape = vec![2i64, 6, 5, 12];
    let out = split_heads(&shape, 3, 4).unwrap();
    assert_eq!(out, vec![2, 6, 3, 5, 4]);
}

#[test]
fn split_heads_rejects_rank_two() {
    let shape = vec![2i64, 12];
    let err = split_heads(&shape, 3, 4).unwrap_err();
    assert_eq!(
        err,
        AttentionError::InvalidRank { expected_min: 4, expected_max: 5, found: 2 }
    );
}

#[test]
fn merge_heads_rank_four() {
    let shape = vec![2i64, 3, 5, 4];
    let out = merge_heads(&shape, 5, 4).unwrap();
    assert_eq!(out, vec![2, 3, 20]);
}

#[test]
fn merge_heads_rank_five() {
    let shape = vec![2i64, 4, 3, 4, 5];
    let out = merge_heads(&shape, 4, 5).unwrap();
    assert_eq!(out, vec![2, 4, 3, 20]);
}

#[test]
fn merge_heads_rejects_rank_three() {
    let shape = vec![2i64, 3, 20];
    let err = merge_heads(&shape, 5, 4).unwrap_err();
    assert_eq!(
        err,
        AttentionError::InvalidRank { expected_min: 4, expected_max: 5, found: 3 }
    );
}

#[test]
fn split_sequence_length_rank_three() {
    let shape = vec![2i64, 12, 8];
    let out = split_sequence_length_dim_to(&shape, 3, 4, 8).unwrap();
    assert_eq!(out, vec![2, 3, 4, 8]);
}

#[test]
fn split_sequence_length_rank_two() {
    let shape = vec![2i64, 12];
    let out = split_sequence_length_dim_to(&shape, 3, 4, 7).unwrap();
    assert_eq!(out, vec![2, 3, 4]);
}

#[test]
fn split_sequence_length_rejects_rank_one() {
    let shape = vec![5i64];
    let err = split_sequence_length_dim_to(&shape, 1, 5, 1).unwrap_err();
    assert_eq!(
        err,
        AttentionError::InvalidRank { expected_min: 2, expected_max: 3, found: 1 }
    );
}

#[test]
fn look_back_rank_three() {
    let shape = vec![2i64, 8, 6];
    let plan = look_back(&shape, 4, 4, None, false).unwrap();
    assert_eq!(plan.padding, vec![0, 0, 4, 0]);
    assert_eq!(plan.pad_value, None);
    assert_eq!(plan.unfold_size, 8);
    assert_eq!(plan.unfold_step, 4);
    assert!(!plan.transpose_last_two);
    assert_eq!(plan.output_shape, vec![2, 2, 6, 8]);
}

#[test]
fn look_back_rank_three_key_value() {
    let shape = vec![2i64, 8, 6];
    let plan = look_back(&shape, 4, 4, Some(3), true).unwrap();
    assert_eq!(plan.padding, vec![0, 0, 4, 0]);
    assert_eq!(plan.pad_value, Some(3));
    assert!(plan.transpose_last_two);
    assert_eq!(plan.output_shape, vec![2, 2, 8, 6]);
}

#[test]
fn look_back_rank_two() {
    let shape = vec![2i64, 8];
    let plan = look_back(&shape, 4, 4, Some(0), false).unwrap();
    assert_eq!(plan.padding, vec![4, 0]);
    assert_eq!(plan.output_shape, vec![2, 2, 8]);
}

#[test]
fn look_back_rank_two_key_value() {
    let shape = vec![2i64, 8];
    let plan = look_back(&shape, 4, 4, None, true).unwrap();
    assert_eq!(plan.padding, vec![4, 0]);
    assert_eq!(plan.output_shape, vec![2, 8, 2]);
}

#[test]
fn look_back_window_beyond_block() {
    // A window that looks back further than one block: 12 positions in
    // blocks of 3, each window spanning the block and the 6 before it.
    let shape = vec![1i64, 12, 16];
    let plan = look_back(&shape, 3, 6, None, false).unwrap();
    assert_eq!(plan.unfold_size, 9);
    assert_eq!(plan.output_shape, vec![1, 4, 16, 9]);
}

#[test]
fn look_back_rejects_rank_four() {
    let shape = vec![1i64, 2, 3, 4];
    let err = look_back(&shape, 1, 1, None, false).unwrap_err();
    assert_eq!(
        err,
        AttentionError::InvalidRank { expected_min: 2, expected_max: 3, found: 4 }
    );
}

#[test]
fn attend_without_attention_mask() {
    let query = vec![1i64, 2, 4, 8];
    let key = vec![1i64, 2, 4, 8];
    let value = vec![1i64, 2, 4, 8];
    let causal_mask = vec![1i64, 1, 4, 4];
    let masked_bias: Vec<i64> = vec![];
    let shapes = attend(&query, &key, &value, &causal_mask, &masked_bias, None);
    assert_eq!(shapes.weights_shape, vec![1, 2, 4, 4]);
    assert_eq!(shapes.output_shape, vec![1, 2, 4, 8]);
}

#[test]
fn attend_with_attention_mask() {
    let query = vec![2i64, 4, 6, 8];
    let key = vec![2i64, 4, 6, 8];
    let value = vec![2i64, 4, 6, 8];
    let causal_mask = vec![1i64, 1, 6, 6];
    let masked_bias: Vec<i64> = vec![];
    let attention_mask = vec![2i64, 1, 1, 6];
    let shapes = attend(
        &query,
        &key,
        &value,
        &causal_mask,
        &masked_bias,
        Some(&attention_mask),
    );
    assert_eq!(shapes.weights_shape, vec![2, 4, 6, 6]);
    assert_eq!(shapes.output_shape, vec![2, 4, 6, 8]);
}

#[test]
fn attend_broadcasts_lower_rank_mask() {
    let query = vec![1i64, 2, 4, 8];
    let key = vec![1i64, 2, 4, 8];
    let value = vec![1i64, 2, 4, 8];
    let causal_mask = vec![4i64, 4];
    let masked_bias: Vec<i64> = vec![];
    let shapes = attend(&query, &key, &value, &causal_mask, &masked_bias, None);
    assert_eq!(shapes.weights_shape, vec![1, 2, 4, 4]);
    assert_eq!(shapes.output_shape, vec![1, 2, 4, 8]);
}

#[test]
fn local_attention_pipeline() {
    // One pass of local attention at shape level: batch 2, sequence 12,
    // hidden 8, window 5, 4 heads of 2 values each.
    let (block_length, num_blocks) = get_block_length_and_num_blocks(12, 5);
    assert_eq!((block_length, num_blocks), (4, 3));

    // the query is split into blocks, keys and values into lookback windows
    let query_blocks =
        split_sequence_length_dim_to(&vec![2, 12, 8], num_blocks, block_length, 8).unwrap();
    assert_eq!(query_blocks, vec![2, 3, 4, 8]);
    let key_windows = look_back(&vec![2, 12, 8], block_length, 5, None, true).unwrap();
    assert_eq!(key_windows.output_shape, vec![2, 3, 9, 8]);

    // heads are split off, attention is computed, heads are merged back
    let query_heads = split_heads(&query_blocks, 4, 2).unwrap();
    assert_eq!(query_heads, vec![2, 3, 4, 4, 2]);
    let key_heads = split_heads(&key_windows.output_shape, 4, 2).unwrap();
    assert_eq!(key_heads, vec![2, 3, 4, 9, 2]);
    let causal_mask = vec![1i64, 1, 1, 4, 9];
    let masked_bias: Vec<i64> = vec![];
    let attended = attend(
        &query_heads,
        &key_heads,
        &key_heads,
        &causal_mask,
        &masked_bias,
        None,
    );
    assert_eq!(attended.weights_shape, vec![2, 3, 4, 4, 9]);
    assert_eq!(attended.output_shape, vec![2, 3, 4, 4, 2]);
    let merged = merge_heads(&attended.output_shape, 4, 2).unwrap();
    assert_eq!(merged, vec![2, 3, 4, 8]);
}
