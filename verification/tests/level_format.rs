use brkrs::level_format::brick_types::{decal_for_brick_id, normal_map_path, BrickType};
use brkrs::level_format::{
    ball_hit_outcome, counts_towards_completion, is_multi_hit_brick, is_paddle_destroyable_brick,
    normalize_matrix, normalize_matrix_simple, BallHitOutcome, INDESTRUCTIBLE_BRICK, SIMPLE_BRICK,
};

#[test]
fn mod_normalize_padding_rows_and_cols() {
    let input = vec![vec![1u8; 19]; 18];
    let result = normalize_matrix(input.clone());
    assert_eq!(result.matrix.len(), 20, "row count padded to 20");
    for row in &result.matrix {
        assert_eq!(row.len(), 20, "col count padded to 20");
    }
    assert_eq!(result.metrics.padded_rows, 2);
    assert_eq!(result.metrics.truncated_rows, 0);
    assert_eq!(result.metrics.padded_cols, 18);
    assert_eq!(result.metrics.truncated_cols, 0);
    for (r, row) in result.matrix.iter().enumerate().take(18) {
        for (c, &val) in row.iter().enumerate().take(19) {
            assert_eq!(val, 1, "row {r} col {c} should preserve value 1");
        }
    }
    for (r, row) in result.matrix.iter().enumerate().take(18) {
        assert_eq!(row[19], 0, "row {r} col 19 should be padded zero");
    }
    for (r, row) in result.matrix.iter().enumerate().skip(18).take(2) {
        for (c, &val) in row.iter().enumerate() {
            assert_eq!(val, 0, "row {r} col {c} should be padded zero");
        }
    }
}

#[test]
fn mod_normalize_truncates_rows_and_cols() {
    let input = vec![vec![2u8; 24]; 22];
    let result = normalize_matrix(input.clone());
    assert_eq!(result.matrix.len(), 20);
    for row in &result.matrix {
        assert_eq!(row.len(), 20);
    }
    assert_eq!(result.metrics.padded_rows, 0);
    assert_eq!(result.metrics.truncated_rows, 2);
    assert_eq!(result.metrics.padded_cols, 0);
    assert_eq!(result.metrics.truncated_cols, 80);
    for r in 0..20 {
        for c in 0..20 {
            assert_eq!(result.matrix[r][c], 2);
        }
    }
}

#[test]
fn mod_normalize_irregular_row_lengths() {
    let mut input: Vec<Vec<u8>> = Vec::new();
    for i in 0..22 {
        let len = match i % 3 {
            0 => 10,
            1 => 25,
            _ => 20,
        };
        input.push(vec![3u8; len]);
    }
    let result = normalize_matrix(input);
    assert_eq!(result.matrix.len(), 20);
    for (r, row) in result.matrix.iter().enumerate() {
        assert_eq!(row.len(), 20, "row {} not normalized to 20 cols", r);
        let given_len: usize = match r % 3 {
            0 => 10,
            1 => 25,
            _ => 20,
        };
        let preserved = given_len.min(20);
        for (c, &val) in row.iter().enumerate().take(preserved) {
            assert_eq!(val, 3, "row {r} col {c} should preserve value 3");
        }
        for (c, &val) in row.iter().enumerate().skip(preserved).take(20 - preserved) {
            assert_eq!(val, 0, "row {r} col {c} should be padded zero");
        }
    }
    assert_eq!(result.metrics.truncated_rows, 2);
    assert_eq!(result.metrics.padded_rows, 0);
    assert_eq!(result.metrics.padded_cols, 70);
    assert_eq!(result.metrics.truncated_cols, 35);
}

#[test]
fn mod_normalize_empty_matrix() {
    let result = normalize_matrix(Vec::new());
    assert_eq!(result.matrix.len(), 20);
    for row in &result.matrix {
        assert_eq!(row.len(), 20);
        for c in row {
            assert_eq!(*c, 0);
        }
    }
    assert_eq!(result.metrics.padded_rows, 20);
    assert_eq!(result.metrics.truncated_rows, 0);
    assert_eq!(result.metrics.padded_cols, 0);
    assert_eq!(result.metrics.truncated_cols, 0);
}

#[test]
fn mod_normalize_exact_dimensions_unchanged() {
    let mut input = vec![vec![5u8; 20]; 20];
    input[0][0] = 7;
    let result = normalize_matrix(input.clone());
    assert_eq!(result.matrix.len(), 20);
    for row in &result.matrix {
        assert_eq!(row.len(), 20);
    }
    assert_eq!(result.matrix[0][0], 7);
    for (r, row) in result.matrix.iter().enumerate().take(20) {
        for (c, &val) in row.iter().enumerate().take(20) {
            assert_eq!(val, input[r][c]);
        }
    }
    assert_eq!(result.metrics.padded_rows, 0);
    assert_eq!(result.metrics.truncated_rows, 0);
    assert_eq!(result.metrics.padded_cols, 0);
    assert_eq!(result.metrics.truncated_cols, 0);
}

#[test]
fn metrics_track_individual_row_padding() {
    let mut input: Vec<Vec<u8>> = Vec::new();
    for i in 0..20 {
        let len = if i < 10 { 15 } else { 20 };
        input.push(vec![1u8; len]);
    }
    let result = normalize_matrix(input);
    assert_eq!(result.metrics.padded_rows, 0);
    assert_eq!(result.metrics.padded_cols, 50);
    assert_eq!(result.metrics.truncated_rows, 0);
    assert_eq!(result.metrics.truncated_cols, 0);
}

#[test]
fn metrics_track_individual_row_truncation() {
    let mut input: Vec<Vec<u8>> = Vec::new();
    for i in 0..20 {
        let len = if i < 5 { 25 } else { 20 };
        input.push(vec![1u8; len]);
    }
    let result = normalize_matrix(input);
    assert_eq!(result.metrics.padded_rows, 0);
    assert_eq!(result.metrics.padded_cols, 0);
    assert_eq!(result.metrics.truncated_rows, 0);
    assert_eq!(result.metrics.truncated_cols, 25);
}

#[test]
fn level_loader_normalize_padding_rows_and_cols() {
    let input = vec![vec![1u8; 19]; 18];
    let out = normalize_matrix_simple(input.clone());
    assert_eq!(out.len(), 20, "row count padded to 20");
    for row in &out {
        assert_eq!(row.len(), 20, "col count padded to 20");
    }
    for (r, row) in out.iter().enumerate().take(18) {
        for (c, &val) in row.iter().enumerate().take(19) {
            assert_eq!(val, 1, "row {r} col {c} should preserve value 1");
        }
    }
    for (r, row) in out.iter().enumerate().take(18) {
        assert_eq!(row[19], 0, "row {r} col 19 should be padded zero");
    }
    for (r, row) in out.iter().enumerate().skip(18).take(2) {
        for (c, &val) in row.iter().enumerate().take(20) {
            assert_eq!(val, 0, "row {r} col {c} should be padded zero");
        }
    }
}

#[test]
fn level_loader_normalize_truncates_rows_and_cols() {
    let input = vec![vec![2u8; 24]; 22];
    let out = normalize_matrix_simple(input.clone());
    assert_eq!(out.len(), 20);
    for row in &out {
        assert_eq!(row.len(), 20);
    }
    for (r, row) in out.iter().enumerate().take(20) {
        for (c, &val) in row.iter().enumerate().take(20) {
            assert_eq!(val, 2, "row {r} col {c} should preserve value 2");
        }
    }
}

#[test]
fn level_loader_normalize_irregular_row_lengths() {
    let mut input: Vec<Vec<u8>> = Vec::new();
    for i in 0..22 {
        let len = match i % 3 {
            0 => 10,
            1 => 25,
            _ => 20,
        };
        input.push(vec![3u8; len]);
    }
    let out = normalize_matrix_simple(input);
    assert_eq!(out.len(), 20);
    for (r, row) in out.iter().enumerate() {
        assert_eq!(row.len(), 20, "row {} not normalized to 20 cols", r);
        let given_len: usize = match r % 3 {
            0 => 10,
            1 => 25,
            _ => 20,
        };
        let preserved = given_len.min(20);
        for (c, &val) in row.iter().enumerate().take(preserved) {
            assert_eq!(val, 3, "row {r} col {c} should preserve value 3");
        }
        for (c, &val) in row.iter().enumerate().skip(preserved).take(20 - preserved) {
            assert_eq!(val, 0, "row {r} col {c} should be padded zero");
        }
    }
}

#[test]
fn level_loader_normalize_empty_matrix() {
    let out = normalize_matrix_simple(Vec::new());
    assert_eq!(out.len(), 20);
    for row in &out {
        assert_eq!(row.len(), 20);
        for c in row {
            assert_eq!(*c, 0);
        }
    }
}

#[test]
fn level_loader_normalize_exact_dimensions_unchanged() {
    let mut input = vec![vec![5u8; 20]; 20];
    input[0][0] = 7;
    let out = normalize_matrix_simple(input.clone());
    assert_eq!(out.len(), 20);
    for row in &out {
        assert_eq!(row.len(), 20);
    }
    assert_eq!(out[0][0], 7);
    for (r, row) in out.iter().enumerate().take(20) {
        for (c, &val) in row.iter().enumerate().take(20) {
            assert_eq!(val, input[r][c]);
        }
    }
}

#[test]
fn normalizing_twice_changes_nothing_more() {
    let mut input: Vec<Vec<u8>> = Vec::new();
    for i in 0..23u8 {
        input.push(vec![i; (i as usize) + 3]);
    }
    let once = normalize_matrix(input);
    let twice = normalize_matrix(once.matrix.clone());
    assert_eq!(twice.matrix, once.matrix);
    assert_eq!(twice.metrics.padded_rows, 0);
    assert_eq!(twice.metrics.truncated_rows, 0);
    assert_eq!(twice.metrics.padded_cols, 0);
    assert_eq!(twice.metrics.truncated_cols, 0);
}

#[test]
fn multi_hit_brick_goes_through_every_stage() {
    let mut t = 13u8;
    let mut seen = vec![t];
    while is_multi_hit_brick(t) {
        match ball_hit_outcome(t) {
            BallHitOutcome::Transition { previous_type, new_type } => {
                assert_eq!(previous_type, t);
                t = new_type;
                seen.push(t);
            }
            BallHitOutcome::Destroy => panic!("a multi-hit brick is never destroyed outright"),
        }
    }
    assert_eq!(seen, vec![13, 12, 11, 10, SIMPLE_BRICK]);
    assert_eq!(ball_hit_outcome(SIMPLE_BRICK), BallHitOutcome::Destroy);
}

#[test]
fn brick_classification_by_type() {
    assert!(is_multi_hit_brick(10));
    assert!(is_multi_hit_brick(13));
    assert!(!is_multi_hit_brick(14));
    assert!(!is_multi_hit_brick(9));
    assert!(!counts_towards_completion(INDESTRUCTIBLE_BRICK));
    assert!(counts_towards_completion(SIMPLE_BRICK));
    assert!(is_paddle_destroyable_brick(57));
    assert!(!is_paddle_destroyable_brick(20));
}

#[test]
fn decals_follow_brick_type() {
    assert_eq!(BrickType::from_id(90), Some(BrickType::Indestructible));
    assert_eq!(BrickType::from_id(5), None);
    assert_eq!(BrickType::from_id(10), Some(BrickType::MultiHit));
    assert_eq!(BrickType::from_id(12), Some(BrickType::MultiHit));
    assert_eq!(BrickType::from_id(13), Some(BrickType::MultiHit));
    assert_eq!(BrickType::from_id(14), None);
    assert_eq!(BrickType::from_id(20), Some(BrickType::Standard));
    assert_eq!(normal_map_path(BrickType::MultiHit), "textures/decals/multihit_normal.png");
    let d = decal_for_brick_id(250);
    assert_eq!(d.brick_type, BrickType::Standard);
    assert_eq!(d.normal_map_handle.as_deref(), Some("textures/decals/standard_normal.png"));
}

#[test]
fn simple_normalization_matches_full_normalization() {
    let input: Vec<Vec<u8>> = (0..23)
        .map(|r| (0..(r * 2 % 27)).map(|c| ((r * 7 + c) % 91) as u8).collect())
        .collect();
    assert_eq!(normalize_matrix_simple(input.clone()), normalize_matrix(input).matrix);
}
