//! Level matrix format: brick type identifiers and normalization of the
//! level matrix to the fixed 20x20 grid.

pub mod brick_types;

use vstd::prelude::*;

verus! {

/// Target number of rows of a normalized level matrix.
pub const TARGET_ROWS: usize = 20;

/// Target number of columns of a normalized level matrix.
pub const TARGET_COLS: usize = 20;

/// Canonical tile index of a simple (destructible) brick.
pub const SIMPLE_BRICK: u8 = 20;

/// Tile index of an indestructible brick; it never counts toward level completion.
pub const INDESTRUCTIBLE_BRICK: u8 = 90;

/// Multi-hit brick that needs one more hit to become a simple brick.
pub const MULTI_HIT_BRICK_1: u8 = 10;

/// Multi-hit brick that needs two more hits before becoming a simple brick.
pub const MULTI_HIT_BRICK_2: u8 = 11;

/// Multi-hit brick that needs three more hits before becoming a simple brick.
pub const MULTI_HIT_BRICK_3: u8 = 12;

/// Multi-hit brick with the maximum durability.
pub const MULTI_HIT_BRICK_4: u8 = 13;

/// Extra-life brick: awards one life when destroyed and scores no points.
pub const EXTRA_LIFE_BRICK: u8 = 41;

/// Tile index of the brick that only the paddle can destroy.
pub const PADDLE_DESTROYABLE_BRICK: u8 = 57;

pub open spec fn spec_is_multi_hit_brick(type_id: u8) -> bool {
    MULTI_HIT_BRICK_1 <= type_id && type_id <= MULTI_HIT_BRICK_4
}

/// Returns `true` exactly for the multi-hit brick indices 10 to 13.
#[verifier::when_used_as_spec(spec_is_multi_hit_brick)]
pub fn is_multi_hit_brick(type_id: u8) -> (r: bool)
    ensures
        r == spec_is_multi_hit_brick(type_id),
{
    MULTI_HIT_BRICK_1 <= type_id && type_id <= MULTI_HIT_BRICK_4
}

/// Returns `true` exactly for the paddle-destroyable brick (type 57).
pub fn is_paddle_destroyable_brick(type_id: u8) -> (r: bool)
    ensures
        r == (type_id == PADDLE_DESTROYABLE_BRICK),
{
    type_id == PADDLE_DESTROYABLE_BRICK
}

/// Whether a brick of this type counts toward level completion: every type
/// except the indestructible brick does.
pub fn counts_towards_completion(type_id: u8) -> (r: bool)
    ensures
        r == (type_id != INDESTRUCTIBLE_BRICK),
{
    type_id != INDESTRUCTIBLE_BRICK
}

/// The type a multi-hit brick takes after one ball hit: 13, 12 and 11 step
/// down by one, 10 becomes a simple brick.
pub open spec fn spec_next_multi_hit_type(type_id: u8) -> u8 {
    if type_id == MULTI_HIT_BRICK_1 {
        SIMPLE_BRICK
    } else {
        (type_id - 1) as u8
    }
}

/// What a ball hit does to a destructible brick.
#[derive(Debug, Clone, Copy, PartialEq, Eq, Structural)]
pub enum BallHitOutcome {
    /// A multi-hit brick loses one level of durability.
    Transition { previous_type: u8, new_type: u8 },
    /// The brick is marked for removal.
    Destroy,
}

pub open spec fn spec_ball_hit_outcome(type_id: u8) -> BallHitOutcome {
    if spec_is_multi_hit_brick(type_id) {
        BallHitOutcome::Transition {
            previous_type: type_id,
            new_type: spec_next_multi_hit_type(type_id),
        }
    } else {
        BallHitOutcome::Destroy
    }
}

/// Decides the effect of a ball hit on a destructible brick of the given type:
/// multi-hit bricks transition to their next type, all others are destroyed.
pub fn ball_hit_outcome(type_id: u8) -> (r: BallHitOutcome)
    ensures
        r == spec_ball_hit_outcome(type_id),
{
    if is_multi_hit_brick(type_id) {
        let new_type = if type_id == MULTI_HIT_BRICK_1 {
            SIMPLE_BRICK
        } else {
            type_id - 1
        };
        BallHitOutcome::Transition { previous_type: type_id, new_type }
    } else {
        BallHitOutcome::Destroy
    }
}

/// The brick type after `n` ball hits that leave the brick standing.
pub open spec fn type_after_hits(type_id: u8, n: nat) -> u8
    decreases n,
{
    if n == 0 {
        type_id
    } else if spec_is_multi_hit_brick(type_id) {
        type_after_hits(spec_next_multi_hit_type(type_id), (n - 1) as nat)
    } else {
        type_id
    }
}

/// Number of ball hits that destroy a brick: one for an ordinary brick, and
/// for a multi-hit brick one per level of durability plus the final hit on
/// the simple brick it turns into.
pub open spec fn hits_to_destroy(type_id: u8) -> nat {
    if spec_is_multi_hit_brick(type_id) {
        (type_id - 8) as nat
    } else {
        1
    }
}

/// Multi-hit bricks 10 to 13 stay multi-hit bricks for `type - 10` hits,
/// become a simple brick (20) after `type - 9` hits, and are destroyed by
/// the next hit: `hits_to_destroy` hits in all.
pub proof fn multi_hit_brick_lifecycle(type_id: u8)
    requires
        spec_is_multi_hit_brick(type_id),
    ensures
        forall|k: nat| k < type_id - 9 ==> spec_is_multi_hit_brick(#[trigger] type_after_hits(type_id, k)),
        type_after_hits(type_id, (type_id - 9) as nat) == SIMPLE_BRICK,
        spec_ball_hit_outcome(type_after_hits(type_id, (type_id - 9) as nat)) == BallHitOutcome::Destroy,
        hits_to_destroy(type_id) == (type_id - 9) + 1,
    decreases type_id,
{
    if type_id == MULTI_HIT_BRICK_1 {
        assert(type_after_hits(type_id, 1) == type_after_hits(SIMPLE_BRICK, 0));
        assert forall|k: nat| k < type_id - 9 implies spec_is_multi_hit_brick(#[trigger] type_after_hits(type_id, k)) by {
            assert(k == 0);
        }
    } else {
        let next = (type_id - 1) as u8;
        multi_hit_brick_lifecycle(next);
        assert(type_after_hits(type_id, (type_id - 9) as nat) == type_after_hits(next, (next - 9) as nat));
        assert forall|k: nat| k < type_id - 9 implies spec_is_multi_hit_brick(#[trigger] type_after_hits(type_id, k)) by {
            if k > 0 {
                assert(type_after_hits(type_id, k) == type_after_hits(next, (k - 1) as nat));
            }
        }
    }
}

/// Counts of the adjustments made while normalizing a level matrix.
#[derive(Debug, Clone, PartialEq, Eq, Structural)]
pub struct NormalizationMetrics {
    /// Number of empty rows appended.
    pub padded_rows: usize,
    /// Number of rows removed from the end.
    pub truncated_rows: usize,
    /// Number of cells appended to the kept input rows, summed over those rows.
    pub padded_cols: usize,
    /// Number of cells removed from the kept input rows, summed over those rows.
    pub truncated_cols: usize,
}

impl Default for NormalizationMetrics {
    fn default() -> (m: Self)
        ensures
            m.padded_rows == 0,
            m.truncated_rows == 0,
            m.padded_cols == 0,
            m.truncated_cols == 0,
    {
        NormalizationMetrics { padded_rows: 0, truncated_rows: 0, padded_cols: 0, truncated_cols: 0 }
    }
}

/// A normalized 20x20 matrix together with the adjustments made to obtain it.
#[derive(Debug, Clone)]
pub struct NormalizationResult {
    /// The normalized matrix.
    pub matrix: Vec<Vec<u8>>,
    /// What was padded and truncated.
    pub metrics: NormalizationMetrics,
}

/// The cell at row `r`, column `c` of `m`, or 0 where `m` has no such cell.
pub open spec fn cell_or_zero(m: Seq<Seq<u8>>, r: int, c: int) -> u8 {
    if 0 <= r < m.len() && 0 <= c < m[r].len() {
        m[r][c]
    } else {
        0
    }
}

/// The 20x20 matrix that keeps the leading cells of `m` and fills the rest with 0.
pub open spec fn normalized(m: Seq<Seq<u8>>) -> Seq<Seq<u8>> {
    Seq::new(
        TARGET_ROWS as nat,
        |r: int| Seq::new(TARGET_COLS as nat, |c: int| cell_or_zero(m, r, c)),
    )
}

pub open spec fn spec_padded_rows(m: Seq<Seq<u8>>) -> nat {
    if m.len() < TARGET_ROWS {
        (TARGET_ROWS - m.len()) as nat
    } else {
        0
    }
}

pub open spec fn spec_truncated_rows(m: Seq<Seq<u8>>) -> nat {
    if m.len() > TARGET_ROWS {
        (m.len() - TARGET_ROWS) as nat
    } else {
        0
    }
}

/// Number of input rows that are kept: the first `min(len, 20)`.
pub open spec fn kept_rows(m: Seq<Seq<u8>>) -> nat {
    if m.len() < TARGET_ROWS {
        m.len()
    } else {
        TARGET_ROWS as nat
    }
}

pub open spec fn row_padding(row: Seq<u8>) -> nat {
    if row.len() < TARGET_COLS {
        (TARGET_COLS - row.len()) as nat
    } else {
        0
    }
}

pub open spec fn row_truncation(row: Seq<u8>) -> nat {
    if row.len() > TARGET_COLS {
        (row.len() - TARGET_COLS) as nat
    } else {
        0
    }
}

/// Cells padded over the first `k` rows of `m`.
pub open spec fn padded_cols_upto(m: Seq<Seq<u8>>, k: int) -> nat
    decreases k,
{
    if k <= 0 {
        0
    } else {
        padded_cols_upto(m, k - 1) + row_padding(m[k - 1])
    }
}

/// Cells truncated over the first `k` rows of `m`.
pub open spec fn truncated_cols_upto(m: Seq<Seq<u8>>, k: int) -> nat
    decreases k,
{
    if k <= 0 {
        0
    } else {
        truncated_cols_upto(m, k - 1) + row_truncation(m[k - 1])
    }
}

pub open spec fn spec_padded_cols(m: Seq<Seq<u8>>) -> nat {
    padded_cols_upto(m, kept_rows(m) as int)
}

pub open spec fn spec_truncated_cols(m: Seq<Seq<u8>>) -> nat {
    truncated_cols_upto(m, kept_rows(m) as int)
}

proof fn lemma_padded_cols_bound(m: Seq<Seq<u8>>, k: int)
    requires
        0 <= k,
    ensures
        padded_cols_upto(m, k) <= k * TARGET_COLS,
    decreases k,
{
    if k > 0 {
        lemma_padded_cols_bound(m, k - 1);
    }
}

proof fn lemma_truncated_cols_monotone(m: Seq<Seq<u8>>, j: int, k: int)
    requires
        0 <= j <= k,
    ensures
        truncated_cols_upto(m, j) <= truncated_cols_upto(m, k),
    decreases k - j,
{
    if j < k {
        lemma_truncated_cols_monotone(m, j, k - 1);
    }
}

/// Whether `m` already has exactly 20 rows of 20 cells.
pub open spec fn has_target_shape(m: Seq<Seq<u8>>) -> bool {
    &&& m.len() == TARGET_ROWS
    &&& forall|r: int| 0 <= r < m.len() ==> #[trigger] m[r].len() == TARGET_COLS
}

proof fn lemma_cols_zero_on_target_shape(m: Seq<Seq<u8>>, k: int)
    requires
        has_target_shape(m),
        0 <= k <= TARGET_ROWS,
    ensures
        padded_cols_upto(m, k) == 0,
        truncated_cols_upto(m, k) == 0,
    decreases k,
{
    if k > 0 {
        lemma_cols_zero_on_target_shape(m, k - 1);
        assert(m[k - 1].len() == TARGET_COLS);
    }
}

/// A matrix that already is 20 by 20 comes out of normalization unchanged,
/// with nothing padded or truncated; and normalizing twice is normalizing
/// once.
pub proof fn normalization_is_idempotent(m: Seq<Seq<u8>>)
    ensures
        has_target_shape(normalized(m)),
        has_target_shape(m) ==> {
            &&& normalized(m) == m
            &&& spec_padded_rows(m) == 0
            &&& spec_truncated_rows(m) == 0
            &&& spec_padded_cols(m) == 0
            &&& spec_truncated_cols(m) == 0
        },
        normalized(normalized(m)) == normalized(m),
{
    let n = normalized(m);
    assert(has_target_shape(n));
    if has_target_shape(m) {
        assert forall|r: int| 0 <= r < TARGET_ROWS implies #[trigger] normalized(m)[r] == m[r] by {
            assert(normalized(m)[r] =~= m[r]);
        }
        assert(normalized(m) =~= m);
        lemma_cols_zero_on_target_shape(m, TARGET_ROWS as int);
    }
    assert forall|r: int| 0 <= r < TARGET_ROWS implies #[trigger] normalized(n)[r] == n[r] by {
        assert(normalized(n)[r] =~= n[r]);
    }
    assert(normalized(n) =~= n);
}

/// Row `r` of the normalized matrix: the first 20 cells of the input row,
/// padded with 0 (all 0 past the input's last row).
fn normalized_row(matrix: &Vec<Vec<u8>>, r: usize) -> (row: Vec<u8>)
    requires
        r < TARGET_ROWS,
    ensures
        row@ == normalized(matrix.deep_view())[r as int],
{
    let ghost m = matrix.deep_view();
    let input_rows = matrix.len();
    let mut row: Vec<u8> = Vec::new();
    let row_len: usize = if r < input_rows { matrix[r].len() } else { 0 };
    let mut c: usize = 0;
    while c < TARGET_COLS
        invariant
            m == matrix.deep_view(),
            input_rows == m.len(),
            r < TARGET_ROWS,
            r < input_rows ==> row_len == m[r as int].len(),
            r >= input_rows ==> row_len == 0,
            c <= TARGET_COLS,
            row.len() == c,
            forall|j: int| 0 <= j < c ==> #[trigger] row@[j] == cell_or_zero(m, r as int, j),
        decreases TARGET_COLS - c,
    {
        let v: u8 = if c < row_len { matrix[r][c] } else { 0 };
        row.push(v);
        c += 1;
    }
    assert(row@ =~= normalized(m)[r as int]);
    row
}

/// Normalizes a level matrix to exactly 20 rows of 20 columns.
///
/// Missing rows and cells are filled with 0, extra rows and cells are
/// dropped; the metrics count what was padded and truncated.
pub fn normalize_matrix(matrix: Vec<Vec<u8>>) -> (res: NormalizationResult)
    requires
        spec_truncated_cols(matrix.deep_view()) <= usize::MAX,
    ensures
        res.matrix.deep_view() == normalized(matrix.deep_view()),
        res.metrics.padded_rows == spec_padded_rows(matrix.deep_view()),
        res.metrics.truncated_rows == spec_truncated_rows(matrix.deep_view()),
        res.metrics.padded_cols == spec_padded_cols(matrix.deep_view()),
        res.metrics.truncated_cols == spec_truncated_cols(matrix.deep_view()),
{
    let ghost m = matrix.deep_view();
    let mut metrics = NormalizationMetrics::default();
    let input_rows = matrix.len();
    if input_rows < TARGET_ROWS {
        metrics.padded_rows = TARGET_ROWS - input_rows;
    }
    if input_rows > TARGET_ROWS {
        metrics.truncated_rows = input_rows - TARGET_ROWS;
    }
    let kept = if input_rows < TARGET_ROWS { input_rows } else { TARGET_ROWS };
    let mut out: Vec<Vec<u8>> = Vec::new();
    let mut r: usize = 0;
    while r < TARGET_ROWS
        invariant
            m == matrix.deep_view(),
            input_rows == m.len(),
            kept == kept_rows(m),
            r <= TARGET_ROWS,
            out.len() == r,
            forall|i: int| 0 <= i < r ==> #[trigger] out.deep_view()[i] == normalized(m)[i],
            metrics.padded_rows == spec_padded_rows(m),
            metrics.truncated_rows == spec_truncated_rows(m),
            metrics.padded_cols == padded_cols_upto(m, if r < kept { r as int } else { kept as int }),
            metrics.truncated_cols == truncated_cols_upto(m, if r < kept { r as int } else { kept as int }),
            spec_truncated_cols(m) <= usize::MAX,
        decreases TARGET_ROWS - r,
    {
        let row_len: usize = if r < input_rows { matrix[r].len() } else { 0 };
        let row = normalized_row(&matrix, r);
        if r < kept {
            proof {
                lemma_padded_cols_bound(m, r as int + 1);
                lemma_truncated_cols_monotone(m, r as int + 1, kept as int);
            }
            if row_len < TARGET_COLS {
                metrics.padded_cols = metrics.padded_cols + (TARGET_COLS - row_len);
            }
            if row_len > TARGET_COLS {
                metrics.truncated_cols = metrics.truncated_cols + (row_len - TARGET_COLS);
            }
        }
        let ghost old_out = out.deep_view();
        out.push(row);
        proof {
            assert(row.deep_view() =~= normalized(m)[r as int]);
            assert forall|i: int| 0 <= i < r + 1 implies #[trigger] out.deep_view()[i]
                == normalized(m)[i] by {
                if i < r {
                    assert(out.deep_view()[i] == old_out[i]);
                }
            }
        }
        r += 1;
    }
    proof {
        assert(out.deep_view() =~= normalized(m));
    }
    NormalizationResult { matrix: out, metrics }
}

/// Normalizes a level matrix and returns only the normalized matrix: the
/// same matrix as `normalize_matrix` gives, for every input.
pub fn normalize_matrix_simple(matrix: Vec<Vec<u8>>) -> (res: Vec<Vec<u8>>)
    ensures
        res.deep_view() == normalized(matrix.deep_view()),
{
    let ghost m = matrix.deep_view();
    let mut out: Vec<Vec<u8>> = Vec::new();
    let mut r: usize = 0;
    while r < TARGET_ROWS
        invariant
            m == matrix.deep_view(),
            r <= TARGET_ROWS,
            out.len() == r,
            forall|i: int| 0 <= i < r ==> #[trigger] out.deep_view()[i] == normalized(m)[i],
        decreases TARGET_ROWS - r,
    {
        let row = normalized_row(&matrix, r);
        let ghost old_out = out.deep_view();
        out.push(row);
        proof {
            assert(row.deep_view() =~= normalized(m)[r as int]);
            assert forall|i: int| 0 <= i < r + 1 implies #[trigger] out.deep_view()[i]
                == normalized(m)[i] by {
                if i < r {
                    assert(out.deep_view()[i] == old_out[i]);
                }
            }
        }
        r += 1;
    }
    proof {
        assert(out.deep_view() =~= normalized(m));
    }
    out
}

} // verus!
