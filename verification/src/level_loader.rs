//! Level definitions, the spawn plan read off a level matrix, and the state
//! machine that advances to the next level once a level is cleared.

use vstd::prelude::*;
use vstd::string::*;

use crate::level_format::{counts_towards_completion, INDESTRUCTIBLE_BRICK};
use crate::text::{
    all_ws, decimal_pad3, parse_u32, push_decimal_pad3, spec_parse_u32, spec_trim, trim,
};

verus! {

/// A level as read from its level file (the gravity override stays with the
/// physics layer, which owns floating-point values).
#[derive(Debug, Clone)]
pub struct LevelDefinition {
    /// Level number.
    pub number: u32,
    /// Brick matrix, expected to be 20x20.
    pub matrix: Vec<Vec<u8>>,
    /// Optional design notes; never shown during play.
    pub description: Option<String>,
    /// Optional author, as plain text or as a markdown link `[Name](url)`.
    pub author: Option<String>,
}

/// The level currently being played.
#[derive(Debug, Clone)]
pub struct CurrentLevel(pub LevelDefinition);

/// Whether `k` is the position of the first `](` in `s`.
pub open spec fn first_link_close(s: Seq<char>, k: int) -> bool {
    &&& 0 <= k
    &&& k + 1 < s.len()
    &&& s[k] == ']'
    &&& s[k + 1] == '('
    &&& forall|x: int| 0 <= x < k ==> !(s[x] == ']' && #[trigger] s[x + 1] == '(')
}

/// The display name of an author field: the trimmed text, or, when the
/// trimmed text starts with `[` and contains `](`, the trimmed text between
/// the `[` and the first `](`.
pub open spec fn spec_author_name(a: Seq<char>) -> Seq<char> {
    let t = spec_trim(a);
    if t.len() > 0 && t[0] == '[' && exists|k: int| first_link_close(t, k) {
        let k = choose|k: int| first_link_close(t, k);
        spec_trim(t.subrange(1, k))
    } else {
        t
    }
}

proof fn lemma_first_link_close_unique(s: Seq<char>, k1: int, k2: int)
    requires
        first_link_close(s, k1),
        first_link_close(s, k2),
    ensures
        k1 == k2,
{
    if k1 < k2 {
        assert(!(s[k1] == ']' && s[k1 + 1] == '('));
    }
    if k2 < k1 {
        assert(!(s[k2] == ']' && s[k2 + 1] == '('));
    }
}

/// Extracts the display name from an author field: `"Jane Smith"` stays as it
/// is, `"[Jane Smith](mailto:jane@example.com)"` gives `"Jane Smith"`.
pub fn extract_author_name(author: &str) -> (name: &str)
    ensures
        name@ == spec_author_name(author@),
{
    let trimmed = trim(author);
    let n = trimmed.unicode_len();
    if n > 0 && trimmed.get_char(0) == '[' {
        let mut k: usize = 1;
        while k < n - 1
            invariant
                n == trimmed@.len(),
                n > 0,
                trimmed@[0] == '[',
                trimmed@ == spec_trim(author@),
                1 <= k <= n,
                forall|x: int| 0 <= x < k ==> !(trimmed@[x] == ']' && #[trigger] trimmed@[x + 1] == '('),
            decreases n - k,
        {
            if trimmed.get_char(k) == ']' && trimmed.get_char(k + 1) == '(' {
                let inner = trimmed.substring_char(1, k);
                proof {
                    assert(first_link_close(trimmed@, k as int));
                    let c = choose|c: int| first_link_close(trimmed@, c);
                    lemma_first_link_close_unique(trimmed@, k as int, c);
                }
                return trim(inner);
            }
            k += 1;
        }
        proof {
            assert forall|c: int| !first_link_close(trimmed@, c) by {
                if first_link_close(trimmed@, c) {
                    assert(!(trimmed@[c] == ']' && trimmed@[c + 1] == '('));
                }
            }
        }
    }
    trimmed
}

/// Whether an optional text field holds something besides whitespace.
pub open spec fn has_text(field: Option<String>) -> bool {
    match field {
        Some(s) => !all_ws(s@),
        None => false,
    }
}

impl LevelDefinition {
    /// True when the description is present and not just whitespace.
    pub fn has_description(&self) -> (r: bool)
        ensures
            r == has_text(self.description),
    {
        match &self.description {
            Some(s) => trim(s.as_str()).unicode_len() != 0,
            None => false,
        }
    }

    /// True when the author is present and not just whitespace.
    pub fn has_author(&self) -> (r: bool)
        ensures
            r == has_text(self.author),
    {
        match &self.author {
            Some(s) => trim(s.as_str()).unicode_len() != 0,
            None => false,
        }
    }

    /// The author's display name, or `None` when the author field is absent
    /// or only whitespace.
    pub fn author_name(&self) -> (r: Option<&str>)
        ensures
            has_text(self.author) ==> (r matches Some(n) && n@ == spec_author_name(
                self.author->Some_0@,
            )),
            !has_text(self.author) ==> r is None,
    {
        match &self.author {
            Some(s) => {
                if trim(s.as_str()).unicode_len() != 0 {
                    Some(extract_author_name(s.as_str()))
                } else {
                    None
                }
            },
            None => None,
        }
    }
}

/// What a level-matrix cell holds.
#[derive(Debug, Clone, Copy, PartialEq, Eq, Structural)]
pub enum CellKind {
    /// Value 0.
    Empty,
    /// Value 1: the ball's starting cell.
    Ball,
    /// Value 2: the paddle's starting cell.
    Paddle,
    /// Values 3 to 255: a brick of that type.
    Brick(u8),
}

pub open spec fn spec_classify_cell(v: u8) -> CellKind {
    if v == 0 {
        CellKind::Empty
    } else if v == 1 {
        CellKind::Ball
    } else if v == 2 {
        CellKind::Paddle
    } else {
        CellKind::Brick(v)
    }
}

/// The meaning of a matrix value: 0 is an empty cell, 1 the ball's start, 2
/// the paddle's start, and every value from 3 up a brick of that type.
pub proof fn cell_values_have_fixed_meanings(v: u8)
    ensures
        spec_classify_cell(0) == CellKind::Empty,
        spec_classify_cell(1) == CellKind::Ball,
        spec_classify_cell(2) == CellKind::Paddle,
        v >= 3 ==> spec_classify_cell(v) == CellKind::Brick(v),
{
}

/// Classifies a matrix value.
pub fn classify_cell(v: u8) -> (k: CellKind)
    ensures
        k == spec_classify_cell(v),
{
    match v {
        0 => CellKind::Empty,
        1 => CellKind::Ball,
        2 => CellKind::Paddle,
        _ => CellKind::Brick(v),
    }
}

/// A brick to spawn at a matrix cell.
#[derive(Debug, Clone, Copy, PartialEq, Eq, Structural)]
pub struct BrickSpawn {
    pub row: usize,
    pub col: usize,
    pub type_id: u8,
    /// False only for indestructible bricks.
    pub counts_towards_completion: bool,
}

/// Which cells of a level matrix spawn the paddle, the ball and the bricks.
#[derive(Debug, Clone)]
pub struct LevelSpawnPlan {
    /// First paddle cell (value 2) in row-major order.
    pub paddle: Option<(usize, usize)>,
    /// First ball cell (value 1) in row-major order.
    pub ball: Option<(usize, usize)>,
    /// Every brick cell (value 3 or more), in row-major order.
    pub bricks: Vec<BrickSpawn>,
}

pub open spec fn in_grid(m: Seq<Seq<u8>>, r: int, c: int) -> bool {
    0 <= r < m.len() && 0 <= c < m[r].len()
}

/// Row-major order on cells.
pub open spec fn cell_before(r1: int, c1: int, r2: int, c2: int) -> bool {
    r1 < r2 || (r1 == r2 && c1 < c2)
}

/// `(r, c)` is the first cell of `m` in row-major order that holds `v`.
pub open spec fn is_first_cell(m: Seq<Seq<u8>>, v: u8, r: int, c: int) -> bool {
    &&& in_grid(m, r, c)
    &&& m[r][c] == v
    &&& forall|r2: int, c2: int|
        in_grid(m, r2, c2) && cell_before(r2, c2, r, c) ==> #[trigger] m[r2][c2] != v
}

pub open spec fn has_cell(m: Seq<Seq<u8>>, v: u8) -> bool {
    exists|r: int, c: int| in_grid(m, r, c) && #[trigger] m[r][c] == v
}

/// The position of the first cell holding `v`, as the plan reports it.
pub open spec fn first_cell_matches(m: Seq<Seq<u8>>, v: u8, p: Option<(usize, usize)>) -> bool {
    match p {
        Some((r, c)) => is_first_cell(m, v, r as int, c as int),
        None => !has_cell(m, v),
    }
}

pub open spec fn listed(s: Seq<BrickSpawn>, r: int, c: int) -> bool {
    exists|i: int| 0 <= i < s.len() && #[trigger] s[i].row == r && s[i].col == c
}

/// `s` lists exactly the brick cells of `m`, each once, in row-major order.
pub open spec fn bricks_listed(m: Seq<Seq<u8>>, s: Seq<BrickSpawn>) -> bool {
    &&& forall|i: int|
        0 <= i < s.len() ==> {
            let b = #[trigger] s[i];
            &&& in_grid(m, b.row as int, b.col as int)
            &&& b.type_id == m[b.row as int][b.col as int]
            &&& b.type_id >= 3
            &&& b.counts_towards_completion == (b.type_id != INDESTRUCTIBLE_BRICK)
        }
    &&& forall|i: int, j: int|
        0 <= i < j < s.len() ==> cell_before(
            #[trigger] s[i].row as int,
            s[i].col as int,
            #[trigger] s[j].row as int,
            s[j].col as int,
        )
    &&& forall|r: int, c: int| in_grid(m, r, c) && #[trigger] m[r][c] >= 3 ==> listed(s, r, c)
}

/// Reads the spawn plan off a level matrix: the first paddle cell, the first
/// ball cell and all brick cells, in row-major order.
pub fn plan_level_spawns(matrix: &Vec<Vec<u8>>) -> (plan: LevelSpawnPlan)
    ensures
        first_cell_matches(matrix.deep_view(), 2, plan.paddle),
        first_cell_matches(matrix.deep_view(), 1, plan.ball),
        bricks_listed(matrix.deep_view(), plan.bricks@),
{
    let ghost m = matrix.deep_view();
    let mut paddle: Option<(usize, usize)> = None;
    let mut ball: Option<(usize, usize)> = None;
    let mut bricks: Vec<BrickSpawn> = Vec::new();
    let rows = matrix.len();
    let mut r: usize = 0;
    while r < rows
        invariant
            m == matrix.deep_view(),
            rows == m.len(),
            r <= rows,
            match paddle {
                Some((pr, pc)) => is_first_cell(m, 2, pr as int, pc as int),
                None => forall|r2: int, c2: int|
                    in_grid(m, r2, c2) && r2 < r ==> #[trigger] m[r2][c2] != 2,
            },
            match ball {
                Some((br, bc)) => is_first_cell(m, 1, br as int, bc as int),
                None => forall|r2: int, c2: int|
                    in_grid(m, r2, c2) && r2 < r ==> #[trigger] m[r2][c2] != 1,
            },
            forall|i: int|
                0 <= i < bricks@.len() ==> {
                    let b = #[trigger] bricks@[i];
                    &&& in_grid(m, b.row as int, b.col as int)
                    &&& b.type_id == m[b.row as int][b.col as int]
                    &&& b.type_id >= 3
                    &&& b.counts_towards_completion == (b.type_id != INDESTRUCTIBLE_BRICK)
                    &&& b.row < r
                },
            forall|i: int, j: int|
                0 <= i < j < bricks@.len() ==> cell_before(
                    #[trigger] bricks@[i].row as int,
                    bricks@[i].col as int,
                    #[trigger] bricks@[j].row as int,
                    bricks@[j].col as int,
                ),
            forall|r2: int, c2: int|
                in_grid(m, r2, c2) && r2 < r && #[trigger] m[r2][c2] >= 3 ==> listed(
                    bricks@,
                    r2,
                    c2,
                ),
        decreases rows - r,
    {
        let cols = matrix[r].len();
        let mut c: usize = 0;
        while c < cols
            invariant
                m == matrix.deep_view(),
                rows == m.len(),
                r < rows,
                cols == m[r as int].len(),
                c <= cols,
                match paddle {
                    Some((pr, pc)) => is_first_cell(m, 2, pr as int, pc as int),
                    None => forall|r2: int, c2: int|
                        in_grid(m, r2, c2) && cell_before(r2, c2, r as int, c as int)
                            ==> #[trigger] m[r2][c2] != 2,
                },
                match ball {
                    Some((br, bc)) => is_first_cell(m, 1, br as int, bc as int),
                    None => forall|r2: int, c2: int|
                        in_grid(m, r2, c2) && cell_before(r2, c2, r as int, c as int)
                            ==> #[trigger] m[r2][c2] != 1,
                },
                forall|i: int|
                    0 <= i < bricks@.len() ==> {
                        let b = #[trigger] bricks@[i];
                        &&& in_grid(m, b.row as int, b.col as int)
                        &&& b.type_id == m[b.row as int][b.col as int]
                        &&& b.type_id >= 3
                        &&& b.counts_towards_completion == (b.type_id != INDESTRUCTIBLE_BRICK)
                        &&& cell_before(b.row as int, b.col as int, r as int, c as int)
                    },
                forall|i: int, j: int|
                    0 <= i < j < bricks@.len() ==> cell_before(
                        #[trigger] bricks@[i].row as int,
                        bricks@[i].col as int,
                        #[trigger] bricks@[j].row as int,
                        bricks@[j].col as int,
                    ),
                forall|r2: int, c2: int|
                    in_grid(m, r2, c2) && cell_before(r2, c2, r as int, c as int)
                        && #[trigger] m[r2][c2] >= 3 ==> listed(bricks@, r2, c2),
            decreases cols - c,
        {
            let v = matrix[r][c];
            assert(v == m[r as int][c as int]);
            match classify_cell(v) {
                CellKind::Empty => {},
                CellKind::Ball => {
                    if ball.is_none() {
                        ball = Some((r, c));
                    }
                },
                CellKind::Paddle => {
                    if paddle.is_none() {
                        paddle = Some((r, c));
                    }
                },
                CellKind::Brick(type_id) => {
                    let ghost old_bricks = bricks@;
                    bricks.push(
                        BrickSpawn {
                            row: r,
                            col: c,
                            type_id,
                            counts_towards_completion: counts_towards_completion(type_id),
                        },
                    );
                    proof {
                        assert forall|r2: int, c2: int|
                            in_grid(m, r2, c2) && cell_before(r2, c2, r as int, c as int + 1)
                                && #[trigger] m[r2][c2] >= 3 implies listed(bricks@, r2, c2) by {
                            if r2 == r && c2 == c {
                                assert(bricks@[old_bricks.len() as int].row == r2);
                            } else {
                                assert(listed(old_bricks, r2, c2));
                                let i = choose|i: int|
                                    0 <= i < old_bricks.len() && #[trigger] old_bricks[i].row == r2
                                        && old_bricks[i].col == c2;
                                assert(bricks@[i] == old_bricks[i]);
                            }
                        }
                    }
                },
            }
            c += 1;
        }
        r += 1;
    }
    proof {
        assert forall|r2: int, c2: int|
            in_grid(m, r2, c2) && #[trigger] m[r2][c2] >= 3 implies listed(bricks@, r2, c2) by {
        }
        if paddle.is_none() {
            assert forall|r2: int, c2: int| in_grid(m, r2, c2) implies #[trigger] m[r2][c2] != 2 by {
            }
        }
        if ball.is_none() {
            assert forall|r2: int, c2: int| in_grid(m, r2, c2) implies #[trigger] m[r2][c2] != 1 by {
            }
        }
    }
    LevelSpawnPlan { paddle, ball, bricks }
}

/// Whether the game has been completed (no level file follows the last one).
#[derive(Debug, Clone, Copy, PartialEq, Eq, Structural)]
pub struct GameProgress {
    pub finished: bool,
}

impl Default for GameProgress {
    fn default() -> (p: Self)
        ensures
            !p.finished,
    {
        GameProgress { finished: false }
    }
}

/// Progress of the delayed advance to the next level. The delay timer and
/// the growth animation live with the render layer; this holds the decisions.
#[derive(Debug)]
pub struct LevelAdvanceState {
    /// A transition is in progress.
    pub active: bool,
    /// The shrunken paddle and frozen ball of the next level have been spawned.
    pub growth_spawned: bool,
    /// The next level, waiting to be spawned.
    pub pending: Option<LevelDefinition>,
    /// The ball has been unfrozen; gravity is switched on one frame later.
    pub unfreezing: bool,
}

impl Default for LevelAdvanceState {
    fn default() -> (s: Self)
        ensures
            !s.active,
            !s.growth_spawned,
            s.pending is None,
            !s.unfreezing,
    {
        LevelAdvanceState { active: false, growth_spawned: false, pending: None, unfreezing: false }
    }
}

impl LevelAdvanceState {
    /// A transition is active exactly when a next level is pending, and the
    /// growth stage is only reached during a transition.
    pub open spec fn wf(&self) -> bool {
        &&& self.active == self.pending.is_some()
        &&& self.growth_spawned ==> self.active
    }
}

/// Whether clearing the field starts the end-of-level handling: a level is
/// loaded, no destructible brick is left and no transition is running.
pub fn should_handle_level_cleared(
    state: &LevelAdvanceState,
    has_current_level: bool,
    destructible_remaining: usize,
) -> (r: bool)
    ensures
        r == (has_current_level && destructible_remaining == 0 && !state.active),
{
    has_current_level && destructible_remaining == 0 && !state.active
}

/// Outcome of looking up the level that follows a cleared one.
#[derive(Debug)]
pub enum NextLevelLookup {
    /// No level file follows: the game is complete.
    Missing,
    /// The file exists but could not be read or parsed.
    Failed,
    /// The next level, parsed.
    Loaded(LevelDefinition),
}

/// What clearing a level led to.
#[derive(Debug, Clone, Copy, PartialEq, Eq, Structural)]
pub enum LevelClearedOutcome {
    /// The last level was cleared just now: freeze play and show the completion text.
    GameComplete,
    /// The game had already been completed; nothing more happens.
    AlreadyComplete,
    /// The advance to the next level has started: remove paddle and ball.
    AdvanceStarted,
    /// The next level file could not be loaded; play stays as it is.
    LoadFailed,
}

pub open spec fn begin_advance(s: LevelAdvanceState, def: LevelDefinition) -> LevelAdvanceState {
    LevelAdvanceState { active: true, growth_spawned: false, pending: Some(def), unfreezing: s.unfreezing }
}

/// Applies the result of the next-level lookup after a level was cleared.
pub fn on_level_cleared(
    state: &mut LevelAdvanceState,
    progress: &mut GameProgress,
    lookup: NextLevelLookup,
) -> (outcome: LevelClearedOutcome)
    ensures
        match lookup {
            NextLevelLookup::Missing => {
                &&& outcome == (if old(progress).finished {
                    LevelClearedOutcome::AlreadyComplete
                } else {
                    LevelClearedOutcome::GameComplete
                })
                &&& final(progress).finished
                &&& *final(state) == *old(state)
            },
            NextLevelLookup::Failed => {
                &&& outcome == LevelClearedOutcome::LoadFailed
                &&& *final(progress) == *old(progress)
                &&& *final(state) == *old(state)
            },
            NextLevelLookup::Loaded(def) => {
                &&& outcome == LevelClearedOutcome::AdvanceStarted
                &&& *final(progress) == *old(progress)
                &&& *final(state) == begin_advance(*old(state), def)
            },
        },
{
    match lookup {
        NextLevelLookup::Missing => {
            if progress.finished {
                LevelClearedOutcome::AlreadyComplete
            } else {
                progress.finished = true;
                LevelClearedOutcome::GameComplete
            }
        },
        NextLevelLookup::Failed => LevelClearedOutcome::LoadFailed,
        NextLevelLookup::Loaded(def) => {
            state.active = true;
            state.growth_spawned = false;
            state.pending = Some(def);
            LevelClearedOutcome::AdvanceStarted
        },
    }
}

/// Number of the level after `current`.
pub fn next_level_number(current: u32) -> (n: u32)
    requires
        current < u32::MAX,
    ensures
        n == current + 1,
{
    current + 1
}

/// Whether the delay before spawning the next level is running: a transition
/// is active, a level is pending and the growth stage has not started.
pub fn advance_delay_pending(state: &LevelAdvanceState) -> (r: bool)
    ensures
        r == (state.active && state.pending.is_some() && !state.growth_spawned),
{
    state.active && state.pending.is_some() && !state.growth_spawned
}

/// Marks the end of the delay: the shrunken paddle and frozen ball of the
/// pending level have been spawned; its bricks wait until the paddle has
/// grown, and it stays pending until the transition is finalized.
pub fn mark_growth_spawned(state: &mut LevelAdvanceState)
    ensures
        final(state).growth_spawned,
        final(state).active == old(state).active,
        final(state).pending == old(state).pending,
        final(state).unfreezing == old(state).unfreezing,
{
    state.growth_spawned = true;
}

/// `a` and `b` describe the same level: number, matrix and text fields.
pub open spec fn same_level(a: LevelDefinition, b: LevelDefinition) -> bool {
    &&& a.number == b.number
    &&& a.matrix.deep_view() == b.matrix.deep_view()
    &&& a.description == b.description
    &&& a.author == b.author
}

fn copy_text(t: &Option<String>) -> (c: Option<String>)
    ensures
        c == *t,
{
    match t {
        Some(s) => Some(s.clone()),
        None => None,
    }
}

fn copy_matrix(m: &Vec<Vec<u8>>) -> (c: Vec<Vec<u8>>)
    ensures
        c.deep_view() == m.deep_view(),
{
    let mut c: Vec<Vec<u8>> = Vec::new();
    let mut r: usize = 0;
    while r < m.len()
        invariant
            r <= m.len(),
            c.len() == r,
            forall|i: int| 0 <= i < r ==> #[trigger] c.deep_view()[i] == m.deep_view()[i],
        decreases m.len() - r,
    {
        let n = m[r].len();
        let mut row: Vec<u8> = Vec::new();
        let mut k: usize = 0;
        while k < n
            invariant
                r < m.len(),
                n == m[r as int].len(),
                k <= n,
                row@ == m[r as int]@.subrange(0, k as int),
            decreases n - k,
        {
            row.push(m[r][k]);
            k += 1;
            proof {
                assert(row@ =~= m[r as int]@.subrange(0, k as int));
            }
        }
        let ghost old_c = c.deep_view();
        proof {
            assert(row@ =~= m[r as int]@);
            assert(row.deep_view() =~= m.deep_view()[r as int]);
        }
        c.push(row);
        proof {
            assert forall|i: int| 0 <= i < r + 1 implies #[trigger] c.deep_view()[i]
                == m.deep_view()[i] by {
                if i < r {
                    assert(c.deep_view()[i] == old_c[i]);
                }
            }
        }
        r += 1;
    }
    proof {
        assert(c.deep_view() =~= m.deep_view());
    }
    c
}

impl LevelDefinition {
    /// A copy of this level, as the current-level record keeps it.
    pub fn duplicate(&self) -> (d: LevelDefinition)
        ensures
            same_level(d, *self),
    {
        LevelDefinition {
            number: self.number,
            matrix: copy_matrix(&self.matrix),
            description: copy_text(&self.description),
            author: copy_text(&self.author),
        }
    }
}

/// What the end of the advance delay spawns, before any brick: a shrunken
/// paddle that grows and a frozen ball, at the pending level's first paddle
/// and ball cells (the render layer uses the field's centre where the level
/// has none); the pending level becomes the current level.
#[derive(Debug, Clone)]
pub struct GrowthSpawn {
    pub paddle: Option<(usize, usize)>,
    pub ball: Option<(usize, usize)>,
    pub current_level: CurrentLevel,
}

pub open spec fn spec_delay_pending(s: LevelAdvanceState) -> bool {
    s.active && s.pending.is_some() && !s.growth_spawned
}

/// Ends the advance delay once its timer has finished: while the delay runs
/// (a transition is active, a level is pending and the growth stage has not
/// started), a finished timer gives the paddle and ball cells of the pending
/// level and the level to make current, and the growth stage starts; the
/// bricks are not part of this step. Otherwise nothing happens.
pub fn end_advance_delay(state: &mut LevelAdvanceState, delay_finished: bool) -> (r: Option<
    GrowthSpawn,
>)
    ensures
        !(spec_delay_pending(*old(state)) && delay_finished) ==> r is None && *final(state)
            == *old(state),
        spec_delay_pending(*old(state)) && delay_finished ==> (r matches Some(g) && {
            let def = old(state).pending->0;
            &&& first_cell_matches(def.matrix.deep_view(), 2, g.paddle)
            &&& first_cell_matches(def.matrix.deep_view(), 1, g.ball)
            &&& same_level(g.current_level.0, def)
            &&& *final(state) == (LevelAdvanceState { growth_spawned: true, ..*old(state) })
        }),
{
    if !advance_delay_pending(state) || !delay_finished {
        return None;
    }
    let spawn = match &state.pending {
        Some(def) => {
            let plan = plan_level_spawns(&def.matrix);
            GrowthSpawn { paddle: plan.paddle, ball: plan.ball, current_level: CurrentLevel(def.duplicate()) }
        },
        None => {
            return None;
        },
    };
    mark_growth_spawned(state);
    Some(spawn)
}

/// The bricks that spawn once the paddle has grown: at the finalize step that
/// unfreezes the ball, every brick of the pending level (in row-major order);
/// at every other step, none.
pub fn bricks_after_growth(state: &LevelAdvanceState, action: FinalizeAction) -> (bricks: Vec<
    BrickSpawn,
>)
    ensures
        action == FinalizeAction::Unfreeze && state.pending is Some ==> bricks_listed(
            state.pending->0.matrix.deep_view(),
            bricks@,
        ),
        !(action == FinalizeAction::Unfreeze && state.pending is Some) ==> bricks@.len() == 0,
{
    match action {
        FinalizeAction::Unfreeze => match &state.pending {
            Some(def) => plan_level_spawns(&def.matrix).bricks,
            None => Vec::new(),
        },
        _ => Vec::new(),
    }
}

/// One step of finishing a level transition.
#[derive(Debug, Clone, Copy, PartialEq, Eq, Structural)]
pub enum FinalizeAction {
    /// Not ready yet: nothing to do this frame.
    Wait,
    /// The paddle has grown: spawn the pending level's bricks (see
    /// `bricks_after_growth`) and remove the ball's freeze marker; gravity
    /// follows next frame.
    Unfreeze,
    /// Let the ball go: remove its velocity override, nudge it, enable gravity.
    Activate,
}

pub open spec fn spec_finalize(s: LevelAdvanceState, paddles_growing: bool, ball_count: nat) -> (
    LevelAdvanceState,
    FinalizeAction,
) {
    if !s.active || !s.growth_spawned || s.pending.is_none() || paddles_growing || ball_count == 0 {
        (s, FinalizeAction::Wait)
    } else if !s.unfreezing {
        (LevelAdvanceState { unfreezing: true, ..s }, FinalizeAction::Unfreeze)
    } else {
        (
            LevelAdvanceState { active: false, growth_spawned: false, pending: None, unfreezing: false },
            FinalizeAction::Activate,
        )
    }
}

/// Finishes a level transition once the paddle has grown and the ball exists,
/// in two frames: first unfreeze the ball, then activate it and reset the state.
pub fn finalize_level_advance(
    state: &mut LevelAdvanceState,
    paddles_growing: bool,
    ball_count: usize,
) -> (action: FinalizeAction)
    ensures
        (*final(state), action) == spec_finalize(*old(state), paddles_growing, ball_count as nat),
{
    if !state.active || !state.growth_spawned || state.pending.is_none() || paddles_growing
        || ball_count == 0 {
        return FinalizeAction::Wait;
    }
    if !state.unfreezing {
        state.unfreezing = true;
        return FinalizeAction::Unfreeze;
    }
    state.pending = None;
    state.active = false;
    state.growth_spawned = false;
    state.unfreezing = false;
    FinalizeAction::Activate
}

/// Whether to put up the fade overlay: a transition with a pending level is
/// running and no overlay exists yet.
pub fn needs_fade_overlay(state: &LevelAdvanceState, overlay_exists: bool) -> (r: bool)
    ensures
        r == (state.active && state.pending.is_some() && !overlay_exists),
{
    state.active && state.pending.is_some() && !overlay_exists
}

/// How the fade overlay of a level transition is updated this frame.
#[derive(Debug, Clone, Copy, PartialEq, Eq, Structural)]
pub enum FadeOverlayUpdate {
    /// No transition, or the growth finished: remove the overlay.
    Despawn,
    /// During the delay: darken with the delay timer's progress.
    Darken,
    /// During the paddle growth: lighten with the growth timer's progress.
    Lighten,
}

/// Chooses the fade-overlay update from the transition state.
pub fn fade_overlay_update(state: &LevelAdvanceState, paddle_growing: bool) -> (u: FadeOverlayUpdate)
    ensures
        u == (if !state.active {
            FadeOverlayUpdate::Despawn
        } else if !state.growth_spawned {
            FadeOverlayUpdate::Darken
        } else if paddle_growing {
            FadeOverlayUpdate::Lighten
        } else {
            FadeOverlayUpdate::Despawn
        }),
{
    if !state.active {
        FadeOverlayUpdate::Despawn
    } else if !state.growth_spawned {
        FadeOverlayUpdate::Darken
    } else if paddle_growing {
        FadeOverlayUpdate::Lighten
    } else {
        FadeOverlayUpdate::Despawn
    }
}

/// Clears progress and transition state before a level is loaded directly
/// (restart or level switch). The unfreeze flag is left as it was.
pub fn reset_level_state(progress: &mut GameProgress, state: &mut LevelAdvanceState)
    ensures
        !final(progress).finished,
        !final(state).active,
        final(state).pending is None,
        !final(state).growth_spawned,
        final(state).unfreezing == old(state).unfreezing,
{
    progress.finished = false;
    state.active = false;
    state.pending = None;
    state.growth_spawned = false;
}

/// The level a restart reloads: the current level, or level 1 when none is loaded.
pub fn restart_level_number(current: Option<u32>) -> (n: u32)
    ensures
        n == (match current {
            Some(c) => c,
            None => 1,
        }),
{
    match current {
        Some(c) => c,
        None => 1,
    }
}

/// Every operation of the level-advance machine keeps it well formed, and a
/// started advance goes through the growth stage and two finalize frames back
/// to idle, with nothing pending.
pub proof fn level_advance_cycle(s0: LevelAdvanceState, def: LevelDefinition)
    requires
        s0.wf(),
        !s0.active,
        !s0.unfreezing,
    ensures
        ({
            let s1 = begin_advance(s0, def);
            let s2 = LevelAdvanceState { growth_spawned: true, ..s1 };
            let (s3, a3) = spec_finalize(s2, false, 1);
            let (s4, a4) = spec_finalize(s3, false, 1);
            &&& s1.wf() && s2.wf() && s3.wf() && s4.wf()
            &&& s1.pending == Some(def)
            &&& a3 == FinalizeAction::Unfreeze
            &&& a4 == FinalizeAction::Activate
            &&& !s4.active && s4.pending is None && !s4.growth_spawned && !s4.unfreezing
        }),
{
}

/// Finalizing never breaks well-formedness, whatever the inputs.
pub proof fn finalize_preserves_wf(s: LevelAdvanceState, paddles_growing: bool, ball_count: nat)
    requires
        s.wf(),
    ensures
        spec_finalize(s, paddles_growing, ball_count).0.wf(),
{
}

/// Path of the file of level `n`: `assets/levels/level_NNN.ron`, the number
/// zero-padded to three digits.
pub open spec fn spec_level_file_path(n: nat) -> Seq<char> {
    "assets/levels/level_"@ + decimal_pad3(n) + ".ron"@
}

/// Builds the path of the file of level `number`.
pub fn level_file_path(number: u32) -> (p: String)
    ensures
        p@ == spec_level_file_path(number as nat),
{
    let mut p = String::from_str("assets/levels/level_");
    push_decimal_pad3(&mut p, number);
    p.append(".ron");
    p
}

/// The level file loaded at start-up: the path given by `BK_LEVEL_PATH`
/// when set; else the file of the level number given by `BK_LEVEL` (blanks
/// around it ignored) when that is a number; else level 1.
pub open spec fn spec_initial_level_path(
    level_path_var: Option<Seq<char>>,
    level_var: Option<Seq<char>>,
) -> Seq<char> {
    match level_path_var {
        Some(p) => p,
        None => match level_var {
            Some(v) => match spec_parse_u32(spec_trim(v)) {
                Some(n) => spec_level_file_path(n as nat),
                None => spec_level_file_path(1),
            },
            None => spec_level_file_path(1),
        },
    }
}

/// Chooses the level file loaded at start-up from the values of the
/// `BK_LEVEL_PATH` and `BK_LEVEL` environment variables.
pub fn initial_level_path(level_path_var: Option<String>, level_var: Option<String>) -> (p: String)
    ensures
        p@ == spec_initial_level_path(
            match level_path_var {
                Some(s) => Some(s@),
                None => None,
            },
            match level_var {
                Some(s) => Some(s@),
                None => None,
            },
        ),
{
    match level_path_var {
        Some(path) => path,
        None => match level_var {
            Some(v) => match parse_u32(trim(v.as_str())) {
                Some(n) => level_file_path(n),
                None => level_file_path(1),
            },
            None => level_file_path(1),
        },
    }
}

/// Restarting the level puts the lives back to 3 (whether the last life was
/// reached is left as it is) and gives the file of the level to reload: the
/// current level, or level 1 when none is loaded.
pub fn restart_current_level(lives: &mut crate::systems::respawn::LivesState, current_level: Option<u32>) -> (path: String)
    ensures
        final(lives).lives_remaining == 3,
        final(lives).on_last_life == old(lives).on_last_life,
        path@ == spec_level_file_path(
            match current_level {
                Some(n) => n as nat,
                None => 1,
            },
        ),
{
    lives.lives_remaining = 3;
    level_file_path(restart_level_number(current_level))
}

} // verus!
