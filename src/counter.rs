use vstd::prelude::*;

use crate::geometry::{lemma_move_length_same_point, move_length, move_length_exec, SUBPIXELS_PER_PIXEL};

verus! {

/// Pixels of cursor travel that make one step.
pub const PIXELS_PER_STEP: u64 = 100;

/// Sub-pixel units of cursor travel that make one step.
pub const SUBPIXELS_PER_STEP: u64 = PIXELS_PER_STEP * SUBPIXELS_PER_PIXEL;

/// The abstract state of a step counter.
pub ghost struct CounterModel {
    /// Distance travelled since the last reset, in sub-pixel units.
    pub total: nat,
    pub steps: nat,
    pub last_x: int,
    pub last_y: int,
    /// Whether a position has been recorded since the last reset.
    pub initialized: bool,
    /// Whether the latest attempt to read the cursor was refused.
    pub permission_error: bool,
}

impl CounterModel {
    /// The step count is the number of whole steps in the distance travelled.
    pub open spec fn wf(self) -> bool {
        self.steps == self.total / (SUBPIXELS_PER_STEP as nat)
    }
}

/// The state of a fresh counter.
pub open spec fn initial_model() -> CounterModel {
    CounterModel {
        total: 0,
        steps: 0,
        last_x: 0,
        last_y: 0,
        initialized: false,
        permission_error: false,
    }
}

/// A distance total, held at the largest value that the counter can store.
pub open spec fn capped(t: nat) -> nat {
    if t > u64::MAX {
        u64::MAX as nat
    } else {
        t
    }
}

/// The state after the cursor is seen at `(x, y)`: the first position seeds the
/// counter, a move of length zero changes nothing, any other move adds its length
/// to the distance and recomputes the steps.
pub open spec fn updated(m: CounterModel, x: int, y: int) -> CounterModel {
    if !m.initialized {
        CounterModel { last_x: x, last_y: y, initialized: true, ..m }
    } else {
        let d = move_length(m.last_x, m.last_y, x, y);
        if d == 0 {
            m
        } else {
            let t = capped(m.total + d);
            CounterModel {
                total: t,
                steps: t / (SUBPIXELS_PER_STEP as nat),
                last_x: x,
                last_y: y,
                ..m
            }
        }
    }
}

/// The state after a reset: distance and steps are zero and the next position seeds.
pub open spec fn reset_model(m: CounterModel) -> CounterModel {
    CounterModel { total: 0, steps: 0, initialized: false, ..m }
}

/// The state after the cursor is seen at each position of `moves` in turn.
pub open spec fn after_moves(m: CounterModel, moves: Seq<(int, int)>) -> CounterModel
    decreases moves.len(),
{
    if moves.len() == 0 {
        m
    } else {
        after_moves(updated(m, moves[0].0, moves[0].1), moves.drop_first())
    }
}

/// Accumulates the distance that the cursor travels and derives a step count.
#[derive(Clone, Copy, Debug, PartialEq, Eq, Structural)]
pub struct StepCounter {
    total_distance: u64,
    steps: u64,
    last_x: i32,
    last_y: i32,
    initialized: bool,
    permission_error: bool,
}

impl View for StepCounter {
    type V = CounterModel;

    closed spec fn view(&self) -> CounterModel {
        CounterModel {
            total: self.total_distance as nat,
            steps: self.steps as nat,
            last_x: self.last_x as int,
            last_y: self.last_y as int,
            initialized: self.initialized,
            permission_error: self.permission_error,
        }
    }
}

impl StepCounter {
    /// A counter with nothing travelled and no position recorded.
    pub fn new() -> (r: Self)
        ensures
            r@ == initial_model(),
    {
        StepCounter {
            total_distance: 0,
            steps: 0,
            last_x: 0,
            last_y: 0,
            initialized: false,
            permission_error: false,
        }
    }

    /// Records the cursor at `(x, y)`.
    pub fn update(&mut self, x: i32, y: i32)
        ensures
            final(self)@ == updated(old(self)@, x as int, y as int),
    {
        if !self.initialized {
            self.last_x = x;
            self.last_y = y;
            self.initialized = true;
            return;
        }
        let d: u64 = move_length_exec(self.last_x, self.last_y, x, y);
        if d > 0 {
            let t: u64 = if self.total_distance > u64::MAX - d {
                u64::MAX
            } else {
                self.total_distance + d
            };
            self.total_distance = t;
            self.steps = t / SUBPIXELS_PER_STEP;
            self.last_x = x;
            self.last_y = y;
        }
    }

    /// Clears the distance and the steps; the next position seeds the counter again.
    pub fn reset(&mut self)
        ensures
            final(self)@ == reset_model(old(self)@),
    {
        self.total_distance = 0;
        self.steps = 0;
        self.initialized = false;
    }

    /// The number of whole steps travelled since the last reset.
    pub fn current_steps(&self) -> (r: u64)
        ensures
            r as nat == self@.steps,
    {
        self.steps
    }

    /// The distance travelled since the last reset, in sub-pixel units.
    pub fn total_distance(&self) -> (r: u64)
        ensures
            r as nat == self@.total,
    {
        self.total_distance
    }

    /// The last position recorded, if any was since the last reset.
    pub fn last_position(&self) -> (r: Option<(i32, i32)>)
        ensures
            r == (if self@.initialized {
                Some((self@.last_x as i32, self@.last_y as i32))
            } else {
                None::<(i32, i32)>
            }),
    {
        if self.initialized {
            Some((self.last_x, self.last_y))
        } else {
            None
        }
    }

    /// Whether the latest attempt to read the cursor was refused.
    pub fn permission_error(&self) -> (r: bool)
        ensures
            r == self@.permission_error,
    {
        self.permission_error
    }

    /// Records whether the latest attempt to read the cursor was refused.
    pub fn set_permission_error(&mut self, refused: bool)
        ensures
            final(self)@ == (CounterModel { permission_error: refused, ..old(self)@ }),
    {
        self.permission_error = refused;
    }
}

impl Default for StepCounter {
    fn default() -> (r: Self)
        ensures
            r@ == initial_model(),
    {
        StepCounter::new()
    }
}

/// One update keeps the step count equal to the whole steps in the distance.
pub proof fn lemma_update_keeps_steps(m: CounterModel, x: int, y: int)
    requires
        m.wf(),
    ensures
        updated(m, x, y).wf(),
{
}

/// After a reset, every sequence of updates keeps the step count equal to the
/// whole steps in the distance.
pub proof fn lemma_steps_follow_distance(m: CounterModel, moves: Seq<(int, int)>)
    ensures
        after_moves(reset_model(m), moves).wf(),
{
    lemma_moves_keep_steps(reset_model(m), moves);
}

/// Every sequence of updates from a consistent state keeps it consistent.
pub proof fn lemma_moves_keep_steps(m: CounterModel, moves: Seq<(int, int)>)
    requires
        m.wf(),
    ensures
        after_moves(m, moves).wf(),
    decreases moves.len(),
{
    if moves.len() > 0 {
        lemma_update_keeps_steps(m, moves[0].0, moves[0].1);
        lemma_moves_keep_steps(updated(m, moves[0].0, moves[0].1), moves.drop_first());
    }
}

/// The first update after creation or reset only records the position: the
/// distance and the steps stay as they are, whatever the coordinates.
pub proof fn lemma_first_update_seeds(m: CounterModel, x: int, y: int)
    ensures
        updated(reset_model(m), x, y).total == 0,
        updated(reset_model(m), x, y).steps == 0,
        updated(initial_model(), x, y).total == 0,
        updated(initial_model(), x, y).steps == 0,
        !m.initialized ==> updated(m, x, y).total == m.total && updated(m, x, y).steps == m.steps,
{
}

/// Seeing the cursor at the same position twice in a row changes nothing the
/// second time.
pub proof fn lemma_repeat_update_noop(m: CounterModel, x: int, y: int)
    ensures
        updated(updated(m, x, y), x, y) == updated(m, x, y),
{
    lemma_move_length_same_point(x, y);
}

/// Resetting twice gives the same state as resetting once.
pub proof fn lemma_reset_idempotent(m: CounterModel)
    ensures
        reset_model(reset_model(m)) == reset_model(m),
{
}

/// One update from a consistent state never lowers the distance or the steps.
pub proof fn lemma_update_monotone(m: CounterModel, x: int, y: int)
    requires
        m.wf(),
        m.total <= u64::MAX,
    ensures
        updated(m, x, y).total >= m.total,
        updated(m, x, y).steps >= m.steps,
{
    let n = updated(m, x, y);
    if n.total != m.total {
        vstd::arithmetic::div_mod::lemma_div_is_ordered(
            m.total as int,
            n.total as int,
            SUBPIXELS_PER_STEP as int,
        );
    }
}

/// Between resets, the distance and the steps never decrease.
pub proof fn lemma_moves_monotone(m: CounterModel, moves: Seq<(int, int)>)
    requires
        m.wf(),
        m.total <= u64::MAX,
    ensures
        after_moves(m, moves).total >= m.total,
        after_moves(m, moves).steps >= m.steps,
    decreases moves.len(),
{
    if moves.len() > 0 {
        let n = updated(m, moves[0].0, moves[0].1);
        lemma_update_monotone(m, moves[0].0, moves[0].1);
        lemma_update_keeps_steps(m, moves[0].0, moves[0].1);
        lemma_moves_monotone(n, moves.drop_first());
    }
}

} // verus!
