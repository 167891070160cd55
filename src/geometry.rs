use vstd::prelude::*;

verus! {

/// Sub-pixel units in one pixel: distances are kept in thousandths of a pixel.
pub const SUBPIXELS_PER_PIXEL: u64 = 1000;

/// Exclusive upper bound on the square roots that `floor_sqrt_exec` computes.
pub const SQRT_LIMIT: u128 = 0x800_0000_0000;

/// `r` is the integer square root of `n`, rounded down.
pub open spec fn is_floor_sqrt(n: nat, r: nat) -> bool {
    r * r <= n && n < (r + 1) * (r + 1)
}

/// The integer square root of `n`, rounded down.
pub open spec fn floor_sqrt(n: nat) -> nat {
    choose|r: nat| is_floor_sqrt(n, r)
}

/// The square of the Euclidean distance from `(x0, y0)` to `(x1, y1)`.
pub open spec fn squared_distance(x0: int, y0: int, x1: int, y1: int) -> nat {
    ((x1 - x0) * (x1 - x0) + (y1 - y0) * (y1 - y0)) as nat
}

/// The Euclidean distance from `(x0, y0)` to `(x1, y1)` in sub-pixel units,
/// rounded down.
pub open spec fn move_length(x0: int, y0: int, x1: int, y1: int) -> nat {
    floor_sqrt(
        squared_distance(x0, y0, x1, y1) * (SUBPIXELS_PER_PIXEL * SUBPIXELS_PER_PIXEL) as nat,
    )
}

proof fn lemma_square_monotone(a: nat, b: nat)
    requires
        a <= b,
    ensures
        a * a <= b * b,
{
    assert(a * a <= b * b) by (nonlinear_arith)
        requires
            a <= b,
    ;
}

/// The rounded-down square root is unique, so any witness is the one `floor_sqrt` picks.
pub proof fn lemma_floor_sqrt_unique(n: nat, r: nat)
    requires
        is_floor_sqrt(n, r),
    ensures
        floor_sqrt(n) == r,
{
    let s = floor_sqrt(n);
    assert(is_floor_sqrt(n, s));
    if s < r {
        lemma_square_monotone(s + 1, r);
    } else if r < s {
        lemma_square_monotone(r + 1, s);
    }
}

/// A point is at distance zero from itself.
pub proof fn lemma_move_length_same_point(x: int, y: int)
    ensures
        move_length(x, y, x, y) == 0,
{
    assert(squared_distance(x, y, x, y) == 0) by (nonlinear_arith);
    assert(0nat * (SUBPIXELS_PER_PIXEL * SUBPIXELS_PER_PIXEL) as nat == 0) by (nonlinear_arith);
    assert(is_floor_sqrt(0, 0)) by (nonlinear_arith);
    lemma_floor_sqrt_unique(0, 0);
}

/// Computes the integer square root of `n`, rounded down, by bisection.
pub fn floor_sqrt_exec(n: u128) -> (r: u128)
    requires
        n < SQRT_LIMIT * SQRT_LIMIT,
    ensures
        is_floor_sqrt(n as nat, r as nat),
        r < SQRT_LIMIT,
        r as nat == floor_sqrt(n as nat),
{
    let mut lo: u128 = 0;
    let mut hi: u128 = SQRT_LIMIT;
    while hi - lo > 1
        invariant
            lo < hi <= SQRT_LIMIT,
            lo * lo <= n,
            n < hi * hi,
        decreases hi - lo,
    {
        let mid: u128 = lo + (hi - lo) / 2;
        assert(mid * mid < SQRT_LIMIT * SQRT_LIMIT) by (nonlinear_arith)
            requires
                mid < SQRT_LIMIT,
        ;
        if mid * mid <= n {
            lo = mid;
        } else {
            hi = mid;
        }
    }
    assert(hi == lo + 1);
    proof {
        lemma_floor_sqrt_unique(n as nat, lo as nat);
    }
    lo
}

/// Computes the length of the move from `(x0, y0)` to `(x1, y1)` in sub-pixel
/// units, rounded down.
pub fn move_length_exec(x0: i32, y0: i32, x1: i32, y1: i32) -> (r: u64)
    ensures
        r as nat == move_length(x0 as int, y0 as int, x1 as int, y1 as int),
{
    let dx: i128 = x1 as i128 - x0 as i128;
    let dy: i128 = y1 as i128 - y0 as i128;
    assert(dx * dx <= 0x1_0000_0000 * 0x1_0000_0000) by (nonlinear_arith)
        requires
            -0x1_0000_0000 <= dx <= 0x1_0000_0000,
    ;
    assert(dy * dy <= 0x1_0000_0000 * 0x1_0000_0000) by (nonlinear_arith)
        requires
            -0x1_0000_0000 <= dy <= 0x1_0000_0000,
    ;
    assert(0 <= dx * dx && 0 <= dy * dy) by (nonlinear_arith);
    let sq: u128 = (dx * dx + dy * dy) as u128;
    let scale: u128 = (SUBPIXELS_PER_PIXEL as u128) * (SUBPIXELS_PER_PIXEL as u128);
    let scaled: u128 = sq * scale;
    let r: u128 = floor_sqrt_exec(scaled);
    r as u64
}

} // verus!
