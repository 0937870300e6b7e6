//! The curve evaluator: maps a sampled temperature to a target fan boost
//! through an ordered list of breakpoints, either by truncating linear
//! interpolation or as a staircase function.
//!
//! All arithmetic is integer arithmetic in the "subtract, multiply, then
//! integer-divide" order; the truncation this produces is the
//! hardware-observed quantization and is deliberately kept.

use vstd::prelude::*;

verus! {

use vstd::arithmetic::div_mod::{lemma_div_is_ordered, lemma_div_multiples_vanish, lemma_div_pos_is_pos};
use vstd::arithmetic::mul::{lemma_mul_inequality, lemma_mul_nonnegative};
use crate::config::GraphType;

/// One breakpoint of a fan curve: at `temp` degrees the fan is commanded
/// the boost value `fan_boost` (a 0-255 command value, not an RPM).
#[derive(Clone, Copy, PartialEq, Eq, Structural, Debug)]
pub struct CoOrdinates {
    pub temp: u8,
    pub fan_boost: u8,
}

/// A usable curve has at least one breakpoint and strictly ascending
/// breakpoint temperatures (which rules out division by zero when
/// interpolating between neighbours).
pub open spec fn curve_wf(g: Seq<CoOrdinates>) -> bool {
    &&& g.len() >= 1
    &&& forall|i: int| 0 <= i < g.len() - 1 ==> (#[trigger] g[i].temp) < g[i + 1].temp
}

/// The boost values of the curve never decrease from one breakpoint to the
/// next.
pub open spec fn boosts_nondecreasing(g: Seq<CoOrdinates>) -> bool {
    forall|i: int| 0 <= i < g.len() - 1 ==> (#[trigger] g[i].fan_boost) <= g[i + 1].fan_boost
}

/// Truncating linear interpolation between the breakpoints `a` and `b` at
/// temperature `t`: `a.fan_boost + (t - a.temp) * (b.fan_boost - a.fan_boost)
/// / (b.temp - a.temp)`, with the division truncating toward zero. The two
/// branches keep every intermediate value nonnegative, where truncating and
/// Euclidean division agree.
pub open spec fn interp(a: CoOrdinates, b: CoOrdinates, t: u8) -> int {
    if a.fan_boost <= b.fan_boost {
        a.fan_boost + (t - a.temp) * (b.fan_boost - a.fan_boost) / (b.temp - a.temp)
    } else {
        a.fan_boost - (t - a.temp) * (a.fan_boost - b.fan_boost) / (b.temp - a.temp)
    }
}

/// Linear evaluation of a curve: the interpolated value within the bracket
/// `g[0]..g[1]`, the first boost at or below the first breakpoint, and
/// otherwise the evaluation of the curve without its first breakpoint. A
/// temperature at or beyond the last breakpoint thus yields the last boost.
pub open spec fn linear_eval(g: Seq<CoOrdinates>, t: u8) -> int
    decreases g.len(),
{
    if g.len() <= 1 {
        g[0].fan_boost as int
    } else if t < g[1].temp {
        if t <= g[0].temp {
            g[0].fan_boost as int
        } else {
            interp(g[0], g[1], t)
        }
    } else {
        linear_eval(g.drop_first(), t)
    }
}

/// Step evaluation of a curve: the boost of the greatest breakpoint whose
/// temperature is at most `t`, and the first boost for any `t` below the
/// first breakpoint.
pub open spec fn step_eval(g: Seq<CoOrdinates>, t: u8) -> u8
    decreases g.len(),
{
    if g.len() <= 1 || t < g[1].temp {
        g[0].fan_boost
    } else {
        step_eval(g.drop_first(), t)
    }
}

/// What a curve evaluates to under a given interpolation policy.
pub open spec fn curve_eval(mode: GraphType, g: Seq<CoOrdinates>, t: u8) -> int {
    match mode {
        GraphType::Linear => linear_eval(g, t),
        GraphType::Step => step_eval(g, t) as int,
    }
}

/// The smallest boost value among the curve's breakpoints.
pub open spec fn min_boost(g: Seq<CoOrdinates>) -> int
    decreases g.len(),
{
    if g.len() <= 1 {
        g[0].fan_boost as int
    } else {
        let m = min_boost(g.drop_first());
        if g[0].fan_boost <= m {
            g[0].fan_boost as int
        } else {
            m
        }
    }
}

/// The largest boost value among the curve's breakpoints.
pub open spec fn max_boost(g: Seq<CoOrdinates>) -> int
    decreases g.len(),
{
    if g.len() <= 1 {
        g[0].fan_boost as int
    } else {
        let m = max_boost(g.drop_first());
        if g[0].fan_boost >= m {
            g[0].fan_boost as int
        } else {
            m
        }
    }
}

/// A curve's boost range stays within the 0-255 command range.
pub proof fn lemma_boost_range_u8(g: Seq<CoOrdinates>)
    requires
        g.len() >= 1,
    ensures
        0 <= min_boost(g),
        max_boost(g) <= 255,
    decreases g.len(),
{
    if g.len() > 1 {
        lemma_boost_range_u8(g.drop_first());
    }
}

/// In a well-formed curve the breakpoint temperatures ascend between any two
/// positions, not only between neighbours.
pub proof fn lemma_curve_ordered(g: Seq<CoOrdinates>, i: int, j: int)
    requires
        curve_wf(g),
        0 <= i < j < g.len(),
    ensures
        g[i].temp < g[j].temp,
    decreases j - i,
{
    if i + 1 < j {
        lemma_curve_ordered(g, i + 1, j);
    }
}

proof fn lemma_wf_drop_first(g: Seq<CoOrdinates>)
    requires
        curve_wf(g),
        g.len() > 1,
    ensures
        curve_wf(g.drop_first()),
{
    assert forall|i: int| 0 <= i < g.drop_first().len() - 1 implies (#[trigger] g.drop_first()[i].temp)
        < g.drop_first()[i + 1].temp by {
        assert(g.drop_first()[i] == g[i + 1]);
        assert(g.drop_first()[i + 1] == g[i + 2]);
    }
}

proof fn lemma_nondec_drop_first(g: Seq<CoOrdinates>)
    requires
        boosts_nondecreasing(g),
        g.len() > 1,
    ensures
        boosts_nondecreasing(g.drop_first()),
{
    assert forall|i: int| 0 <= i < g.drop_first().len() - 1 implies (
    #[trigger] g.drop_first()[i].fan_boost) <= g.drop_first()[i + 1].fan_boost by {
        assert(g.drop_first()[i] == g[i + 1]);
        assert(g.drop_first()[i + 1] == g[i + 2]);
    }
}

/// Interpolation between two breakpoints stays between their two boost
/// values.
pub proof fn lemma_interp_bounds(a: CoOrdinates, b: CoOrdinates, t: u8)
    requires
        a.temp < b.temp,
        a.temp <= t < b.temp,
    ensures
        a.fan_boost <= b.fan_boost ==> a.fan_boost <= interp(a, b, t) <= b.fan_boost,
        a.fan_boost > b.fan_boost ==> b.fan_boost <= interp(a, b, t) <= a.fan_boost,
{
    let dt = t - a.temp;
    let dcap = b.temp - a.temp;
    if a.fan_boost <= b.fan_boost {
        let ds = b.fan_boost - a.fan_boost;
        lemma_mul_nonnegative(dt, ds);
        lemma_div_pos_is_pos(dt * ds, dcap);
        lemma_mul_inequality(dt, dcap, ds);
        lemma_div_is_ordered(dt * ds, dcap * ds, dcap);
        lemma_div_multiples_vanish(ds, dcap);
    } else {
        let ds = a.fan_boost - b.fan_boost;
        lemma_mul_nonnegative(dt, ds);
        lemma_div_pos_is_pos(dt * ds, dcap);
        lemma_mul_inequality(dt, dcap, ds);
        lemma_div_is_ordered(dt * ds, dcap * ds, dcap);
        lemma_div_multiples_vanish(ds, dcap);
    }
}

/// The first breakpoint's boost lies within the curve's boost range.
proof fn lemma_first_in_range(g: Seq<CoOrdinates>)
    requires
        g.len() >= 1,
    ensures
        min_boost(g) <= g[0].fan_boost <= max_boost(g),
{
}

/// Linear evaluation never leaves the curve's boost range.
pub proof fn lemma_linear_eval_in_range(g: Seq<CoOrdinates>, t: u8)
    requires
        curve_wf(g),
    ensures
        min_boost(g) <= linear_eval(g, t) <= max_boost(g),
    decreases g.len(),
{
    if g.len() <= 1 {
    } else {
        lemma_wf_drop_first(g);
        assert(g.drop_first()[0] == g[1]);
        if t < g[1].temp {
            if t <= g[0].temp {
            } else {
                lemma_interp_bounds(g[0], g[1], t);
                lemma_first_in_range(g.drop_first());
            }
        } else {
            lemma_linear_eval_in_range(g.drop_first(), t);
        }
    }
}

/// Step evaluation never leaves the curve's boost range.
pub proof fn lemma_step_eval_in_range(g: Seq<CoOrdinates>, t: u8)
    requires
        curve_wf(g),
    ensures
        min_boost(g) <= step_eval(g, t) <= max_boost(g),
    decreases g.len(),
{
    if g.len() <= 1 || t < g[1].temp {
    } else {
        lemma_wf_drop_first(g);
        lemma_step_eval_in_range(g.drop_first(), t);
    }
}

/// For every valid curve and either policy, evaluation never returns a value
/// outside the curve's boost range.
pub proof fn lemma_evaluate_in_range(mode: GraphType, g: Seq<CoOrdinates>, t: u8)
    requires
        curve_wf(g),
    ensures
        min_boost(g) <= curve_eval(mode, g, t) <= max_boost(g),
{
    match mode {
        GraphType::Linear => lemma_linear_eval_in_range(g, t),
        GraphType::Step => lemma_step_eval_in_range(g, t),
    }
}

/// At a breakpoint's exact temperature, linear evaluation returns that
/// breakpoint's boost exactly.
pub proof fn lemma_linear_eval_at_breakpoint(g: Seq<CoOrdinates>, i: int)
    requires
        curve_wf(g),
        0 <= i < g.len(),
    ensures
        linear_eval(g, g[i].temp) == g[i].fan_boost,
    decreases g.len(),
{
    if g.len() <= 1 {
    } else {
        lemma_wf_drop_first(g);
        if i == 0 {
            assert(g[0].temp < g[1].temp);
        } else {
            if i > 1 {
                lemma_curve_ordered(g, 1, i);
            }
            assert(g.drop_first()[i - 1] == g[i]);
            lemma_linear_eval_at_breakpoint(g.drop_first(), i - 1);
        }
    }
}

/// With a nondecreasing curve, linear evaluation is at least the first
/// breakpoint's boost.
proof fn lemma_linear_eval_ge_first(g: Seq<CoOrdinates>, t: u8)
    requires
        curve_wf(g),
        boosts_nondecreasing(g),
    ensures
        linear_eval(g, t) >= g[0].fan_boost,
    decreases g.len(),
{
    if g.len() <= 1 {
    } else {
        if t < g[1].temp {
            if t <= g[0].temp {
            } else {
                lemma_interp_bounds(g[0], g[1], t);
            }
        } else {
            lemma_wf_drop_first(g);
            lemma_nondec_drop_first(g);
            assert(g.drop_first()[0] == g[1]);
            lemma_linear_eval_ge_first(g.drop_first(), t);
        }
    }
}

/// Within one bracket, truncating interpolation is monotonic in the
/// temperature when the bracket's boosts are ordered.
proof fn lemma_interp_monotonic(a: CoOrdinates, b: CoOrdinates, t1: u8, t2: u8)
    requires
        a.temp < b.temp,
        a.fan_boost <= b.fan_boost,
        a.temp <= t1 <= t2 < b.temp,
    ensures
        interp(a, b, t1) <= interp(a, b, t2),
{
    let ds = b.fan_boost - a.fan_boost;
    lemma_mul_inequality(t1 - a.temp, t2 - a.temp, ds);
    lemma_div_is_ordered((t1 - a.temp) * ds, (t2 - a.temp) * ds, b.temp - a.temp);
}

/// Whenever the curve's boosts are monotonic nondecreasing, linear
/// evaluation is monotonic nondecreasing in the temperature.
pub proof fn lemma_linear_eval_monotonic(g: Seq<CoOrdinates>, t1: u8, t2: u8)
    requires
        curve_wf(g),
        boosts_nondecreasing(g),
        t1 <= t2,
    ensures
        linear_eval(g, t1) <= linear_eval(g, t2),
    decreases g.len(),
{
    if g.len() <= 1 {
    } else {
        lemma_wf_drop_first(g);
        lemma_nondec_drop_first(g);
        assert(g.drop_first()[0] == g[1]);
        if t2 < g[1].temp {
            if t1 <= g[0].temp {
                if t2 > g[0].temp {
                    lemma_interp_bounds(g[0], g[1], t2);
                }
            } else {
                lemma_interp_monotonic(g[0], g[1], t1, t2);
            }
        } else if t1 < g[1].temp {
            if t1 > g[0].temp {
                lemma_interp_bounds(g[0], g[1], t1);
            }
            lemma_linear_eval_ge_first(g.drop_first(), t2);
        } else {
            lemma_linear_eval_monotonic(g.drop_first(), t1, t2);
        }
    }
}

/// Step evaluation returns the boost of the greatest breakpoint whose
/// temperature is at most `t`: the breakpoint at `i` is that breakpoint
/// exactly when the next one (if any) is already beyond `t`.
pub proof fn lemma_step_eval_greatest(g: Seq<CoOrdinates>, t: u8, i: int)
    requires
        curve_wf(g),
        0 <= i < g.len(),
        g[i].temp <= t,
        i == g.len() - 1 || t < g[i + 1].temp,
    ensures
        step_eval(g, t) == g[i].fan_boost,
    decreases g.len(),
{
    if i == 0 {
    } else {
        lemma_wf_drop_first(g);
        if i > 1 {
            lemma_curve_ordered(g, 1, i);
        }
        assert(g[1].temp <= t);
        assert(g.drop_first()[i - 1] == g[i]);
        if i < g.len() - 1 {
            assert(g.drop_first()[i] == g[i + 1]);
        }
        lemma_step_eval_greatest(g.drop_first(), t, i - 1);
    }
}

/// For any temperature below the first breakpoint, step evaluation returns
/// the first breakpoint's boost.
pub proof fn lemma_step_eval_below_first(g: Seq<CoOrdinates>, t: u8)
    requires
        curve_wf(g),
        t < g[0].temp,
    ensures
        step_eval(g, t) == g[0].fan_boost,
{
}

fn interp_exec(a: CoOrdinates, b: CoOrdinates, temp: u8) -> (r: u8)
    requires
        a.temp < b.temp,
        a.temp <= temp < b.temp,
    ensures
        r == interp(a, b, temp),
{
    proof {
        lemma_interp_bounds(a, b, temp);
    }
    let dt = (temp - a.temp) as u32;
    let dcap = (b.temp - a.temp) as u32;
    if a.fan_boost <= b.fan_boost {
        let ds = (b.fan_boost - a.fan_boost) as u32;
        proof {
            assert((dt as int) * (ds as int) <= 65025) by (nonlinear_arith)
                requires
                    dt <= 255,
                    ds <= 255,
            ;
        }
        let q = dt * ds / dcap;
        (a.fan_boost as u32 + q) as u8
    } else {
        let ds = (a.fan_boost - b.fan_boost) as u32;
        proof {
            assert((dt as int) * (ds as int) <= 65025) by (nonlinear_arith)
                requires
                    dt <= 255,
                    ds <= 255,
            ;
        }
        let q = dt * ds / dcap;
        (a.fan_boost as u32 - q) as u8
    }
}

/// Linear curve evaluation: finds the bracketing pair of breakpoints and
/// interpolates between them with truncating integer arithmetic; at or
/// beyond the last breakpoint it returns the last boost, and below the
/// first breakpoint the first boost.
pub fn get_boost_from_temp_linear(temp: u8, coords: &Vec<CoOrdinates>) -> (boost: u8)
    requires
        curve_wf(coords@),
    ensures
        boost == linear_eval(coords@, temp),
{
    let n = coords.len();
    let mut i: usize = 0;
    proof {
        assert(coords@.skip(0) =~= coords@);
    }
    while i + 1 < n && coords[i + 1].temp <= temp
        invariant
            n == coords@.len(),
            curve_wf(coords@),
            i < n,
            linear_eval(coords@, temp) == linear_eval(coords@.skip(i as int), temp),
        decreases n - i,
    {
        proof {
            let gi = coords@.skip(i as int);
            assert(gi[1] == coords@[i as int + 1]);
            assert(gi.drop_first() =~= coords@.skip(i as int + 1));
        }
        i = i + 1;
    }
    proof {
        assert(coords@.skip(i as int)[0] == coords@[i as int]);
    }
    if i + 1 >= n {
        coords[i].fan_boost
    } else {
        proof {
            assert(coords@.skip(i as int)[1] == coords@[i as int + 1]);
        }
        let a = coords[i];
        let b = coords[i + 1];
        if temp <= a.temp {
            a.fan_boost
        } else {
            interp_exec(a, b, temp)
        }
    }
}

/// Step curve evaluation: the boost of the greatest breakpoint whose
/// temperature is at most the sampled temperature, unmodified.
pub fn get_boost_from_temp_step(temp: u8, coords: &Vec<CoOrdinates>) -> (boost: u8)
    requires
        curve_wf(coords@),
    ensures
        boost == step_eval(coords@, temp),
{
    let n = coords.len();
    let mut i: usize = 0;
    proof {
        assert(coords@.skip(0) =~= coords@);
    }
    while i + 1 < n && coords[i + 1].temp <= temp
        invariant
            n == coords@.len(),
            curve_wf(coords@),
            i < n,
            step_eval(coords@, temp) == step_eval(coords@.skip(i as int), temp),
        decreases n - i,
    {
        proof {
            let gi = coords@.skip(i as int);
            assert(gi.len() > 1);
            assert(gi[1] == coords@[i as int + 1]);
            assert(step_eval(gi, temp) == step_eval(gi.drop_first(), temp));
            assert(gi.drop_first() =~= coords@.skip(i as int + 1));
        }
        i = i + 1;
    }
    proof {
        assert(coords@.skip(i as int)[0] == coords@[i as int]);
        if i + 1 < n {
            assert(coords@.skip(i as int)[1] == coords@[i as int + 1]);
        }
    }
    coords[i].fan_boost
}

/// Evaluates a curve under the zone's interpolation policy.
pub fn evaluate(mode: GraphType, coords: &Vec<CoOrdinates>, temp: u8) -> (boost: u8)
    requires
        curve_wf(coords@),
    ensures
        boost == curve_eval(mode, coords@, temp),
{
    match mode {
        GraphType::Linear => get_boost_from_temp_linear(temp, coords),
        GraphType::Step => get_boost_from_temp_step(temp, coords),
    }
}

} // verus!
