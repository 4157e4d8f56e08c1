//! The decisions of the recursive color integrator.
//!
//! A ray is followed for at most `depth` bounces. While budget is left, the
//! scene is probed: a miss ends the path on the sky gradient, an absorbing
//! hit ends it in black, and a scattering hit multiplies the path by the
//! material's attenuation and goes on with one bounce less. A spent budget
//! ends the path in black without probing the scene at all.
use vstd::prelude::*;

verus! {

/// What the scene and the hit material did with one ray.
#[derive(Clone, Copy, Debug, PartialEq, Eq, Structural)]
pub enum Probe {
    /// No surface in range: the background shows.
    Miss,
    /// A surface was hit and its material absorbed the ray.
    Absorbed,
    /// A surface was hit and its material sent out a new ray.
    Scattered,
}

/// How a path ends.
#[derive(Clone, Copy, Debug, PartialEq, Eq, Structural)]
pub enum Ending {
    /// No light: the color is exactly `(0, 0, 0)`.
    Black,
    /// The background gradient, times the attenuations gathered so far.
    Sky,
}

/// What to do after one probe.
#[derive(Clone, Copy, Debug, PartialEq, Eq, Structural)]
pub enum Step {
    Stop(Ending),
    /// Follow the scattered ray with this budget.
    Bounce(i32),
}

pub open spec fn spent(depth: i32) -> bool {
    depth <= 0
}

pub open spec fn step_after(depth: i32, probe: Probe) -> Step
    recommends
        !spent(depth),
{
    match probe {
        Probe::Miss => Step::Stop(Ending::Sky),
        Probe::Absorbed => Step::Stop(Ending::Black),
        Probe::Scattered => Step::Bounce((depth - 1) as i32),
    }
}

/// How a path that starts with budget `depth` and meets `probes` in turn ends:
/// the number of attenuations it gathers and its ending, or `None` when
/// `probes` runs out before the path ends.
pub open spec fn path_end(depth: i32, probes: Seq<Probe>) -> Option<(nat, Ending)>
    decreases probes.len(),
{
    if spent(depth) {
        Some((0, Ending::Black))
    } else if probes.len() == 0 {
        None
    } else {
        match step_after(depth, probes[0]) {
            Step::Stop(e) => Some((0, e)),
            Step::Bounce(d) => match path_end(d, probes.drop_first()) {
                Some((n, e)) => Some((n + 1, e)),
                None => None,
            },
        }
    }
}

/// Whether the budget is spent, in which case the path ends in black and
/// the scene is not probed.
pub fn budget_spent(depth: i32) -> (r: bool)
    ensures
        r == spent(depth),
{
    depth <= 0
}

/// The step that follows a probe made with budget left.
pub fn next_step(depth: i32, probe: Probe) -> (r: Step)
    requires
        !spent(depth),
    ensures
        r == step_after(depth, probe),
{
    match probe {
        Probe::Miss => Step::Stop(Ending::Sky),
        Probe::Absorbed => Step::Stop(Ending::Black),
        Probe::Scattered => Step::Bounce(depth - 1),
    }
}

/// Follows a path through recorded probes; the bounce count and ending, or
/// `None` when the probes run out first.
pub fn replay(depth: i32, probes: &Vec<Probe>) -> (r: Option<(u32, Ending)>)
    ensures
        r matches Some((n, e)) ==> path_end(depth, probes@) == Some((n as nat, e)),
        r is None ==> path_end(depth, probes@) is None,
{
    let mut d: i32 = depth;
    let mut k: usize = 0;
    assert(probes@.skip(0) =~= probes@);
    while k < probes.len() && !budget_spent(d)
        invariant
            k <= probes@.len(),
            d as int == depth as int - k as int,
            k > 0 ==> d >= 0,
            path_end(depth, probes@) == match path_end(d, probes@.skip(k as int)) {
                Some((n, e)) => Some(((n + k) as nat, e)),
                None => None,
            },
        decreases probes@.len() - k,
    {
        assert(probes@.skip(k as int).drop_first() =~= probes@.skip(k as int + 1));
        match next_step(d, probes[k]) {
            Step::Stop(e) => {
                return Some((k as u32, e));
            },
            Step::Bounce(nd) => {
                d = nd;
                k = k + 1;
            },
        }
    }
    if budget_spent(d) {
        Some((k as u32, Ending::Black))
    } else {
        assert(probes@.skip(k as int).len() == 0);
        None
    }
}

/// A path whose budget is spent is black: no probe, no attenuation.
pub proof fn lemma_spent_budget_is_black(depth: i32, probes: Seq<Probe>)
    requires
        depth <= 0,
    ensures
        path_end(depth, probes) == Some((0nat, Ending::Black)),
{
}

/// A path gathers at most `depth` attenuations, and no more than it has probes.
pub proof fn lemma_bounces_within_budget(depth: i32, probes: Seq<Probe>)
    ensures
        path_end(depth, probes) matches Some((n, e)) ==> n <= (if depth > 0 { depth as int } else { 0 })
            && n <= probes.len(),
    decreases probes.len(),
{
    if !spent(depth) && probes.len() > 0 {
        lemma_bounces_within_budget((depth - 1) as i32, probes.drop_first());
    }
}

/// Given at least `depth` probes, every path ends.
pub proof fn lemma_path_ends(depth: i32, probes: Seq<Probe>)
    requires
        probes.len() >= depth,
    ensures
        path_end(depth, probes) is Some,
    decreases probes.len(),
{
    if !spent(depth) && probes.len() > 0 {
        lemma_path_ends((depth - 1) as i32, probes.drop_first());
    }
}

} // verus!
