//! The landing evaluator: the final state's measurements are held
//! against their thresholds in a fixed priority order; the first one
//! over its threshold classifies the landing, and every margin feeds a
//! partial-credit score.

use vstd::prelude::*;

verus! {

use crate::fixed::{SCALE, LIMIT, spec_div_fix, div_fix, lemma_div_trunc_bound};
use crate::rng::random_u64;

/// Magnitude bound on twice one criterion's scaled score, given a
/// well-formed criterion.
pub const CRITERION_SCORE_LIMIT: i64 = 4_000_000_000_000;

/// Largest number of criteria one report can hold without its score
/// sum leaving the representable range.
pub const MAX_CRITERIA: usize = 1000;

#[derive(Clone, Copy, Debug, PartialEq, Eq, Structural)]
pub enum LandingStatus {
    Landed,
    Missed,
    Crashed,
}

#[derive(Clone, Copy, Debug, PartialEq, Eq, Structural)]
pub enum LandingCriterionType {
    VerticalSpeed,
    HorizontalSpeed,
    Tilt,
    AngularSpeed,
    DistanceFromTarget,
}

/// One landing criterion: a measured value held against its threshold,
/// both in milli-units.
#[derive(Clone, Copy, Debug, PartialEq, Eq, Structural)]
pub struct LandingCriterion {
    pub kind: LandingCriterionType,
    pub max: i64,
    pub actual: i64,
}

impl LandingCriterion {
    pub open spec fn wf(self) -> bool {
        &&& 0 < self.max <= LIMIT
        &&& -LIMIT <= self.actual <= LIMIT
    }

    pub fn vertical_speed(max: i64, actual: i64) -> (r: LandingCriterion)
        ensures
            r == (LandingCriterion { kind: LandingCriterionType::VerticalSpeed, max, actual }),
    {
        LandingCriterion { kind: LandingCriterionType::VerticalSpeed, max, actual }
    }

    pub fn horizontal_speed(max: i64, actual: i64) -> (r: LandingCriterion)
        ensures
            r == (LandingCriterion { kind: LandingCriterionType::HorizontalSpeed, max, actual }),
    {
        LandingCriterion { kind: LandingCriterionType::HorizontalSpeed, max, actual }
    }

    pub fn tilt(max: i64, actual: i64) -> (r: LandingCriterion)
        ensures
            r == (LandingCriterion { kind: LandingCriterionType::Tilt, max, actual }),
    {
        LandingCriterion { kind: LandingCriterionType::Tilt, max, actual }
    }

    pub fn angular_speed(max: i64, actual: i64) -> (r: LandingCriterion)
        ensures
            r == (LandingCriterion { kind: LandingCriterionType::AngularSpeed, max, actual }),
    {
        LandingCriterion { kind: LandingCriterionType::AngularSpeed, max, actual }
    }

    pub fn distance_from_target(max: i64, actual: i64) -> (r: LandingCriterion)
        ensures
            r == (LandingCriterion { kind: LandingCriterionType::DistanceFromTarget, max, actual }),
    {
        LandingCriterion { kind: LandingCriterionType::DistanceFromTarget, max, actual }
    }

    /// A criterion passes when its measured value does not exceed its
    /// threshold.
    pub fn ok(&self) -> (r: bool)
        ensures
            r == spec_criterion_ok(*self),
    {
        self.actual <= self.max
    }

    /// The scaled margin `(max - actual) / max`, negative once the
    /// criterion fails.
    pub fn score(&self) -> (r: i64)
        requires
            self.wf(),
        ensures
            r == spec_criterion_score(*self),
            -CRITERION_SCORE_LIMIT <= 2 * r <= CRITERION_SCORE_LIMIT,
    {
        proof {
            lemma_div_trunc_bound(
                (self.max - self.actual) * SCALE,
                self.max as int,
                2 * (LIMIT as int) * (SCALE as int),
            );
            vstd::arithmetic::div_mod::lemma_div_nonincreasing(
                2 * (LIMIT as int) * (SCALE as int),
                self.max as int,
            );
        }
        div_fix(self.max - self.actual, self.max)
    }
}

pub open spec fn spec_criterion_ok(c: LandingCriterion) -> bool {
    c.actual <= c.max
}

pub open spec fn spec_criterion_score(c: LandingCriterion) -> int {
    spec_div_fix(c.max - c.actual, c.max as int)
}

/// The first criterion at or after `i` that fails, scanning in priority
/// order.
pub open spec fn spec_first_problem_from(cs: Seq<LandingCriterion>, i: int) -> Option<
    LandingCriterionType,
>
    decreases cs.len() - i,
{
    if i < 0 || i >= cs.len() {
        None
    } else if !spec_criterion_ok(cs[i]) {
        Some(cs[i].kind)
    } else {
        spec_first_problem_from(cs, i + 1)
    }
}

pub open spec fn spec_first_problem(cs: Seq<LandingCriterion>) -> Option<LandingCriterionType> {
    spec_first_problem_from(cs, 0)
}

/// Twice the scaled margin of every criterion at or after `i`, summed.
pub open spec fn spec_total_score_from(cs: Seq<LandingCriterion>, i: int) -> int
    decreases cs.len() - i,
{
    if i < 0 || i >= cs.len() {
        0
    } else {
        2 * spec_criterion_score(cs[i]) + spec_total_score_from(cs, i + 1)
    }
}

pub open spec fn spec_total_score(cs: Seq<LandingCriterion>) -> int {
    spec_total_score_from(cs, 0)
}

/// All criteria pass: landed. The first failure deciding the landing:
/// off target means missed, any dynamic failure means crashed.
pub open spec fn spec_status(first: Option<LandingCriterionType>) -> LandingStatus {
    match first {
        None => LandingStatus::Landed,
        Some(LandingCriterionType::DistanceFromTarget) => LandingStatus::Missed,
        Some(_) => LandingStatus::Crashed,
    }
}

/// The remark chosen for a draw: the first failing criterion selects
/// the set, the draw picks among equivalent phrasings.
pub open spec fn spec_remark(first: Option<LandingCriterionType>, draw: int) -> Seq<char> {
    match first {
        None => "The eagle has landed."@,
        Some(LandingCriterionType::VerticalSpeed) => if draw % 2 == 0 {
            "You've redefined the term 'lunar impactor'."@
        } else {
            "NASA's crater department thanks you for the new research subject."@
        },
        Some(LandingCriterionType::HorizontalSpeed)
            => "You landed... sideways. The ground wasn't ready for that level of enthusiasm."@,
        Some(LandingCriterionType::Tilt)
            => "You came in like a majestic leaning tower of 'nope'."@,
        Some(LandingCriterionType::AngularSpeed)
            => "You were still spinning on landing. Were you trying for a celebratory twirl?"@,
        Some(LandingCriterionType::DistanceFromTarget)
            => "You stuck the landing - on the wrong part of the moon."@,
    }
}

/// Whether a remark text is one that the first failing criterion could
/// have produced for some draw.
pub open spec fn spec_remark_possible(first: Option<LandingCriterionType>, s: Seq<char>) -> bool {
    exists|draw: int| s == spec_remark(first, draw)
}

/// A landing report: the classification, a remark, the aggregate score
/// and the criteria it was computed from.
#[derive(Clone, Debug)]
pub struct LandingReport {
    pub status: LandingStatus,
    pub remark: String,
    pub score: i64,
    pub criteria: Vec<LandingCriterion>,
}

impl LandingReport {
    pub open spec fn wf(self) -> bool {
        &&& forall|i: int| 0 <= i < self.criteria@.len() ==> #[trigger] self.criteria@[i].wf()
        &&& self.status == spec_status(spec_first_problem(self.criteria@))
        &&& self.score == spec_total_score(self.criteria@)
        &&& spec_remark_possible(spec_first_problem(self.criteria@), self.remark@)
    }

    /// Evaluates the criteria, choosing among equivalent remarks with a
    /// fresh unseeded draw. The classification and the score do not
    /// depend on the draw.
    pub fn new(criteria: Vec<LandingCriterion>) -> (r: LandingReport)
        requires
            forall|i: int| 0 <= i < criteria@.len() ==> #[trigger] criteria@[i].wf(),
            criteria@.len() <= MAX_CRITERIA,
        ensures
            r.status == spec_status(spec_first_problem(criteria@)),
            r.score == spec_total_score(criteria@),
            r.criteria == criteria,
            spec_remark_possible(spec_first_problem(criteria@), r.remark@),
            r.wf(),
    {
        let draw: u64 = random_u64();
        let r = Self::new_with_draw(criteria, draw);
        proof {
            assert(spec_remark_possible(spec_first_problem(r.criteria@), r.remark@)) by {
                assert(r.remark@ == spec_remark(spec_first_problem(r.criteria@), draw as int));
            }
        }
        r
    }

    /// Evaluates the criteria with an explicit draw, so that a chosen
    /// random source reproduces the whole report.
    pub fn new_with_draw(criteria: Vec<LandingCriterion>, draw: u64) -> (r: LandingReport)
        requires
            forall|i: int| 0 <= i < criteria@.len() ==> #[trigger] criteria@[i].wf(),
            criteria@.len() <= MAX_CRITERIA,
        ensures
            r.status == spec_status(spec_first_problem(criteria@)),
            r.score == spec_total_score(criteria@),
            r.criteria == criteria,
            r.remark@ == spec_remark(spec_first_problem(criteria@), draw as int),
            r.wf(),
    {
        let mut score: i64 = 0;
        let mut first_problem: Option<LandingCriterionType> = None;
        let mut i: usize = 0;
        while i < criteria.len()
            invariant
                0 <= i <= criteria@.len(),
                criteria@.len() <= MAX_CRITERIA,
                forall|j: int| 0 <= j < criteria@.len() ==> #[trigger] criteria@[j].wf(),
                score + spec_total_score_from(criteria@, i as int) == spec_total_score(criteria@),
                -(CRITERION_SCORE_LIMIT * i) <= score <= CRITERION_SCORE_LIMIT * i,
                first_problem is None ==> spec_first_problem(criteria@)
                    == spec_first_problem_from(criteria@, i as int),
                first_problem is Some ==> spec_first_problem(criteria@) == first_problem,
            decreases criteria@.len() - i,
        {
            let crit: LandingCriterion = criteria[i];
            if !crit.ok() && first_problem.is_none() {
                first_problem = Some(crit.kind);
            }
            let s: i64 = crit.score();
            proof {
                assert(CRITERION_SCORE_LIMIT * (i + 1) == CRITERION_SCORE_LIMIT * i
                    + CRITERION_SCORE_LIMIT) by (nonlinear_arith);
            }
            score = score + 2 * s;
            i = i + 1;
        }
        let status: LandingStatus = match first_problem {
            None => LandingStatus::Landed,
            Some(LandingCriterionType::DistanceFromTarget) => LandingStatus::Missed,
            Some(_) => LandingStatus::Crashed,
        };
        let remark: String = match first_problem {
            None => "The eagle has landed.".to_owned(),
            Some(LandingCriterionType::VerticalSpeed) => if draw % 2 == 0 {
                "You've redefined the term 'lunar impactor'.".to_owned()
            } else {
                "NASA's crater department thanks you for the new research subject.".to_owned()
            },
            Some(LandingCriterionType::HorizontalSpeed) =>
                "You landed... sideways. The ground wasn't ready for that level of enthusiasm.".to_owned(),
            Some(LandingCriterionType::Tilt) =>
                "You came in like a majestic leaning tower of 'nope'.".to_owned(),
            Some(LandingCriterionType::AngularSpeed) =>
                "You were still spinning on landing. Were you trying for a celebratory twirl?".to_owned(),
            Some(LandingCriterionType::DistanceFromTarget) =>
                "You stuck the landing - on the wrong part of the moon.".to_owned(),
        };
        proof {
            assert(remark@ == spec_remark(spec_first_problem(criteria@), draw as int));
        }
        LandingReport { status, remark, score, criteria }
    }

    /// Returns the landing status.
    pub fn status(&self) -> (r: LandingStatus)
        ensures
            r == self.status,
    {
        self.status
    }
}

/// Within one criterion, the exact margin `2 * (max - actual) / max`
/// falls strictly as the measured value rises: over the shared positive
/// denominator, comparing the margins is comparing their numerators.
/// The executable scaled score falls with it, weakly, since truncation
/// can absorb a difference smaller than its grain.
pub proof fn lemma_criterion_score_monotone(c1: LandingCriterion, c2: LandingCriterion)
    requires
        c1.wf(),
        c2.wf(),
        c1.kind == c2.kind,
        c1.max == c2.max,
        c1.actual < c2.actual,
    ensures
        2 * (c1.max - c1.actual) > 2 * (c2.max - c2.actual),
        spec_criterion_score(c1) >= spec_criterion_score(c2),
{
    let m = c1.max as int;
    let n1 = (c1.max - c1.actual) * (SCALE as int);
    let n2 = (c2.max - c2.actual) * (SCALE as int);
    assert(n1 > n2) by (nonlinear_arith)
        requires
            c1.actual < c2.actual,
            c1.max == c2.max,
            n1 == (c1.max - c1.actual) * (SCALE as int),
            n2 == (c2.max - c2.actual) * (SCALE as int),
            SCALE > 0,
    ;
    lemma_div_trunc_ordered(n2, n1, m);
}

/// Truncating division by a positive divisor is monotone.
proof fn lemma_div_trunc_ordered(a: int, b: int, d: int)
    requires
        a <= b,
        0 < d,
    ensures
        crate::fixed::div_trunc(a, d) <= crate::fixed::div_trunc(b, d),
{
    if a >= 0 {
        vstd::arithmetic::div_mod::lemma_div_is_ordered(a, b, d);
    } else if b < 0 {
        vstd::arithmetic::div_mod::lemma_div_is_ordered(-b, -a, d);
    } else {
        vstd::arithmetic::div_mod::lemma_div_pos_is_pos(-a, d);
        vstd::arithmetic::div_mod::lemma_div_pos_is_pos(b, d);
    }
}

/// Raising one criterion's measured value, all else equal, never raises
/// the aggregate score.
pub proof fn lemma_total_score_monotone(
    cs1: Seq<LandingCriterion>,
    cs2: Seq<LandingCriterion>,
    k: int,
)
    requires
        cs1.len() == cs2.len(),
        0 <= k < cs1.len(),
        forall|i: int| 0 <= i < cs1.len() && i != k ==> cs1[i] == cs2[i],
        cs1[k].wf(),
        cs2[k].wf(),
        cs1[k].kind == cs2[k].kind,
        cs1[k].max == cs2[k].max,
        cs1[k].actual < cs2[k].actual,
    ensures
        spec_total_score(cs1) >= spec_total_score(cs2),
{
    lemma_criterion_score_monotone(cs1[k], cs2[k]);
    lemma_total_score_from_split(cs1, cs2, k, 0);
}

/// Tail sums of two sequences that differ only at `k` differ only by
/// that term.
proof fn lemma_total_score_from_split(
    cs1: Seq<LandingCriterion>,
    cs2: Seq<LandingCriterion>,
    k: int,
    i: int,
)
    requires
        cs1.len() == cs2.len(),
        0 <= i <= cs1.len(),
        0 <= k < cs1.len(),
        forall|j: int| 0 <= j < cs1.len() && j != k ==> cs1[j] == cs2[j],
    ensures
        i <= k ==> spec_total_score_from(cs1, i) - spec_total_score_from(cs2, i) == 2
            * spec_criterion_score(cs1[k]) - 2 * spec_criterion_score(cs2[k]),
        i > k ==> spec_total_score_from(cs1, i) == spec_total_score_from(cs2, i),
    decreases cs1.len() - i,
{
    if i < cs1.len() {
        lemma_total_score_from_split(cs1, cs2, k, i + 1);
    }
}

} // verus!
