//! The deviation profile behind the Burdell percentage score.
//!
//! The route is cut into equal segments; each segment remembers the worst
//! deviation of the points that fall into it, the two end segments are
//! anchored at zero, and segments nobody visited take the average of their
//! nearest visited neighbours. The continuous penalty a profile turns into —
//! a power law whose exponent grows with the route's length — is evaluated
//! outside this crate; the profile itself is exact.

use vstd::prelude::*;

use crate::slm::Deviation;
use crate::slm::Point;
use crate::slm::Progress;
use crate::slm::Slm;

verus! {

/// A Burdell score penalty setting.
#[derive(Debug, Clone, Copy, PartialEq, Eq, Structural)]
pub struct BurdellSettings {
    /// Distance in meters over which each penalty term is computed (small is
    /// more severe).
    pub step: u64,
    /// A magic number (small is more severe).
    pub coefficient: u64,
}

impl BurdellSettings {
    /// The step is usable: positive, and small enough that a millimetre
    /// count per segment cannot overflow.
    pub open spec fn wf(self) -> bool {
        0 < self.step <= 1_000_000
    }

    /// The "Pro" penalty settings.
    pub fn pro() -> (r: BurdellSettings)
        ensures
            r == (BurdellSettings { step: 1u64, coefficient: 150u64 }),
    {
        BurdellSettings { step: 1, coefficient: 150 }
    }

    /// The "Amateur" penalty settings.
    pub fn amateur() -> (r: BurdellSettings)
        ensures
            r == (BurdellSettings { step: 5u64, coefficient: 175u64 }),
    {
        BurdellSettings { step: 5, coefficient: 175 }
    }

    /// The "Newbie" penalty settings.
    pub fn newbie() -> (r: BurdellSettings)
        ensures
            r == (BurdellSettings { step: 25u64, coefficient: 200u64 }),
    {
        BurdellSettings { step: 25, coefficient: 200 }
    }
}

/// A named difficulty tier.
#[derive(Debug, Clone, Copy, PartialEq, Eq, Structural)]
pub enum BurdellLevel {
    Pro,
    Amateur,
    Newbie,
}

impl BurdellLevel {
    /// Every tier, hardest first.
    pub fn each() -> (r: Vec<BurdellLevel>)
        ensures
            r@ =~= seq![BurdellLevel::Pro, BurdellLevel::Amateur, BurdellLevel::Newbie],
    {
        let mut levels: Vec<BurdellLevel> = Vec::new();
        levels.push(BurdellLevel::Pro);
        levels.push(BurdellLevel::Amateur);
        levels.push(BurdellLevel::Newbie);
        levels
    }

    /// The penalty settings of this tier.
    pub fn settings(self) -> (r: BurdellSettings)
        ensures
            r == match self {
                BurdellLevel::Pro => BurdellSettings { step: 1u64, coefficient: 150u64 },
                BurdellLevel::Amateur => BurdellSettings { step: 5u64, coefficient: 175u64 },
                BurdellLevel::Newbie => BurdellSettings { step: 25u64, coefficient: 200u64 },
            },
            r.wf(),
    {
        match self {
            BurdellLevel::Pro => BurdellSettings::pro(),
            BurdellLevel::Amateur => BurdellSettings::amateur(),
            BurdellLevel::Newbie => BurdellSettings::newbie(),
        }
    }
}

/// Length of one segment, in millimetres.
pub open spec fn segment_length(settings: BurdellSettings) -> int {
    settings.step * 1000
}

/// Number of segments the route is cut into.
pub open spec fn segment_count(settings: BurdellSettings, route_length: u64) -> int {
    route_length as int / segment_length(settings) + 1
}

/// Whether a mission point contributes to the profile: only points within
/// the route's span do.
pub open spec fn contributes(p: Point) -> bool {
    p.progress is EnRoute
}

/// The deviation a point reports, in millimetres: its offset from the route,
/// whatever the side, or zero when it sits dead centre or outside the
/// route's span.
pub open spec fn point_deviation(p: Point) -> u64 {
    match p.progress {
        Progress::EnRoute { deviation, .. } => match deviation {
            Some(Deviation::Left(d)) => d,
            Some(Deviation::Right(d)) => d,
            None => 0,
        },
        _ => 0,
    }
}

/// The made-good distance of a point within the route's span, in
/// millimetres; zero outside it.
pub open spec fn point_made_good(p: Point) -> u64 {
    match p.progress {
        Progress::EnRoute { made_good, .. } => made_good,
        _ => 0,
    }
}

/// The segment a contributing point falls into.
pub open spec fn bin_of(p: Point, step_mm: int) -> int {
    point_made_good(p) as int / step_mm
}

/// A known worst deviation joined with one more observation.
pub open spec fn join_dev(m: Option<int>, d: int) -> Option<int> {
    match m {
        None => Some(d),
        Some(v) => Some(
            if d > v {
                d
            } else {
                v
            },
        ),
    }
}

/// The recorded value of a segment, counting an absent one as zero.
pub open spec fn value_or_zero(m: Option<int>) -> int {
    match m {
        Some(v) => v,
        None => 0,
    }
}

/// Worst deviation among the track's contributing points that fall into
/// segment `i`; `None` when none does.
pub open spec fn bin_max(track: Seq<Point>, step_mm: int, i: int) -> Option<int>
    decreases track.len(),
{
    if track.len() == 0 {
        None
    } else {
        let rest = bin_max(track.drop_last(), step_mm, i);
        let p = track.last();
        if contributes(p) && bin_of(p, step_mm) == i {
            join_dev(rest, point_deviation(p) as int)
        } else {
            rest
        }
    }
}

/// A segment's worst deviation after anchoring: the first and the last
/// segment of the route count as visited with no deviation.
pub open spec fn seg_max(track: Seq<Point>, step_mm: int, n: int, i: int) -> Option<int> {
    if i == 0 || i == n - 1 {
        Some(value_or_zero(bin_max(track, step_mm, i)))
    } else {
        bin_max(track, step_mm, i)
    }
}

/// Whether segment `i` holds a deviation of its own.
pub open spec fn filled(track: Seq<Point>, step_mm: int, n: int, i: int) -> bool {
    seg_max(track, step_mm, n, i) is Some
}

/// The deviation of a filled segment.
pub open spec fn seg_val(track: Seq<Point>, step_mm: int, n: int, i: int) -> int {
    value_or_zero(seg_max(track, step_mm, n, i))
}

/// The nearest filled segment at or below `i`; segment zero is always
/// filled.
pub open spec fn prev_filled(track: Seq<Point>, step_mm: int, n: int, i: int) -> int
    decreases i,
{
    if i <= 0 {
        0
    } else if filled(track, step_mm, n, i) {
        i
    } else {
        prev_filled(track, step_mm, n, i - 1)
    }
}

/// The nearest filled segment at or above `i`; the last segment is always
/// filled.
pub open spec fn next_filled(track: Seq<Point>, step_mm: int, n: int, i: int) -> int
    decreases n - i,
{
    if i >= n - 1 {
        n - 1
    } else if filled(track, step_mm, n, i) {
        i
    } else {
        next_filled(track, step_mm, n, i + 1)
    }
}

/// What the finished profile holds at segment `i`: the segment's own worst
/// deviation when it has one, otherwise the average of its nearest filled
/// neighbours on either side.
pub open spec fn profile_at(track: Seq<Point>, step_mm: int, n: int, i: int) -> int {
    if filled(track, step_mm, n, i) {
        seg_val(track, step_mm, n, i)
    } else {
        (seg_val(track, step_mm, n, prev_filled(track, step_mm, n, i)) + seg_val(
            track,
            step_mm,
            n,
            next_filled(track, step_mm, n, i),
        )) / 2
    }
}

/// An executable segment entry holds exactly the given value.
pub open spec fn entry_is(o: Option<u64>, v: int) -> bool {
    o matches Some(u) && u as int == v
}

/// An executable segment entry agrees with its specification.
pub open spec fn entry_matches(o: Option<u64>, m: Option<int>) -> bool {
    match m {
        Some(v) => o matches Some(u) && u as int == v,
        None => o is None,
    }
}

/// Extending the track by one point changes at most that point's bin.
proof fn lemma_bin_max_push(s: Seq<Point>, p: Point, step_mm: int, i: int)
    ensures
        bin_max(s.push(p), step_mm, i) == (if contributes(p) && bin_of(p, step_mm) == i {
            join_dev(bin_max(s, step_mm, i), point_deviation(p) as int)
        } else {
            bin_max(s, step_mm, i)
        }),
{
    assert(s.push(p).drop_last() =~= s);
    assert(s.push(p).last() == p);
}

/// Below an unfilled stretch, the nearest filled segment is the one the
/// stretch starts after.
proof fn lemma_prev_filled_runs_to(track: Seq<Point>, step_mm: int, n: int, lo: int, i: int)
    requires
        0 <= lo <= i,
        filled(track, step_mm, n, lo),
        forall|m: int| lo < m <= i ==> !filled(track, step_mm, n, m),
    ensures
        prev_filled(track, step_mm, n, i) == lo,
    decreases i - lo,
{
    if i > lo {
        lemma_prev_filled_runs_to(track, step_mm, n, lo, i - 1);
    }
}

/// Above an unfilled stretch, the nearest filled segment is the one the
/// stretch ends before.
proof fn lemma_next_filled_runs_to(track: Seq<Point>, step_mm: int, n: int, i: int, hi: int)
    requires
        i <= hi <= n - 1,
        filled(track, step_mm, n, hi),
        forall|m: int| i <= m < hi ==> !filled(track, step_mm, n, m),
    ensures
        next_filled(track, step_mm, n, i) == hi,
    decreases hi - i,
{
    if i < hi {
        lemma_next_filled_runs_to(track, step_mm, n, i + 1, hi);
    }
}

/// The tracks are identical but for one point, which kept its place along
/// the route and its standing but may report a larger deviation in the
/// second track.
pub open spec fn raised_at(t1: Seq<Point>, t2: Seq<Point>, k: int) -> bool {
    &&& t1.len() == t2.len()
    &&& 0 <= k < t1.len()
    &&& forall|j: int| 0 <= j < t1.len() && j != k ==> t1[j] == t2[j]
    &&& contributes(t1[k]) == contributes(t2[k])
    &&& point_made_good(t1[k]) == point_made_good(t2[k])
    &&& point_deviation(t1[k]) <= point_deviation(t2[k])
}

/// Raising one point's deviation never lowers a bin's maximum, and fills no
/// bin and empties none.
proof fn lemma_bin_max_raise(t1: Seq<Point>, t2: Seq<Point>, step_mm: int, k: int, b: int)
    requires
        raised_at(t1, t2, k),
    ensures
        bin_max(t1, step_mm, b) is Some <==> bin_max(t2, step_mm, b) is Some,
        value_or_zero(bin_max(t1, step_mm, b)) <= value_or_zero(bin_max(t2, step_mm, b)),
    decreases t1.len(),
{
    if t1.len() > 0 {
        if k == t1.len() - 1 {
            assert(t1.drop_last() =~= t2.drop_last());
        } else {
            lemma_bin_max_raise(t1.drop_last(), t2.drop_last(), step_mm, k, b);
            assert(t1.last() == t2.last());
        }
    }
}

/// Raising one point's deviation leaves every segment's standing — filled
/// or not — unchanged, and never lowers a filled segment's value.
proof fn lemma_seg_max_raise(t1: Seq<Point>, t2: Seq<Point>, step_mm: int, n: int, k: int, i: int)
    requires
        raised_at(t1, t2, k),
    ensures
        filled(t1, step_mm, n, i) == filled(t2, step_mm, n, i),
        seg_val(t1, step_mm, n, i) <= seg_val(t2, step_mm, n, i),
{
    lemma_bin_max_raise(t1, t2, step_mm, k, i);
}

/// Raising one point's deviation moves no gap boundary downwards.
proof fn lemma_prev_filled_raise(t1: Seq<Point>, t2: Seq<Point>, step_mm: int, n: int, k: int, i: int)
    requires
        raised_at(t1, t2, k),
    ensures
        prev_filled(t1, step_mm, n, i) == prev_filled(t2, step_mm, n, i),
    decreases i,
{
    lemma_seg_max_raise(t1, t2, step_mm, n, k, i);
    if !(i <= 0) && !filled(t1, step_mm, n, i) {
        lemma_prev_filled_raise(t1, t2, step_mm, n, k, i - 1);
    }
}

/// Raising one point's deviation moves no gap boundary upwards.
proof fn lemma_next_filled_raise(t1: Seq<Point>, t2: Seq<Point>, step_mm: int, n: int, k: int, i: int)
    requires
        raised_at(t1, t2, k),
    ensures
        next_filled(t1, step_mm, n, i) == next_filled(t2, step_mm, n, i),
    decreases n - i,
{
    lemma_seg_max_raise(t1, t2, step_mm, n, k, i);
    if !(i >= n - 1) && !filled(t1, step_mm, n, i) {
        lemma_next_filled_raise(t1, t2, step_mm, n, k, i + 1);
    }
}

/// Raising any single point's deviation, with its place along the route and
/// everything else held fixed, never lowers any entry of the deviation
/// profile — so the penalty the profile turns into can only grow, and the
/// score can only fall.
pub proof fn lemma_profile_monotonic(
    t1: Seq<Point>,
    t2: Seq<Point>,
    step_mm: int,
    n: int,
    k: int,
    i: int,
)
    requires
        raised_at(t1, t2, k),
        0 <= i < n,
    ensures
        profile_at(t1, step_mm, n, i) <= profile_at(t2, step_mm, n, i),
{
    lemma_seg_max_raise(t1, t2, step_mm, n, k, i);
    if !filled(t1, step_mm, n, i) {
        let lo = prev_filled(t1, step_mm, n, i);
        let hi = next_filled(t1, step_mm, n, i);
        lemma_prev_filled_raise(t1, t2, step_mm, n, k, i);
        lemma_next_filled_raise(t1, t2, step_mm, n, k, i);
        lemma_seg_max_raise(t1, t2, step_mm, n, k, lo);
        lemma_seg_max_raise(t1, t2, step_mm, n, k, hi);
        vstd::arithmetic::div_mod::lemma_div_is_ordered(
            seg_val(t1, step_mm, n, lo) + seg_val(t1, step_mm, n, hi),
            seg_val(t2, step_mm, n, lo) + seg_val(t2, step_mm, n, hi),
            2,
        );
    }
}

/// Cut the route into segments and chart the worst deviation over each.
///
/// The result has one entry per segment, in millimetres: the worst deviation
/// among the points whose made-good distance falls into that segment, zero
/// for the two end segments when nobody visited them, and the average of the
/// nearest charted neighbours for any other segment left unvisited. The
/// continuous penalty is evaluated from this profile by the caller.
#[verifier::loop_isolation(false)]
pub fn deviation_profile(settings: &BurdellSettings, slm: &Slm) -> (profile: Vec<u64>)
    requires
        settings.wf(),
        slm.wf(),
        segment_count(*settings, slm.route_length) <= usize::MAX,
    ensures
        profile@.len() == segment_count(*settings, slm.route_length),
        forall|i: int|
            0 <= i < profile@.len() ==> (#[trigger] profile@[i]) as int == profile_at(
                slm.track@,
                segment_length(*settings),
                segment_count(*settings, slm.route_length),
                i,
            ),
{
    let ghost s: int = segment_length(*settings);
    let ghost nn: int = segment_count(*settings, slm.route_length);
    let step_mm: u64 = settings.step * 1000;
    let n: usize = (slm.route_length / step_mm + 1) as usize;
    assert(n as int == nn);

    let mut segments: Vec<Option<u64>> = Vec::new();
    for j in 0..n
        invariant
            segments@.len() == j,
            forall|i: int| 0 <= i < j ==> segments@[i] is None,
    {
        segments.push(None);
    }
    segments.set(0, Some(0));
    segments.set(n - 1, Some(0));
    proof {
        assert(slm.track@.take(0) =~= Seq::<Point>::empty());
        assert forall|i: int| 0 <= i < nn implies entry_matches(
            segments@[i],
            seg_max(slm.track@.take(0), s, nn, i),
        ) by {
            assert(bin_max(slm.track@.take(0), s, i) is None);
        }
    }

    let m: usize = slm.track.len();
    for k in 0..m
        invariant
            segments@.len() == nn,
            forall|i: int|
                0 <= i < nn ==> entry_matches(
                    segments@[i],
                    seg_max(slm.track@.take(k as int), s, nn, i),
                ),
    {
        let p = slm.track[k];
        match p.progress {
            Progress::Standby | Progress::Arrived => {},
            Progress::EnRoute { made_good, deviation, .. } => {
                let dev: u64 = match deviation {
                    Some(Deviation::Left(d)) => d,
                    Some(Deviation::Right(d)) => d,
                    None => 0,
                };
                proof {
                    assert(slm.track@[k as int].bounded_by(slm.route_length));
                    vstd::arithmetic::div_mod::lemma_div_is_ordered(
                        made_good as int,
                        slm.route_length as int,
                        step_mm as int,
                    );
                }
                let idx: usize = (made_good / step_mm) as usize;
                let newv: u64 = match segments[idx] {
                    Some(v) => {
                        if dev > v {
                            dev
                        } else {
                            v
                        }
                    },
                    None => dev,
                };
                segments.set(idx, Some(newv));
            },
        }
        proof {
            assert(slm.track@.take(k as int + 1) =~= slm.track@.take(k as int).push(
                slm.track@[k as int],
            ));
            assert forall|i: int| 0 <= i < nn implies entry_matches(
                segments@[i],
                seg_max(slm.track@.take(k as int + 1), s, nn, i),
            ) by {
                lemma_bin_max_push(slm.track@.take(k as int), slm.track@[k as int], s, i);
            }
        }
    }
    proof {
        assert(slm.track@.take(m as int) =~= slm.track@);
    }

    let mut last: usize = 0;
    for j in 1..n
        invariant
            segments@.len() == nn,
            last < j,
            filled(slm.track@, s, nn, last as int),
            forall|i: int| last < i < j ==> !filled(slm.track@, s, nn, i),
            forall|i: int|
                0 <= i <= last ==> entry_is(segments@[i], profile_at(slm.track@, s, nn, i)),
            forall|i: int|
                last < i < nn ==> entry_matches(segments@[i], seg_max(slm.track@, s, nn, i)),
    {
        let bopt: Option<u64> = segments[j];
        if let Some(b) = bopt {
            let a: u64 = match segments[last] {
                Some(v) => v,
                None => 0,
            };
            proof {
                assert(filled(slm.track@, s, nn, j as int));
                assert(a as int == seg_val(slm.track@, s, nn, last as int));
                assert(b as int == seg_val(slm.track@, s, nn, j as int));
            }
            let fill: u64 = ((a as u128 + b as u128) / 2) as u64;
            assert(fill as int == (a as int + b as int) / 2);
            for t in (last + 1)..j
                invariant
                    segments@.len() == nn,
                    forall|i: int|
                        0 <= i <= last ==> entry_is(segments@[i], profile_at(slm.track@, s, nn, i)),
                    forall|i: int|
                        last < i < t ==> entry_is(segments@[i], profile_at(slm.track@, s, nn, i)),
                    forall|i: int|
                        t <= i < nn ==> entry_matches(segments@[i], seg_max(slm.track@, s, nn, i)),
            {
                proof {
                    assert(!filled(slm.track@, s, nn, t as int));
                    lemma_prev_filled_runs_to(slm.track@, s, nn, last as int, t as int);
                    lemma_next_filled_runs_to(slm.track@, s, nn, t as int, j as int);
                }
                segments.set(t, Some(fill));
            }
            last = j;
        }
    }
    proof {
        assert(filled(slm.track@, s, nn, nn - 1));
        assert(last as int == nn - 1);
    }

    let mut profile: Vec<u64> = Vec::new();
    for j in 0..n
        invariant
            profile@.len() == j,
            forall|i: int|
                0 <= i < j ==> #[trigger] profile@[i] as int == profile_at(slm.track@, s, nn, i),
    {
        let v: u64 = match segments[j] {
            Some(v) => v,
            None => 0,
        };
        profile.push(v);
    }
    profile
}

} // verus!
