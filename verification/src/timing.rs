//! The search for bit-timing registers that realise a requested bitrate.
//!
//! One bit lasts `prop_seg + phase_seg1 + phase_seg2 + 1` time quanta, and a time
//! quantum lasts `brp` periods of the CAN core clock. The search looks for a prescaler
//! whose quanta count is a whole number, or close enough to one, and which leaves room
//! for both phase segments.

use vstd::prelude::*;
use crate::error::Error;
use crate::wire::BitTiming;

verus! {

/// The largest prescaler the search tries.
pub const MAX_BRP: u32 = 32;

/// The smallest length of phase segment 1 (with the propagation segment folded in).
pub const MIN_SEG1: u32 = 3;

/// The first length of phase segment 1 that is no longer tried.
pub const END_SEG1: u32 = 18;

/// The smallest length of phase segment 2.
pub const MIN_SEG2: u32 = 2;

/// The largest length of phase segment 2.
pub const MAX_SEG2: u32 = 8;

/// The tolerance, in thousandths of the bit time, tried at each step of the search:
/// none, then 0.1 %, then 0.5 %.
pub open spec fn tolerance(step: int) -> int {
    if step <= 0 {
        0
    } else if step == 1 {
        1
    } else {
        5
    }
}

/// Time quanta per bit at prescaler `brp`: the quotient `clk / (bitrate * brp)` rounded
/// to the nearest whole number, halves upwards.
pub open spec fn quanta(clk: int, bitrate: int, brp: int) -> int {
    (2 * clk + bitrate * brp) / (2 * (bitrate * brp))
}

/// Whether rounding the quanta count moved the bit time by more than `tol` thousandths
/// of the rounded bit time.
pub open spec fn error_exceeds(clk: int, bitrate: int, brp: int, tol: int) -> bool {
    let got = bitrate * brp * quanta(clk, bitrate, brp);
    if clk >= got {
        (clk - got) * 1000 > tol * got
    } else {
        (got - clk) * 1000 > tol * got
    }
}

/// Whether prescaler `brp` passes the tolerance test. A quanta count outside 4..=32 is
/// let through untested; no such count has room for the segments, see
/// [`lemma_admissible_quanta`].
pub open spec fn tolerated(clk: int, bitrate: int, brp: int, tol: int) -> bool {
    4 <= quanta(clk, bitrate, brp) <= 32 ==> !error_exceeds(clk, bitrate, brp, tol)
}

/// Whether `seg1` quanta of phase segment 1 leave an acceptable phase segment 2 in a
/// bit of `q` quanta, one of which is the synchronization segment.
pub open spec fn seg2_fits(q: int, seg1: int) -> bool {
    MIN_SEG2 <= q - seg1 - 1 <= MAX_SEG2
}

/// Whether the pair of prescaler and phase segment 1 is acceptable at tolerance `tol`.
pub open spec fn admissible(clk: int, bitrate: int, tol: int, brp: int, seg1: int) -> bool {
    &&& 1 <= brp <= MAX_BRP
    &&& MIN_SEG1 <= seg1 < END_SEG1
    &&& tolerated(clk, bitrate, brp, tol)
    &&& seg2_fits(quanta(clk, bitrate, brp), seg1)
}

/// The registers for prescaler `brp` and `seg1` quanta of phase segment 1: the
/// propagation segment is folded into phase segment 1 and the jump width is one quantum.
pub open spec fn registers(clk: int, bitrate: int, brp: int, seg1: int) -> BitTiming {
    BitTiming {
        prop_seg: 0,
        phase_seg1: seg1 as u32,
        phase_seg2: (quanta(clk, bitrate, brp) - seg1 - 1) as u32,
        sjw: 1,
        brp: brp as u32,
    }
}

/// The smallest length of phase segment 1, from `seg1` on, that fits a bit of `q` quanta.
pub open spec fn first_seg1(q: int, seg1: int) -> Option<int>
    decreases END_SEG1 - seg1,
{
    if seg1 >= END_SEG1 {
        None
    } else if seg2_fits(q, seg1) {
        Some(seg1)
    } else {
        first_seg1(q, seg1 + 1)
    }
}

/// The registers for prescaler `brp` at tolerance `tol`, if the prescaler is acceptable.
pub open spec fn at_prescaler(clk: int, bitrate: int, tol: int, brp: int) -> Option<BitTiming> {
    if !tolerated(clk, bitrate, brp, tol) {
        None
    } else {
        match first_seg1(quanta(clk, bitrate, brp), MIN_SEG1 as int) {
            Some(seg1) => Some(registers(clk, bitrate, brp, seg1)),
            None => None,
        }
    }
}

/// The registers for the smallest acceptable prescaler from `brp` on, at tolerance `tol`.
pub open spec fn first_prescaler(clk: int, bitrate: int, tol: int, brp: int) -> Option<BitTiming>
    decreases MAX_BRP + 1 - brp,
{
    if brp > MAX_BRP {
        None
    } else {
        match at_prescaler(clk, bitrate, tol, brp) {
            Some(bt) => Some(bt),
            None => first_prescaler(clk, bitrate, tol, brp + 1),
        }
    }
}

/// The registers found at the first tolerance, from step `step` on, that admits any.
pub open spec fn first_tolerance(clk: int, bitrate: int, step: int) -> Option<BitTiming>
    decreases 3 - step,
{
    if step >= 3 {
        None
    } else {
        match first_prescaler(clk, bitrate, tolerance(step), 1) {
            Some(bt) => Some(bt),
            None => first_tolerance(clk, bitrate, step + 1),
        }
    }
}

/// The bit timing for `bitrate` on a core clocked at `clk`: tolerances are tried from
/// the strictest, prescalers from the smallest, phase segment 1 from the shortest, and
/// the first acceptable combination wins. A bitrate of zero has no timing.
pub open spec fn bit_timing(clk: u32, bitrate: u32) -> Option<BitTiming> {
    if bitrate == 0 {
        None
    } else {
        first_tolerance(clk as int, bitrate as int, 0)
    }
}

/// The bitrate that `bt` gives on a core clocked at `clk`, rounded down.
pub open spec fn spec_effective_bitrate(clk: u32, bt: BitTiming) -> int {
    clk as int / bt.brp as int / (bt.prop_seg + bt.phase_seg1 + bt.phase_seg2 + 1)
}

/// The product `bitrate * brp` stays far below the limit of `u64`.
proof fn lemma_divisor_bound(bitrate: u32, brp: u32)
    requires
        1 <= bitrate,
        1 <= brp <= MAX_BRP,
    ensures
        1 <= bitrate * brp <= 32 * 0xFFFF_FFFF,
{
    assert(1 <= bitrate * brp <= 32 * 0xFFFF_FFFF) by (nonlinear_arith)
        requires
            1 <= bitrate <= 0xFFFF_FFFF,
            1 <= brp <= 32,
    ;
}

/// Computes [`quanta`].
fn quanta_of(clk: u32, bitrate: u32, brp: u32) -> (q: u64)
    requires
        1 <= bitrate,
        1 <= brp <= MAX_BRP,
    ensures
        q == quanta(clk as int, bitrate as int, brp as int),
{
    proof {
        lemma_divisor_bound(bitrate, brp);
    }
    let d: u64 = bitrate as u64 * brp as u64;
    (2 * (clk as u64) + d) / (2 * d)
}

/// Computes [`tolerated`] for a quanta count already known.
fn is_tolerated(clk: u32, bitrate: u32, brp: u32, tol: u64, q: u64) -> (ok: bool)
    requires
        1 <= bitrate,
        1 <= brp <= MAX_BRP,
        tol <= 5,
        q == quanta(clk as int, bitrate as int, brp as int),
    ensures
        ok == tolerated(clk as int, bitrate as int, brp as int, tol as int),
{
    if q < 4 || q > 32 {
        return true;
    }
    proof {
        lemma_divisor_bound(bitrate, brp);
    }
    let d: u64 = bitrate as u64 * brp as u64;
    assert(d * q <= 32 * (32 * 0xFFFF_FFFF)) by (nonlinear_arith)
        requires
            d <= 32 * 0xFFFF_FFFF,
            q <= 32,
    ;
    let got: u64 = d * q;
    let off: u64 = if clk as u64 >= got {
        clk as u64 - got
    } else {
        got - clk as u64
    };
    assert(tol * got <= 5 * (32 * (32 * 0xFFFF_FFFF))) by (nonlinear_arith)
        requires
            tol <= 5,
            got <= 32 * (32 * 0xFFFF_FFFF),
    ;
    off * 1000 <= tol * got
}

/// Computes [`first_seg1`] from the shortest phase segment 1.
fn seg1_for(q: u64) -> (found: Option<u32>)
    ensures
        match found {
            Some(seg1) => first_seg1(q as int, MIN_SEG1 as int) == Some(seg1 as int),
            None => first_seg1(q as int, MIN_SEG1 as int).is_none(),
        },
{
    let mut seg1: u32 = MIN_SEG1;
    while seg1 < END_SEG1
        invariant
            MIN_SEG1 <= seg1 <= END_SEG1,
            first_seg1(q as int, MIN_SEG1 as int) == first_seg1(q as int, seg1 as int),
        decreases END_SEG1 - seg1,
    {
        let used: u64 = seg1 as u64 + 1;
        if q >= used + MIN_SEG2 as u64 && q <= used + MAX_SEG2 as u64 {
            return Some(seg1);
        }
        seg1 += 1;
    }
    None
}

/// Computes [`at_prescaler`].
fn timing_at(clk: u32, bitrate: u32, tol: u64, brp: u32) -> (found: Option<BitTiming>)
    requires
        1 <= bitrate,
        1 <= brp <= MAX_BRP,
        tol <= 5,
    ensures
        found == at_prescaler(clk as int, bitrate as int, tol as int, brp as int),
{
    let q: u64 = quanta_of(clk, bitrate, brp);
    if !is_tolerated(clk, bitrate, brp, tol, q) {
        return None;
    }
    match seg1_for(q) {
        Some(seg1) => {
            proof {
                lemma_first_seg1(q as int, MIN_SEG1 as int);
            }
            let seg2: u64 = q - seg1 as u64 - 1;
            Some(BitTiming { prop_seg: 0, phase_seg1: seg1, phase_seg2: seg2 as u32, sjw: 1, brp })
        },
        None => None,
    }
}

/// Computes [`first_prescaler`] from the smallest prescaler.
fn timing_within(clk: u32, bitrate: u32, tol: u64) -> (found: Option<BitTiming>)
    requires
        1 <= bitrate,
        tol <= 5,
    ensures
        found == first_prescaler(clk as int, bitrate as int, tol as int, 1),
{
    let mut brp: u32 = 1;
    while brp <= MAX_BRP
        invariant
            1 <= bitrate,
            tol <= 5,
            1 <= brp <= MAX_BRP + 1,
            first_prescaler(clk as int, bitrate as int, tol as int, 1) == first_prescaler(
                clk as int,
                bitrate as int,
                tol as int,
                brp as int,
            ),
        decreases MAX_BRP + 1 - brp,
    {
        match timing_at(clk, bitrate, tol, brp) {
            Some(bt) => {
                return Some(bt);
            },
            None => {},
        }
        brp += 1;
    }
    None
}

/// Finds timing registers for `bitrate` on a core clocked at `clk`.
///
/// Tolerances of 0 %, 0.1 % and 0.5 % are tried in turn. At each, prescalers 1..=32 are
/// tried in ascending order, and for a prescaler that passes the tolerance test the
/// shortest phase segment 1 in 3..18 that leaves 2..=8 quanta for phase segment 2 is
/// taken. Fails with `InvalidBitrate(bitrate)` when nothing is acceptable at any tolerance.
pub fn calculate_bit_timing(clk: u32, bitrate: u32) -> (res: Result<BitTiming, Error>)
    ensures
        res == match bit_timing(clk, bitrate) {
            Some(bt) => Ok::<BitTiming, Error>(bt),
            None => Err::<BitTiming, Error>(Error::InvalidBitrate(bitrate)),
        },
{
    if bitrate == 0 {
        return Err(Error::InvalidBitrate(bitrate));
    }
    let mut step: u8 = 0;
    while step < 3
        invariant
            1 <= bitrate,
            step <= 3,
            first_tolerance(clk as int, bitrate as int, 0) == first_tolerance(
                clk as int,
                bitrate as int,
                step as int,
            ),
        decreases 3 - step,
    {
        let tol: u64 = if step == 0 {
            0
        } else if step == 1 {
            1
        } else {
            5
        };
        match timing_within(clk, bitrate, tol) {
            Some(bt) => {
                return Ok(bt);
            },
            None => {},
        }
        step += 1;
    }
    Err(Error::InvalidBitrate(bitrate))
}

/// The bitrate that `bt` gives on a core clocked at `clk`, rounded down.
pub fn effective_bitrate(clk: u32, bt: BitTiming) -> (rate: u32)
    requires
        bt.brp != 0,
        bt.prop_seg + bt.phase_seg1 + bt.phase_seg2 + 1 <= u32::MAX,
    ensures
        rate == spec_effective_bitrate(clk, bt),
{
    clk / bt.brp / (bt.prop_seg + bt.phase_seg1 + bt.phase_seg2 + 1)
}

/// What [`first_seg1`] finds fits, lies in range, and nothing shorter from `seg1` on fits.
pub proof fn lemma_first_seg1(q: int, seg1: int)
    requires
        MIN_SEG1 <= seg1,
    ensures
        match first_seg1(q, seg1) {
            Some(s) => {
                &&& seg1 <= s < END_SEG1
                &&& seg2_fits(q, s)
                &&& forall|t: int| seg1 <= t < s ==> !seg2_fits(q, t)
            },
            None => forall|t: int| seg1 <= t < END_SEG1 ==> !seg2_fits(q, t),
        },
    decreases END_SEG1 - seg1,
{
    if seg1 < END_SEG1 && !seg2_fits(q, seg1) {
        lemma_first_seg1(q, seg1 + 1);
    }
}

/// An acceptable pair has between 6 and 26 quanta per bit, so its bit time was tested
/// against the tolerance and passed.
pub proof fn lemma_admissible_quanta(clk: int, bitrate: int, tol: int, brp: int, seg1: int)
    requires
        admissible(clk, bitrate, tol, brp, seg1),
    ensures
        6 <= quanta(clk, bitrate, brp) <= 26,
        !error_exceeds(clk, bitrate, brp, tol),
{
}

/// What is acceptable at one tolerance is acceptable at every looser one.
pub proof fn lemma_admissible_looser(
    clk: int,
    bitrate: int,
    tol: int,
    looser: int,
    brp: int,
    seg1: int,
)
    requires
        0 <= clk,
        1 <= bitrate,
        0 <= tol <= looser,
        admissible(clk, bitrate, tol, brp, seg1),
    ensures
        admissible(clk, bitrate, looser, brp, seg1),
{
    let q = quanta(clk, bitrate, brp);
    let got = bitrate * brp * q;
    assert(0 <= got && tol * got <= looser * got) by (nonlinear_arith)
        requires
            1 <= bitrate,
            1 <= brp,
            6 <= q,
            0 <= tol <= looser,
            got == bitrate * brp * q,
    ;
}

/// What [`first_prescaler`] finds is acceptable, and no smaller prescaler from `brp` on
/// and no shorter phase segment 1 is; where it finds nothing, nothing from `brp` on is
/// acceptable.
pub proof fn lemma_first_prescaler(clk: int, bitrate: int, tol: int, brp: int)
    requires
        1 <= brp,
    ensures
        match first_prescaler(clk, bitrate, tol, brp) {
            Some(bt) => {
                &&& brp <= bt.brp <= MAX_BRP
                &&& admissible(clk, bitrate, tol, bt.brp as int, bt.phase_seg1 as int)
                &&& bt == registers(clk, bitrate, bt.brp as int, bt.phase_seg1 as int)
                &&& forall|b: int, s: int|
                    brp <= b < bt.brp ==> !admissible(clk, bitrate, tol, b, s)
                &&& forall|s: int|
                    s < bt.phase_seg1 ==> !admissible(clk, bitrate, tol, bt.brp as int, s)
            },
            None => forall|b: int, s: int| brp <= b ==> !admissible(clk, bitrate, tol, b, s),
        },
    decreases MAX_BRP + 1 - brp,
{
    if brp <= MAX_BRP {
        lemma_first_seg1(quanta(clk, bitrate, brp), MIN_SEG1 as int);
        if at_prescaler(clk, bitrate, tol, brp).is_none() {
            lemma_first_prescaler(clk, bitrate, tol, brp + 1);
        }
    }
}

/// What [`bit_timing`] finds is the first acceptable combination: the tolerance is the
/// strictest that admits any pair, the prescaler the smallest acceptable at that
/// tolerance, and phase segment 1 the shortest for that prescaler. It finds nothing
/// only where the bitrate is zero or no pair is acceptable at any tolerance.
pub proof fn lemma_bit_timing_is_first(clk: u32, bitrate: u32)
    ensures
        match bit_timing(clk, bitrate) {
            Some(bt) => exists|step: int|
                {
                    &&& 0 <= step < 3
                    &&& #[trigger] admissible(
                        clk as int,
                        bitrate as int,
                        tolerance(step),
                        bt.brp as int,
                        bt.phase_seg1 as int,
                    )
                    &&& bt == registers(
                        clk as int,
                        bitrate as int,
                        bt.brp as int,
                        bt.phase_seg1 as int,
                    )
                    &&& forall|t: int, b: int, s: int|
                        0 <= t < step ==> !admissible(
                            clk as int,
                            bitrate as int,
                            tolerance(t),
                            b,
                            s,
                        )
                    &&& forall|b: int, s: int|
                        b < bt.brp ==> !admissible(
                            clk as int,
                            bitrate as int,
                            tolerance(step),
                            b,
                            s,
                        )
                    &&& forall|s: int|
                        s < bt.phase_seg1 ==> !admissible(
                            clk as int,
                            bitrate as int,
                            tolerance(step),
                            bt.brp as int,
                            s,
                        )
                },
            None => bitrate == 0 || forall|t: int, b: int, s: int|
                0 <= t < 3 ==> !admissible(clk as int, bitrate as int, tolerance(t), b, s),
        },
{
    if bitrate != 0 {
        let c = clk as int;
        let r = bitrate as int;
        lemma_first_prescaler(c, r, tolerance(0), 1);
        lemma_first_prescaler(c, r, tolerance(1), 1);
        lemma_first_prescaler(c, r, tolerance(2), 1);
        reveal_with_fuel(first_tolerance, 4);
        if first_prescaler(c, r, tolerance(0), 1) is Some {
            let bt = first_prescaler(c, r, tolerance(0), 1)->0;
            assert(admissible(c, r, tolerance(0), bt.brp as int, bt.phase_seg1 as int));
        } else if first_prescaler(c, r, tolerance(1), 1) is Some {
            let bt = first_prescaler(c, r, tolerance(1), 1)->0;
            assert(admissible(c, r, tolerance(1), bt.brp as int, bt.phase_seg1 as int));
        } else if first_prescaler(c, r, tolerance(2), 1) is Some {
            let bt = first_prescaler(c, r, tolerance(2), 1)->0;
            assert(admissible(c, r, tolerance(2), bt.brp as int, bt.phase_seg1 as int));
        }
    }
}

/// Every timing that [`bit_timing`] finds has its registers in range and a bit time
/// within 0.5 % of the requested one; the bitrate it gives, rounded down, exceeds the
/// requested one by at most 0.5 % and falls short of it by less than 0.5 % and one bit
/// per second.
pub proof fn lemma_bit_timing_in_range(clk: u32, bitrate: u32)
    ensures
        bit_timing(clk, bitrate) matches Some(bt) ==> {
            let q = bt.phase_seg1 + bt.phase_seg2 + 1;
            &&& 1 <= bt.brp <= MAX_BRP
            &&& bt.prop_seg == 0
            &&& MIN_SEG1 <= bt.phase_seg1 < END_SEG1
            &&& MIN_SEG2 <= bt.phase_seg2 <= MAX_SEG2
            &&& bt.sjw == 1
            &&& q == quanta(clk as int, bitrate as int, bt.brp as int)
            &&& !error_exceeds(clk as int, bitrate as int, bt.brp as int, 5)
            &&& 1000 * spec_effective_bitrate(clk, bt) <= 1005 * bitrate
            &&& 995 * bitrate < 1000 * (spec_effective_bitrate(clk, bt) + 1)
        },
{
    if bit_timing(clk, bitrate) is Some {
        let bt = bit_timing(clk, bitrate)->0;
        let c = clk as int;
        let r = bitrate as int;
        lemma_bit_timing_is_first(clk, bitrate);
        let step = choose|step: int|
            0 <= step < 3 && #[trigger] admissible(
                c,
                r,
                tolerance(step),
                bt.brp as int,
                bt.phase_seg1 as int,
            );
        lemma_admissible_looser(c, r, tolerance(step), 5, bt.brp as int, bt.phase_seg1 as int);
        lemma_admissible_quanta(c, r, 5, bt.brp as int, bt.phase_seg1 as int);
        let brp = bt.brp as int;
        let q = quanta(c, r, brp);
        assert(bt.phase_seg1 + bt.phase_seg2 + 1 == q);
        lemma_rate_bounds(c, r, brp, q);
    }
}

/// Where the clock is within 0.5 % of `bitrate * brp * q`, the quotient
/// `clk / brp / q` is within 0.5 % of `bitrate`, but for its rounding down.
proof fn lemma_rate_bounds(clk: int, bitrate: int, brp: int, q: int)
    requires
        0 <= clk,
        1 <= bitrate,
        1 <= brp,
        1 <= q,
        clk >= bitrate * brp * q ==> (clk - bitrate * brp * q) * 1000 <= 5 * (bitrate * brp * q),
        clk < bitrate * brp * q ==> (bitrate * brp * q - clk) * 1000 <= 5 * (bitrate * brp * q),
    ensures
        1000 * (clk / brp / q) <= 1005 * bitrate,
        995 * bitrate < 1000 * (clk / brp / q + 1),
{
    let rate = clk / brp / q;
    let span = brp * q;
    assert(span >= 1 && bitrate * brp * q == bitrate * span) by (nonlinear_arith)
        requires
            1 <= brp,
            1 <= q,
            span == brp * q,
    ;
    vstd::arithmetic::div_mod::lemma_div_denominator(clk, brp, q);
    assert(rate == clk / span);
    vstd::arithmetic::div_mod::lemma_fundamental_div_mod(clk, span);
    vstd::arithmetic::div_mod::lemma_mod_bound(clk, span);
    assert(clk == span * rate + clk % span);
    assert(span * (rate + 1) == span * rate + span) by (nonlinear_arith);
    assert(1000 * rate <= 1005 * bitrate) by (nonlinear_arith)
        requires
            span >= 1,
            0 <= rate,
            span * rate <= clk,
            1000 * clk <= 1005 * (bitrate * span),
    {
        assert(1000 * (span * rate) <= 1005 * (bitrate * span));
        assert(span * (1000 * rate) <= span * (1005 * bitrate));
    }
    assert(995 * bitrate < 1000 * (rate + 1)) by (nonlinear_arith)
        requires
            span >= 1,
            clk < span * (rate + 1),
            995 * (bitrate * span) <= 1000 * clk,
    {
        assert(995 * (bitrate * span) < 1000 * (span * (rate + 1)));
        assert(span * (995 * bitrate) < span * (1000 * (rate + 1)));
    }
}

/// Where some pair is acceptable with no tolerance at all, [`bit_timing`] finds a
/// timing, found with no tolerance, that gives exactly the requested bitrate.
pub proof fn lemma_exact_rate_is_met(clk: u32, bitrate: u32, brp: int, seg1: int)
    requires
        1 <= bitrate,
        admissible(clk as int, bitrate as int, 0, brp, seg1),
    ensures
        bit_timing(clk, bitrate) matches Some(bt) && {
            &&& admissible(clk as int, bitrate as int, 0, bt.brp as int, bt.phase_seg1 as int)
            &&& clk == bitrate * bt.brp * (bt.phase_seg1 + bt.phase_seg2 + 1)
            &&& spec_effective_bitrate(clk, bt) == bitrate
        },
{
    let c = clk as int;
    let r = bitrate as int;
    lemma_first_prescaler(c, r, 0, 1);
    let bt = first_prescaler(c, r, 0, 1)->0;
    assert(bit_timing(clk, bitrate) == Some(bt));
    let b = bt.brp as int;
    lemma_admissible_quanta(c, r, 0, b, bt.phase_seg1 as int);
    let q = quanta(c, r, b);
    let got = r * b * q;
    assert(0 * got == 0);
    assert(c == got);
    assert(c / b == r * q) by (nonlinear_arith)
        requires
            c == r * b * q,
            1 <= b,
    ;
    assert((r * q) / q == r) by (nonlinear_arith)
        requires
            1 <= q,
    ;
}

} // verus!
