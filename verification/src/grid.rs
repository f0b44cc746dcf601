//! The fixed sampling grid and the samplers that walk it.

use crate::model::SignalParameters;
use vstd::prelude::*;

verus! {

/// Number of equal steps between the two ends of the sampling domain.
pub const INTERVALS: usize = 2048;

/// Number of grid points: one per step, and both ends of the domain.
pub const POINT_COUNT: usize = 2049;

/// One sampled point: an abscissa and the value of a signal there.
#[derive(Clone, Copy, Debug, PartialEq)]
pub struct SamplePoint<R> {
    pub x: R,
    pub y: R,
}

/// `x` is an abscissa of the grid index `k`.
pub open spec fn abscissa_at<R, X: Fn(usize) -> R>(abscissa: X, k: int, x: R) -> bool {
    0 <= k <= INTERVALS && call_ensures(abscissa, (k as usize,), x)
}

/// `y` is a value at `x` of the waveform `wave` with the parameters `params`.
/// A waveform takes amplitude, frequency, abscissa and phase, in that order.
pub open spec fn value_at<R, W: Fn(R, R, R, R) -> R>(
    params: SignalParameters<R>,
    wave: W,
    x: R,
    y: R,
) -> bool {
    call_ensures(wave, (params.amplitude, params.frequency, x, params.phase), y)
}

/// `y` is a sum of a value of the first signal and a value of the second, both
/// taken at the one abscissa `x`.
pub open spec fn sum_at<R, WI: Fn(R, R, R, R) -> R, WQ: Fn(R, R, R, R) -> R, S: Fn(R, R) -> R>(
    i: SignalParameters<R>,
    q: SignalParameters<R>,
    wave_i: WI,
    wave_q: WQ,
    sum: S,
    x: R,
    y: R,
) -> bool {
    exists|yi: R, yq: R|
        #![trigger call_ensures(sum, (yi, yq), y)]
        value_at(i, wave_i, x, yi) && value_at(q, wave_q, x, yq) && call_ensures(sum, (yi, yq), y)
}

/// `abscissa` may be called at every grid index.
pub open spec fn covers_grid<R, X: Fn(usize) -> R>(abscissa: X) -> bool {
    forall|k: usize| k <= INTERVALS ==> #[trigger] call_requires(abscissa, (k,))
}

/// `wave` may be called with the parameters `params` at every abscissa of the
/// grid.
pub open spec fn covers_abscissas<R, X: Fn(usize) -> R, W: Fn(R, R, R, R) -> R>(
    params: SignalParameters<R>,
    abscissa: X,
    wave: W,
) -> bool {
    forall|k: usize, x: R|
        k <= INTERVALS && #[trigger] call_ensures(abscissa, (k,), x) ==> call_requires(
            wave,
            (params.amplitude, params.frequency, x, params.phase),
        )
}

/// `sum` may be called on every pair made of a value of the first signal and
/// a value of the second at one abscissa of the grid.
pub open spec fn covers_values<
    R,
    X: Fn(usize) -> R,
    WI: Fn(R, R, R, R) -> R,
    WQ: Fn(R, R, R, R) -> R,
    S: Fn(R, R) -> R,
>(
    i: SignalParameters<R>,
    q: SignalParameters<R>,
    abscissa: X,
    wave_i: WI,
    wave_q: WQ,
    sum: S,
) -> bool {
    forall|k: usize, x: R, yi: R, yq: R|
        k <= INTERVALS && #[trigger] call_ensures(abscissa, (k,), x) && #[trigger] value_at(
            i,
            wave_i,
            x,
            yi,
        ) && #[trigger] value_at(q, wave_q, x, yq) ==> call_requires(sum, (yi, yq))
}

/// `points` is a sampling of one signal: one point per grid index, in the
/// order of the grid; the point at index `k` lies at an abscissa of `k` and
/// holds a value of the waveform there.
pub open spec fn tabulates<R, X: Fn(usize) -> R, W: Fn(R, R, R, R) -> R>(
    points: Seq<SamplePoint<R>>,
    params: SignalParameters<R>,
    abscissa: X,
    wave: W,
) -> bool {
    &&& points.len() == POINT_COUNT
    &&& forall|k: int|
        0 <= k < POINT_COUNT ==> abscissa_at(abscissa, k, (#[trigger] points[k]).x) && value_at(
            params,
            wave,
            points[k].x,
            points[k].y,
        )
}

/// `points` is a combined sampling: one point per grid index, in the order of
/// the grid; the point at index `k` lies at an abscissa of `k` and holds the
/// sum of the two signals there.
pub open spec fn tabulates_sum<
    R,
    X: Fn(usize) -> R,
    WI: Fn(R, R, R, R) -> R,
    WQ: Fn(R, R, R, R) -> R,
    S: Fn(R, R) -> R,
>(
    points: Seq<SamplePoint<R>>,
    i: SignalParameters<R>,
    q: SignalParameters<R>,
    abscissa: X,
    wave_i: WI,
    wave_q: WQ,
    sum: S,
) -> bool {
    &&& points.len() == POINT_COUNT
    &&& forall|k: int|
        0 <= k < POINT_COUNT ==> abscissa_at(abscissa, k, (#[trigger] points[k]).x) && sum_at(
            i,
            q,
            wave_i,
            wave_q,
            sum,
            points[k].x,
            points[k].y,
        )
}

/// Samples one signal. At each grid index, from the first to the last, it
/// takes the abscissa of the index and then the value of the waveform there.
pub fn sample<R: Copy, X: Fn(usize) -> R, W: Fn(R, R, R, R) -> R>(
    params: &SignalParameters<R>,
    abscissa: &X,
    wave: &W,
) -> (out: Vec<SamplePoint<R>>)
    requires
        covers_grid(*abscissa),
        covers_abscissas(*params, *abscissa, *wave),
    ensures
        tabulates(out@, *params, *abscissa, *wave),
{
    let mut out: Vec<SamplePoint<R>> = Vec::with_capacity(POINT_COUNT);
    let mut k: usize = 0;
    while k < POINT_COUNT
        invariant
            k <= POINT_COUNT,
            out@.len() == k,
            covers_grid(*abscissa),
            covers_abscissas(*params, *abscissa, *wave),
            forall|j: int|
                0 <= j < k ==> abscissa_at(*abscissa, j, (#[trigger] out@[j]).x) && value_at(
                    *params,
                    *wave,
                    out@[j].x,
                    out@[j].y,
                ),
        decreases POINT_COUNT - k,
    {
        let x = abscissa(k);
        let y = wave(params.amplitude, params.frequency, x, params.phase);
        out.push(SamplePoint { x, y });
        k = k + 1;
    }
    out
}

/// Samples the sum of two signals. At each grid index, from the first to the
/// last, it takes the abscissa of the index once, the values of both
/// waveforms at that one abscissa, and their sum.
pub fn sample_sum<
    R: Copy,
    X: Fn(usize) -> R,
    WI: Fn(R, R, R, R) -> R,
    WQ: Fn(R, R, R, R) -> R,
    S: Fn(R, R) -> R,
>(
    i: &SignalParameters<R>,
    q: &SignalParameters<R>,
    abscissa: &X,
    wave_i: &WI,
    wave_q: &WQ,
    sum: &S,
) -> (out: Vec<SamplePoint<R>>)
    requires
        covers_grid(*abscissa),
        covers_abscissas(*i, *abscissa, *wave_i),
        covers_abscissas(*q, *abscissa, *wave_q),
        covers_values(*i, *q, *abscissa, *wave_i, *wave_q, *sum),
    ensures
        tabulates_sum(out@, *i, *q, *abscissa, *wave_i, *wave_q, *sum),
{
    let mut out: Vec<SamplePoint<R>> = Vec::with_capacity(POINT_COUNT);
    let mut k: usize = 0;
    while k < POINT_COUNT
        invariant
            k <= POINT_COUNT,
            out@.len() == k,
            covers_grid(*abscissa),
            covers_abscissas(*i, *abscissa, *wave_i),
            covers_abscissas(*q, *abscissa, *wave_q),
            covers_values(*i, *q, *abscissa, *wave_i, *wave_q, *sum),
            forall|j: int|
                0 <= j < k ==> abscissa_at(*abscissa, j, (#[trigger] out@[j]).x) && sum_at(
                    *i,
                    *q,
                    *wave_i,
                    *wave_q,
                    *sum,
                    out@[j].x,
                    out@[j].y,
                ),
        decreases POINT_COUNT - k,
    {
        let x = abscissa(k);
        let yi = wave_i(i.amplitude, i.frequency, x, i.phase);
        let yq = wave_q(q.amplitude, q.frequency, x, q.phase);
        assert(value_at(*i, *wave_i, x, yi));
        assert(value_at(*q, *wave_q, x, yq));
        let y = sum(yi, yq);
        out.push(SamplePoint { x, y });
        k = k + 1;
    }
    out
}

/// `abscissa` has at most one result at every grid index.
pub open spec fn single_abscissa<R, X: Fn(usize) -> R>(abscissa: X) -> bool {
    forall|k: usize, x1: R, x2: R|
        k <= INTERVALS && #[trigger] call_ensures(abscissa, (k,), x1) && #[trigger] call_ensures(
            abscissa,
            (k,),
            x2,
        ) ==> x1 == x2
}

/// `wave` has at most one result on every choice of parameters and abscissa.
pub open spec fn single_wave<R, W: Fn(R, R, R, R) -> R>(wave: W) -> bool {
    forall|a: R, f: R, x: R, phi: R, y1: R, y2: R|
        #[trigger] call_ensures(wave, (a, f, x, phi), y1) && #[trigger] call_ensures(
            wave,
            (a, f, x, phi),
            y2,
        ) ==> y1 == y2
}

/// `sum` has at most one result on every pair of values.
pub open spec fn single_sum<R, S: Fn(R, R) -> R>(sum: S) -> bool {
    forall|a: R, b: R, y1: R, y2: R|
        #[trigger] call_ensures(sum, (a, b), y1) && #[trigger] call_ensures(sum, (a, b), y2)
            ==> y1 == y2
}

/// Under `before`, the abscissas that `abscissa` gives grow strictly with the
/// grid index.
pub open spec fn rising<R, X: Fn(usize) -> R>(abscissa: X, before: spec_fn(R, R) -> bool) -> bool {
    forall|j: usize, k: usize, xj: R, xk: R|
        j < k <= INTERVALS && #[trigger] call_ensures(abscissa, (j,), xj) && #[trigger] call_ensures(
            abscissa,
            (k,),
            xk,
        ) ==> before(xj, xk)
}

/// Under `step`, each abscissa that `abscissa` gives is one step after that of
/// the index before it.
pub open spec fn evenly_spaced<R, X: Fn(usize) -> R>(
    abscissa: X,
    step: spec_fn(R, R) -> bool,
) -> bool {
    forall|j: usize, k: usize, xj: R, xk: R|
        j + 1 == k <= INTERVALS && #[trigger] call_ensures(abscissa, (j,), xj)
            && #[trigger] call_ensures(abscissa, (k,), xk) ==> step(xj, xk)
}

/// Sampling is determined by its inputs: where the abscissa and the waveform
/// each have one result, any two samplings with the same parameters are the
/// same sequence.
pub proof fn lemma_sampling_is_determined<R, X: Fn(usize) -> R, W: Fn(R, R, R, R) -> R>(
    params: SignalParameters<R>,
    abscissa: X,
    wave: W,
    first: Seq<SamplePoint<R>>,
    second: Seq<SamplePoint<R>>,
)
    requires
        single_abscissa(abscissa),
        single_wave(wave),
        tabulates(first, params, abscissa, wave),
        tabulates(second, params, abscissa, wave),
    ensures
        first == second,
{
    assert forall|k: int| 0 <= k < first.len() implies first[k] == second[k] by {
        assert(abscissa_at(abscissa, k, first[k].x));
        assert(abscissa_at(abscissa, k, second[k].x));
        assert(first[k].x == second[k].x);
        assert(value_at(params, wave, first[k].x, first[k].y));
        assert(value_at(params, wave, second[k].x, second[k].y));
    }
    assert(first =~= second);
}

/// Combined sampling is determined by its inputs in the same way, where the
/// sum too has one result.
pub proof fn lemma_sum_sampling_is_determined<
    R,
    X: Fn(usize) -> R,
    WI: Fn(R, R, R, R) -> R,
    WQ: Fn(R, R, R, R) -> R,
    S: Fn(R, R) -> R,
>(
    i: SignalParameters<R>,
    q: SignalParameters<R>,
    abscissa: X,
    wave_i: WI,
    wave_q: WQ,
    sum: S,
    first: Seq<SamplePoint<R>>,
    second: Seq<SamplePoint<R>>,
)
    requires
        single_abscissa(abscissa),
        single_wave(wave_i),
        single_wave(wave_q),
        single_sum(sum),
        tabulates_sum(first, i, q, abscissa, wave_i, wave_q, sum),
        tabulates_sum(second, i, q, abscissa, wave_i, wave_q, sum),
    ensures
        first == second,
{
    assert forall|k: int| 0 <= k < first.len() implies first[k] == second[k] by {
        assert(abscissa_at(abscissa, k, first[k].x));
        assert(abscissa_at(abscissa, k, second[k].x));
        assert(first[k].x == second[k].x);
        assert(sum_at(i, q, wave_i, wave_q, sum, first[k].x, first[k].y));
        assert(sum_at(i, q, wave_i, wave_q, sum, second[k].x, second[k].y));
    }
    assert(first =~= second);
}

/// The combined sampling is the pointwise sum of the two single samplings:
/// the three sequences have the same length, at every grid index the three
/// points lie at the same abscissa, and the combined value is a sum of the
/// value of I and the value of Q at that index.
pub proof fn lemma_sum_is_pointwise<
    R,
    X: Fn(usize) -> R,
    WI: Fn(R, R, R, R) -> R,
    WQ: Fn(R, R, R, R) -> R,
    S: Fn(R, R) -> R,
>(
    i: SignalParameters<R>,
    q: SignalParameters<R>,
    abscissa: X,
    wave_i: WI,
    wave_q: WQ,
    sum: S,
    i_points: Seq<SamplePoint<R>>,
    q_points: Seq<SamplePoint<R>>,
    combined: Seq<SamplePoint<R>>,
)
    requires
        single_abscissa(abscissa),
        single_wave(wave_i),
        single_wave(wave_q),
        tabulates(i_points, i, abscissa, wave_i),
        tabulates(q_points, q, abscissa, wave_q),
        tabulates_sum(combined, i, q, abscissa, wave_i, wave_q, sum),
    ensures
        combined.len() == i_points.len() == q_points.len(),
        forall|k: int|
            0 <= k < POINT_COUNT ==> {
                &&& (#[trigger] combined[k]).x == i_points[k].x
                &&& combined[k].x == q_points[k].x
                &&& call_ensures(sum, (i_points[k].y, q_points[k].y), combined[k].y)
            },
{
    assert forall|k: int| 0 <= k < POINT_COUNT implies {
        &&& (#[trigger] combined[k]).x == i_points[k].x
        &&& combined[k].x == q_points[k].x
        &&& call_ensures(sum, (i_points[k].y, q_points[k].y), combined[k].y)
    } by {
        assert(abscissa_at(abscissa, k, i_points[k].x));
        assert(abscissa_at(abscissa, k, q_points[k].x));
        assert(abscissa_at(abscissa, k, combined[k].x));
        assert(value_at(i, wave_i, i_points[k].x, i_points[k].y));
        assert(value_at(q, wave_q, q_points[k].x, q_points[k].y));
        assert(sum_at(i, q, wave_i, wave_q, sum, combined[k].x, combined[k].y));
    }
}

/// A sampling spans the grid, whatever the parameters: it has one point per
/// grid index, its first point lies at the abscissa of the first index and
/// its last at that of the last. Where the abscissas grow strictly with the
/// index, so do those of the points, and where the abscissas are evenly
/// spaced, so are those of the points.
pub proof fn lemma_sampling_spans_grid<R, X: Fn(usize) -> R, W: Fn(R, R, R, R) -> R>(
    params: SignalParameters<R>,
    abscissa: X,
    wave: W,
    before: spec_fn(R, R) -> bool,
    step: spec_fn(R, R) -> bool,
    points: Seq<SamplePoint<R>>,
)
    requires
        tabulates(points, params, abscissa, wave),
    ensures
        points.len() == INTERVALS + 1,
        call_ensures(abscissa, (0usize,), points.first().x),
        call_ensures(abscissa, (INTERVALS,), points.last().x),
        rising(abscissa, before) ==> forall|j: int, k: int|
            0 <= j < k < points.len() ==> before(
                (#[trigger] points[j]).x,
                (#[trigger] points[k]).x,
            ),
        evenly_spaced(abscissa, step) ==> forall|k: int|
            0 < k < points.len() ==> step(points[k - 1].x, (#[trigger] points[k]).x),
{
    assert(abscissa_at(abscissa, 0, points[0].x));
    assert(abscissa_at(abscissa, INTERVALS as int, points[INTERVALS as int].x));
    if rising(abscissa, before) {
        assert forall|j: int, k: int| 0 <= j < k < points.len() implies before(
            (#[trigger] points[j]).x,
            (#[trigger] points[k]).x,
        ) by {
            assert(abscissa_at(abscissa, j, points[j].x));
            assert(abscissa_at(abscissa, k, points[k].x));
        }
    }
    if evenly_spaced(abscissa, step) {
        assert forall|k: int| 0 < k < points.len() implies step(
            points[k - 1].x,
            (#[trigger] points[k]).x,
        ) by {
            assert(abscissa_at(abscissa, k - 1, points[k - 1].x));
            assert(abscissa_at(abscissa, k, points[k].x));
        }
    }
}

/// With a waveform that is `zero` whenever its amplitude is `zero`, a signal
/// of amplitude `zero` samples to `zero` at every point, whatever its
/// frequency and phase.
pub proof fn lemma_zero_amplitude<R, X: Fn(usize) -> R, W: Fn(R, R, R, R) -> R>(
    params: SignalParameters<R>,
    abscissa: X,
    wave: W,
    zero: R,
    points: Seq<SamplePoint<R>>,
)
    requires
        forall|f: R, x: R, phi: R, y: R| #[trigger]
            call_ensures(wave, (zero, f, x, phi), y) ==> y == zero,
        params.amplitude == zero,
        tabulates(points, params, abscissa, wave),
    ensures
        forall|k: int| 0 <= k < points.len() ==> (#[trigger] points[k]).y == zero,
{
    assert forall|k: int| 0 <= k < points.len() implies (#[trigger] points[k]).y == zero by {
        assert(value_at(params, wave, points[k].x, points[k].y));
    }
}

} // verus!
