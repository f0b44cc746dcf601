//! From the state to the curves of one frame.

use crate::curve::{dressed_as, Curve, CurveKind};
use crate::grid::{
    covers_abscissas, covers_grid, covers_values, sample, sample_sum, tabulates, tabulates_sum,
    SamplePoint,
};
use crate::model::SignalApp;
use vstd::prelude::*;

verus! {

impl<R: Copy> SignalApp<R> {
    /// Samples I: the waveform `wave_i` with the parameters of I.
    pub fn i_points<X: Fn(usize) -> R, W: Fn(R, R, R, R) -> R>(
        &self,
        abscissa: &X,
        wave_i: &W,
    ) -> (out: Vec<SamplePoint<R>>)
        requires
            covers_grid(*abscissa),
            covers_abscissas(self.i, *abscissa, *wave_i),
        ensures
            tabulates(out@, self.i, *abscissa, *wave_i),
    {
        sample(&self.i, abscissa, wave_i)
    }

    /// Samples Q: the waveform `wave_q` with the parameters of Q.
    pub fn q_points<X: Fn(usize) -> R, W: Fn(R, R, R, R) -> R>(
        &self,
        abscissa: &X,
        wave_q: &W,
    ) -> (out: Vec<SamplePoint<R>>)
        requires
            covers_grid(*abscissa),
            covers_abscissas(self.q, *abscissa, *wave_q),
        ensures
            tabulates(out@, self.q, *abscissa, *wave_q),
    {
        sample(&self.q, abscissa, wave_q)
    }

    /// Samples the sum of I and Q, both taken on the one grid.
    pub fn iq_points<
        X: Fn(usize) -> R,
        WI: Fn(R, R, R, R) -> R,
        WQ: Fn(R, R, R, R) -> R,
        S: Fn(R, R) -> R,
    >(&self, abscissa: &X, wave_i: &WI, wave_q: &WQ, sum: &S) -> (out: Vec<SamplePoint<R>>)
        requires
            covers_grid(*abscissa),
            covers_abscissas(self.i, *abscissa, *wave_i),
            covers_abscissas(self.q, *abscissa, *wave_q),
            covers_values(self.i, self.q, *abscissa, *wave_i, *wave_q, *sum),
        ensures
            tabulates_sum(out@, self.i, self.q, *abscissa, *wave_i, *wave_q, *sum),
    {
        sample_sum(&self.i, &self.q, abscissa, wave_i, wave_q, sum)
    }

    /// The curve of I: its sampling, named "I", red, solid.
    pub fn i_line<X: Fn(usize) -> R, W: Fn(R, R, R, R) -> R>(
        &self,
        abscissa: &X,
        wave_i: &W,
    ) -> (curve: Curve<R>)
        requires
            covers_grid(*abscissa),
            covers_abscissas(self.i, *abscissa, *wave_i),
        ensures
            dressed_as(curve, CurveKind::I),
            tabulates(curve.points@, self.i, *abscissa, *wave_i),
    {
        Curve::new(CurveKind::I, self.i_points(abscissa, wave_i))
    }

    /// The curve of Q: its sampling, named "Q", blue, solid.
    pub fn q_line<X: Fn(usize) -> R, W: Fn(R, R, R, R) -> R>(
        &self,
        abscissa: &X,
        wave_q: &W,
    ) -> (curve: Curve<R>)
        requires
            covers_grid(*abscissa),
            covers_abscissas(self.q, *abscissa, *wave_q),
        ensures
            dressed_as(curve, CurveKind::Q),
            tabulates(curve.points@, self.q, *abscissa, *wave_q),
    {
        Curve::new(CurveKind::Q, self.q_points(abscissa, wave_q))
    }

    /// The curve of the sum: the combined sampling, named "IQ", black, solid.
    pub fn iq_line<
        X: Fn(usize) -> R,
        WI: Fn(R, R, R, R) -> R,
        WQ: Fn(R, R, R, R) -> R,
        S: Fn(R, R) -> R,
    >(&self, abscissa: &X, wave_i: &WI, wave_q: &WQ, sum: &S) -> (curve: Curve<R>)
        requires
            covers_grid(*abscissa),
            covers_abscissas(self.i, *abscissa, *wave_i),
            covers_abscissas(self.q, *abscissa, *wave_q),
            covers_values(self.i, self.q, *abscissa, *wave_i, *wave_q, *sum),
        ensures
            dressed_as(curve, CurveKind::IQ),
            tabulates_sum(curve.points@, self.i, self.q, *abscissa, *wave_i, *wave_q, *sum),
    {
        Curve::new(CurveKind::IQ, self.iq_points(abscissa, wave_i, wave_q, sum))
    }

    /// The three curves of one frame, in the order in which they are drawn:
    /// I, then Q, then their sum. Each is sampled afresh from the state as it
    /// stands, and the state is left as it is.
    pub fn curves<
        X: Fn(usize) -> R,
        WI: Fn(R, R, R, R) -> R,
        WQ: Fn(R, R, R, R) -> R,
        S: Fn(R, R) -> R,
    >(&self, abscissa: &X, wave_i: &WI, wave_q: &WQ, sum: &S) -> (out: Vec<Curve<R>>)
        requires
            covers_grid(*abscissa),
            covers_abscissas(self.i, *abscissa, *wave_i),
            covers_abscissas(self.q, *abscissa, *wave_q),
            covers_values(self.i, self.q, *abscissa, *wave_i, *wave_q, *sum),
        ensures
            out@.len() == 3,
            dressed_as(out@[0], CurveKind::I),
            tabulates(out@[0].points@, self.i, *abscissa, *wave_i),
            dressed_as(out@[1], CurveKind::Q),
            tabulates(out@[1].points@, self.q, *abscissa, *wave_q),
            dressed_as(out@[2], CurveKind::IQ),
            tabulates_sum(out@[2].points@, self.i, self.q, *abscissa, *wave_i, *wave_q, *sum),
    {
        let mut out: Vec<Curve<R>> = Vec::with_capacity(3);
        out.push(self.i_line(abscissa, wave_i));
        out.push(self.q_line(abscissa, wave_q));
        out.push(self.iq_line(abscissa, wave_i, wave_q, sum));
        out
    }
}

} // verus!
