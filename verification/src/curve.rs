//! Named, coloured curves built from sampled points.

use crate::grid::SamplePoint;
use vstd::prelude::*;

verus! {

/// Which of the three displayed curves a curve is.
#[derive(Clone, Copy, Debug, PartialEq, Eq, Structural)]
pub enum CurveKind {
    /// The first signal alone.
    I,
    /// The second signal alone.
    Q,
    /// The sum of the two signals.
    IQ,
}

/// How a curve is stroked. Every curve here is drawn as an unbroken line.
#[derive(Clone, Copy, Debug, PartialEq, Eq, Structural)]
pub enum LineStyle {
    /// An unbroken line.
    Solid,
}

/// An opaque colour by its red, green and blue parts.
#[derive(Clone, Copy, Debug, PartialEq, Eq, Structural)]
pub struct Rgb {
    pub r: u8,
    pub g: u8,
    pub b: u8,
}

/// A sequence of sampled points together with what the display needs to draw
/// it: the name shown in the legend, the colour and the stroke.
#[derive(Debug)]
pub struct Curve<R> {
    pub name: &'static str,
    pub color: Rgb,
    pub style: LineStyle,
    pub points: Vec<SamplePoint<R>>,
}

/// The name under which a curve of the given kind is displayed.
pub open spec fn name_of(kind: CurveKind) -> Seq<char> {
    match kind {
        CurveKind::I => "I"@,
        CurveKind::Q => "Q"@,
        CurveKind::IQ => "IQ"@,
    }
}

/// The colour of a curve of the given kind: red for I, blue for Q, black for
/// the sum.
pub open spec fn color_of(kind: CurveKind) -> Rgb {
    match kind {
        CurveKind::I => (Rgb { r: 255, g: 0, b: 0 }),
        CurveKind::Q => (Rgb { r: 0, g: 0, b: 255 }),
        CurveKind::IQ => (Rgb { r: 0, g: 0, b: 0 }),
    }
}

/// `curve` carries the name, colour and stroke of the given kind.
pub open spec fn dressed_as<R>(curve: Curve<R>, kind: CurveKind) -> bool {
    &&& curve.name@ == name_of(kind)
    &&& curve.color == color_of(kind)
    &&& curve.style == LineStyle::Solid
}

impl CurveKind {
    /// The display name of this kind of curve.
    pub fn name(self) -> (name: &'static str)
        ensures
            name@ == name_of(self),
    {
        match self {
            CurveKind::I => "I",
            CurveKind::Q => "Q",
            CurveKind::IQ => "IQ",
        }
    }

    /// The colour of this kind of curve.
    pub fn color(self) -> (color: Rgb)
        ensures
            color == color_of(self),
    {
        match self {
            CurveKind::I => Rgb { r: 255, g: 0, b: 0 },
            CurveKind::Q => Rgb { r: 0, g: 0, b: 255 },
            CurveKind::IQ => Rgb { r: 0, g: 0, b: 0 },
        }
    }
}

impl<R> Curve<R> {
    /// Dresses sampled points as a curve of the given kind. The points are
    /// kept as they are.
    pub fn new(kind: CurveKind, points: Vec<SamplePoint<R>>) -> (curve: Self)
        ensures
            dressed_as(curve, kind),
            curve.points == points,
    {
        Curve { name: kind.name(), color: kind.color(), style: LineStyle::Solid, points }
    }
}

} // verus!
