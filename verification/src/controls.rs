//! The numeric controls through which the two signals are edited.

use crate::model::{Parameter, Signal};
use vstd::prelude::*;

verus! {

/// A numeric control: it edits one parameter of one signal.
#[derive(Clone, Copy, Debug, PartialEq, Eq, Structural)]
pub struct Control {
    pub signal: Signal,
    pub parameter: Parameter,
}

/// The text shown in front of a control's number.
pub open spec fn label_of(control: Control) -> Seq<char> {
    match (control.signal, control.parameter) {
        (Signal::I, Parameter::Amplitude) => "I A:"@,
        (Signal::I, Parameter::Frequency) => "I f:"@,
        (Signal::I, Parameter::Phase) => "I phi:"@,
        (Signal::Q, Parameter::Amplitude) => "Q A:"@,
        (Signal::Q, Parameter::Frequency) => "Q f:"@,
        (Signal::Q, Parameter::Phase) => "Q phi:"@,
    }
}

/// The step of a control, in tenths: a tenth for amplitude and phase, one
/// for frequency.
pub open spec fn step_tenths_of(control: Control) -> nat {
    match control.parameter {
        Parameter::Amplitude => 1,
        Parameter::Frequency => 10,
        Parameter::Phase => 1,
    }
}

/// The controls in the order in which they are laid out: the three of I, then
/// the three of Q, each as amplitude, frequency, phase.
pub open spec fn layout() -> Seq<Control> {
    seq![
        (Control { signal: Signal::I, parameter: Parameter::Amplitude }),
        (Control { signal: Signal::I, parameter: Parameter::Frequency }),
        (Control { signal: Signal::I, parameter: Parameter::Phase }),
        (Control { signal: Signal::Q, parameter: Parameter::Amplitude }),
        (Control { signal: Signal::Q, parameter: Parameter::Frequency }),
        (Control { signal: Signal::Q, parameter: Parameter::Phase }),
    ]
}

impl Control {
    /// The text shown in front of this control's number.
    pub fn label(&self) -> (label: &'static str)
        ensures
            label@ == label_of(*self),
    {
        match (self.signal, self.parameter) {
            (Signal::I, Parameter::Amplitude) => "I A:",
            (Signal::I, Parameter::Frequency) => "I f:",
            (Signal::I, Parameter::Phase) => "I phi:",
            (Signal::Q, Parameter::Amplitude) => "Q A:",
            (Signal::Q, Parameter::Frequency) => "Q f:",
            (Signal::Q, Parameter::Phase) => "Q phi:",
        }
    }

    /// The step of this control, in tenths.
    pub fn step_tenths(&self) -> (tenths: u32)
        ensures
            tenths == step_tenths_of(*self),
    {
        match self.parameter {
            Parameter::Amplitude => 1,
            Parameter::Frequency => 10,
            Parameter::Phase => 1,
        }
    }
}

/// The six controls, in layout order.
pub fn controls() -> (out: Vec<Control>)
    ensures
        out@ == layout(),
{
    let mut out: Vec<Control> = Vec::with_capacity(6);
    out.push(Control { signal: Signal::I, parameter: Parameter::Amplitude });
    out.push(Control { signal: Signal::I, parameter: Parameter::Frequency });
    out.push(Control { signal: Signal::I, parameter: Parameter::Phase });
    out.push(Control { signal: Signal::Q, parameter: Parameter::Amplitude });
    out.push(Control { signal: Signal::Q, parameter: Parameter::Frequency });
    out.push(Control { signal: Signal::Q, parameter: Parameter::Phase });
    assert(out@ =~= layout());
    out
}

/// Every parameter of every signal has exactly one control in the layout.
pub proof fn lemma_layout_is_complete(control: Control)
    ensures
        exists|k: int| 0 <= k < 6 && #[trigger] layout()[k] == control,
        forall|j: int, k: int|
            0 <= j < 6 && 0 <= k < 6 && #[trigger] layout()[j] == control && #[trigger] layout()[k]
                == control ==> j == k,
{
    let k: int = match (control.signal, control.parameter) {
        (Signal::I, Parameter::Amplitude) => 0,
        (Signal::I, Parameter::Frequency) => 1,
        (Signal::I, Parameter::Phase) => 2,
        (Signal::Q, Parameter::Amplitude) => 3,
        (Signal::Q, Parameter::Frequency) => 4,
        (Signal::Q, Parameter::Phase) => 5,
    };
    assert(layout()[k] == control);
}

} // verus!
