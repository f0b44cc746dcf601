//! The parameters of the two signals.

use vstd::prelude::*;

verus! {

/// One of the two signals.
#[derive(Clone, Copy, Debug, PartialEq, Eq, Structural)]
pub enum Signal {
    I,
    Q,
}

/// One of the three parameters of a signal.
#[derive(Clone, Copy, Debug, PartialEq, Eq, Structural)]
pub enum Parameter {
    Amplitude,
    Frequency,
    Phase,
}

/// The parameters of one sinusoid. Every value is admitted: none is checked
/// or corrected.
#[derive(Clone, Copy, Debug, PartialEq)]
pub struct SignalParameters<R> {
    pub amplitude: R,
    pub frequency: R,
    pub phase: R,
}

/// The whole state of the display: the parameters of I and those of Q.
#[derive(Clone, Copy, Debug, PartialEq)]
pub struct SignalApp<R> {
    pub i: SignalParameters<R>,
    pub q: SignalParameters<R>,
}

impl<R: Copy> SignalParameters<R> {
    /// The value of one parameter.
    pub open spec fn value_of(self, parameter: Parameter) -> R {
        match parameter {
            Parameter::Amplitude => self.amplitude,
            Parameter::Frequency => self.frequency,
            Parameter::Phase => self.phase,
        }
    }

    /// These parameters with one of them replaced.
    pub open spec fn with(self, parameter: Parameter, value: R) -> Self {
        match parameter {
            Parameter::Amplitude => (SignalParameters { amplitude: value, ..self }),
            Parameter::Frequency => (SignalParameters { frequency: value, ..self }),
            Parameter::Phase => (SignalParameters { phase: value, ..self }),
        }
    }

    /// Reads one parameter.
    pub fn get(&self, parameter: Parameter) -> (value: R)
        ensures
            value == self.value_of(parameter),
    {
        match parameter {
            Parameter::Amplitude => self.amplitude,
            Parameter::Frequency => self.frequency,
            Parameter::Phase => self.phase,
        }
    }

    /// Writes one parameter and leaves the other two as they were.
    pub fn set(&mut self, parameter: Parameter, value: R)
        ensures
            *final(self) == old(self).with(parameter, value),
    {
        match parameter {
            Parameter::Amplitude => {
                self.amplitude = value;
            },
            Parameter::Frequency => {
                self.frequency = value;
            },
            Parameter::Phase => {
                self.phase = value;
            },
        }
    }
}

impl<R: Copy> SignalApp<R> {
    /// The parameters of one signal.
    pub open spec fn signal(self, signal: Signal) -> SignalParameters<R> {
        match signal {
            Signal::I => self.i,
            Signal::Q => self.q,
        }
    }

    /// The value of one parameter of one signal.
    pub open spec fn value_of(self, signal: Signal, parameter: Parameter) -> R {
        self.signal(signal).value_of(parameter)
    }

    /// This state with one parameter of one signal replaced.
    pub open spec fn with(self, signal: Signal, parameter: Parameter, value: R) -> Self {
        match signal {
            Signal::I => (SignalApp { i: self.i.with(parameter, value), q: self.q }),
            Signal::Q => (SignalApp { i: self.i, q: self.q.with(parameter, value) }),
        }
    }

    /// The state with which a session starts: both signals with the same
    /// given parameters.
    pub fn new(initial: SignalParameters<R>) -> (app: Self)
        ensures
            app.i == initial,
            app.q == initial,
    {
        SignalApp { i: initial, q: initial }
    }

    /// Reads one parameter of one signal.
    pub fn get(&self, signal: Signal, parameter: Parameter) -> (value: R)
        ensures
            value == self.value_of(signal, parameter),
    {
        match signal {
            Signal::I => self.i.get(parameter),
            Signal::Q => self.q.get(parameter),
        }
    }

    /// Writes one parameter of one signal. The other signal and the other two
    /// parameters of this one stay as they were.
    pub fn set(&mut self, signal: Signal, parameter: Parameter, value: R)
        ensures
            *final(self) == old(self).with(signal, parameter, value),
    {
        match signal {
            Signal::I => {
                self.i.set(parameter, value);
            },
            Signal::Q => {
                self.q.set(parameter, value);
            },
        }
    }
}

/// A written parameter reads back as written, and every other parameter of
/// either signal reads as it did before the write.
pub proof fn lemma_write_then_read<R: Copy>(
    app: SignalApp<R>,
    signal: Signal,
    parameter: Parameter,
    value: R,
    other_signal: Signal,
    other_parameter: Parameter,
)
    ensures
        app.with(signal, parameter, value).value_of(signal, parameter) == value,
        (other_signal != signal || other_parameter != parameter) ==> app.with(
            signal,
            parameter,
            value,
        ).value_of(other_signal, other_parameter) == app.value_of(other_signal, other_parameter),
{
}

} // verus!
