//! The gating policy: a run of silent samples that lasts longer than a
//! threshold parks the output, and the first sample that is not silent
//! releases it again.

use vstd::prelude::*;

verus! {

/// The number of consecutive zero samples that the output stays enabled for.
/// One more disables it.
pub const NO_SIGNAL_SAMPLES: usize = 20000;

/// What the gating policy asks of the PWM engine after a sample.
#[derive(Clone, Copy, Debug, PartialEq, Eq)]
pub enum GateCommand {
    /// Leave the output as it is.
    Hold,
    /// Enable the output, whether or not it already is.
    Enable,
    /// Disable the output, whether or not it already is.
    Disable,
}

/// The zero-run counter after a sample: cleared by any sample that is not
/// zero, otherwise one more, and stuck at the largest value it can hold.
pub open spec fn count_after(zero_run: usize, sample: i16) -> usize {
    if sample != 0 {
        0
    } else if zero_run < usize::MAX {
        (zero_run + 1) as usize
    } else {
        zero_run
    }
}

/// The command a sample gives rise to, from the counter before it.
pub open spec fn command_for(zero_run: usize, sample: i16) -> GateCommand {
    if sample != 0 {
        GateCommand::Enable
    } else if count_after(zero_run, sample) > NO_SIGNAL_SAMPLES {
        GateCommand::Disable
    } else {
        GateCommand::Hold
    }
}

/// Whether the output is enabled once `command` has been carried out on an
/// output that was enabled or not as `enabled` says.
pub open spec fn enabled_after(enabled: bool, command: GateCommand) -> bool {
    match command {
        GateCommand::Hold => enabled,
        GateCommand::Enable => true,
        GateCommand::Disable => false,
    }
}

/// The zero-run counter. Its view is the number of zero samples seen since
/// the last sample that was not zero, as far as a `usize` can count.
#[derive(Clone, Copy, Debug)]
pub struct SilenceGate {
    zero_run: usize,
}

impl View for SilenceGate {
    type V = usize;

    closed spec fn view(&self) -> usize {
        self.zero_run
    }
}

impl SilenceGate {
    /// The counter at power-up: already past the threshold, so that the output
    /// stays parked until a sample that is not zero arrives.
    pub fn new() -> (gate: Self)
        ensures
            gate@ == NO_SIGNAL_SAMPLES + 1,
    {
        SilenceGate { zero_run: NO_SIGNAL_SAMPLES + 1 }
    }

    /// Takes note of one sample and says what to do with the output.
    pub fn observe(&mut self, sample: i16) -> (command: GateCommand)
        ensures
            final(self)@ == count_after(old(self)@, sample),
            command == command_for(old(self)@, sample),
    {
        if sample == 0 {
            self.zero_run = self.zero_run.saturating_add(1);
            if self.zero_run > NO_SIGNAL_SAMPLES {
                GateCommand::Disable
            } else {
                GateCommand::Hold
            }
        } else {
            self.zero_run = 0;
            GateCommand::Enable
        }
    }

    /// The counter's present value.
    pub fn zero_run(&self) -> (count: usize)
        ensures
            count == self@,
    {
        self.zero_run
    }
}

} // verus!
