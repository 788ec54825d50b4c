//! The PWM engine: two channels of one timer that carry the same duty and
//! drive the two sides of a bridge. The output is gated by the polarity of
//! the complementary outputs, never by stopping a channel, so the timer and
//! its period interrupt keep running while the load sees no voltage.
//!
//! The engine here is the state that the registers are programmed from; the
//! register writes themselves are left to the caller.

use vstd::prelude::*;

verus! {

/// The level at which an output is active.
#[derive(Clone, Copy, Debug, PartialEq, Eq)]
pub enum Polarity {
    ActiveHigh,
    ActiveLow,
}

/// One of the two channels of the timer.
#[derive(Clone, Copy, Debug, PartialEq, Eq)]
pub enum Channel {
    C1,
    C2,
}

/// The polarity of a channel's primary output, fixed at start-up.
pub open spec fn primary_polarity_of(channel: Channel) -> Polarity {
    match channel {
        Channel::C1 => Polarity::ActiveHigh,
        Channel::C2 => Polarity::ActiveLow,
    }
}

/// The other polarity.
pub open spec fn inverse_of(polarity: Polarity) -> Polarity {
    match polarity {
        Polarity::ActiveHigh => Polarity::ActiveLow,
        Polarity::ActiveLow => Polarity::ActiveHigh,
    }
}

/// The polarity of a channel's complementary output while the output is
/// enabled, or while it is not.
pub open spec fn complementary_polarity_of(channel: Channel, enabled: bool) -> Polarity {
    match channel {
        Channel::C1 => if enabled {
            Polarity::ActiveLow
        } else {
            Polarity::ActiveHigh
        },
        Channel::C2 => if enabled {
            Polarity::ActiveHigh
        } else {
            Polarity::ActiveLow
        },
    }
}

/// Gating works on the polarity flags alone. While the output is enabled the
/// complementary polarity of each channel is the inverse of its primary
/// polarity; while it is disabled the two are the same, so both sides of the
/// bridge are driven alike.
pub proof fn lemma_gate_by_polarity(channel: Channel, enabled: bool)
    ensures
        enabled ==> complementary_polarity_of(channel, enabled) == inverse_of(
            primary_polarity_of(channel),
        ),
        !enabled ==> complementary_polarity_of(channel, enabled) == primary_polarity_of(channel),
{
}

/// The polarity to program a channel's primary output with.
pub fn primary_polarity(channel: Channel) -> (polarity: Polarity)
    ensures
        polarity == primary_polarity_of(channel),
{
    match channel {
        Channel::C1 => Polarity::ActiveHigh,
        Channel::C2 => Polarity::ActiveLow,
    }
}

/// The polarity to program a channel's complementary output with, to enable
/// or disable the output.
pub fn complementary_polarity(channel: Channel, enabled: bool) -> (polarity: Polarity)
    ensures
        polarity == complementary_polarity_of(channel, enabled),
{
    match channel {
        Channel::C1 => if enabled {
            Polarity::ActiveLow
        } else {
            Polarity::ActiveHigh
        },
        Channel::C2 => if enabled {
            Polarity::ActiveHigh
        } else {
            Polarity::ActiveLow
        },
    }
}

/// What the engine holds: the full duty of the timer, the duty that both
/// channels carry, and whether the output is enabled.
pub struct PwmState {
    pub max_duty: u16,
    pub duty: u16,
    pub enabled: bool,
}

impl PwmState {
    /// The state right after start-up: midscale duty, output disabled.
    pub open spec fn power_up(max_duty: u16) -> PwmState {
        PwmState { max_duty, duty: max_duty / 2, enabled: false }
    }

    /// The state with another duty.
    pub open spec fn with_duty(self, duty: u16) -> PwmState {
        PwmState { duty, ..self }
    }

    /// The state with the output enabled or disabled.
    pub open spec fn with_enabled(self, enabled: bool) -> PwmState {
        PwmState { enabled, ..self }
    }

    /// The polarity that a channel's complementary output has in this state.
    pub open spec fn complementary(self, channel: Channel) -> Polarity {
        complementary_polarity_of(channel, self.enabled)
    }
}

/// Enabling or disabling the output a second time with the same argument
/// changes nothing: neither the state nor any polarity programmed from it.
/// Doing so on a state that is already as asked changes nothing either.
pub proof fn lemma_set_enabled_idempotent(state: PwmState, enabled: bool)
    ensures
        state.with_enabled(enabled).with_enabled(enabled) == state.with_enabled(enabled),
        forall|channel: Channel|
            state.with_enabled(enabled).with_enabled(enabled).complementary(channel)
                == #[trigger] state.with_enabled(enabled).complementary(channel),
        state.enabled == enabled ==> state.with_enabled(enabled) == state,
{
}

/// The engine. Its duty never exceeds the full duty of the timer.
#[derive(Clone, Copy, Debug)]
pub struct PwmEngine {
    max_duty: u16,
    duty: u16,
    enabled: bool,
}

impl View for PwmEngine {
    type V = PwmState;

    closed spec fn view(&self) -> PwmState {
        PwmState { max_duty: self.max_duty, duty: self.duty, enabled: self.enabled }
    }
}

impl PwmEngine {
    #[verifier::type_invariant]
    closed spec fn duty_in_range(self) -> bool {
        self.duty <= self.max_duty
    }

    /// The engine as start-up leaves it: both channels at midscale, which
    /// balances the bridge, and the output disabled.
    pub fn new(max_duty: u16) -> (pwm: Self)
        ensures
            pwm@ == PwmState::power_up(max_duty),
    {
        PwmEngine { max_duty, duty: max_duty / 2, enabled: false }
    }

    /// Sets the duty of both channels.
    pub fn set_duty(&mut self, duty: u16)
        requires
            duty <= old(self)@.max_duty,
        ensures
            final(self)@ == old(self)@.with_duty(duty),
    {
        self.duty = duty;
    }

    /// Enables or disables the output.
    pub fn set_enabled(&mut self, enabled: bool)
        ensures
            final(self)@ == old(self)@.with_enabled(enabled),
    {
        proof {
            use_type_invariant(&*self);
        }
        self.enabled = enabled;
    }

    /// The full duty of the timer.
    pub fn max_duty(&self) -> (max_duty: u16)
        ensures
            max_duty == self@.max_duty,
    {
        self.max_duty
    }

    /// The duty that both channels carry.
    pub fn duty(&self) -> (duty: u16)
        ensures
            duty == self@.duty,
            duty <= self@.max_duty,
    {
        proof {
            use_type_invariant(self);
        }
        self.duty
    }

    /// Whether the output is enabled.
    pub fn is_enabled(&self) -> (enabled: bool)
        ensures
            enabled == self@.enabled,
    {
        self.enabled
    }

    /// The polarity that a channel's complementary output is to have now.
    pub fn complementary(&self, channel: Channel) -> (polarity: Polarity)
        ensures
            polarity == self@.complementary(channel),
    {
        complementary_polarity(channel, self.enabled)
    }
}

} // verus!
