//! The sample pump: the work done once per carrier period. It takes one
//! sample from the ring, or a zero when the ring is empty, lets the gating
//! policy see it, and sets the duty of both channels from it.

use vstd::prelude::*;
use crate::duty::{duty, duty_of};
use crate::gate::{
    command_for,
    count_after,
    enabled_after,
    GateCommand,
    SilenceGate,
    NO_SIGNAL_SAMPLES,
};
use crate::pwm::{PwmEngine, PwmState};
use crate::queue::consumer_dequeue;
use crate::ring::{after_dequeue, front, SampleRing, RING_SLOTS};

verus! {

/// What the pump holds between periods: the engine's state and the zero-run
/// counter.
pub struct PumpState {
    pub pwm: PwmState,
    pub zero_run: usize,
}

/// The sample that a period works on: the one dequeued, or a synthesised
/// zero on underrun.
pub open spec fn sample_or_silence(dequeued: Option<i16>) -> i16 {
    match dequeued {
        Some(sample) => sample,
        None => 0,
    }
}

/// A run of `n` zero samples.
pub open spec fn silence(n: nat) -> Seq<i16> {
    Seq::new(n, |i: int| 0i16)
}

impl PumpState {
    /// The duty is within the timer's range, and the output is enabled
    /// exactly while the zero run has not passed the threshold.
    pub open spec fn wf(self) -> bool {
        &&& self.pwm.duty <= self.pwm.max_duty
        &&& self.pwm.enabled <==> self.zero_run <= NO_SIGNAL_SAMPLES
    }

    /// The state before any sample has been processed.
    pub open spec fn power_up(max_duty: u16) -> PumpState {
        PumpState {
            pwm: PwmState::power_up(max_duty),
            zero_run: (NO_SIGNAL_SAMPLES + 1) as usize,
        }
    }

    /// The state after a period that worked on `sample`.
    pub open spec fn after(self, sample: i16) -> PumpState {
        PumpState {
            pwm: self.pwm.with_enabled(
                enabled_after(self.pwm.enabled, command_for(self.zero_run, sample)),
            ).with_duty(duty_of(self.pwm.max_duty as int, sample as int) as u16),
            zero_run: count_after(self.zero_run, sample),
        }
    }

    /// The state after one period for each of `samples`, in order.
    pub open spec fn after_all(self, samples: Seq<i16>) -> PumpState
        decreases samples.len(),
    {
        if samples.len() == 0 {
            self
        } else {
            self.after_all(samples.drop_last()).after(samples.last())
        }
    }
}

/// What one period did, for the caller to carry out on the hardware and to
/// log.
#[derive(Clone, Copy, Debug, PartialEq, Eq)]
pub struct PeriodReport {
    /// The sample the period worked on.
    pub sample: i16,
    /// Whether the ring was empty, so that `sample` is a synthesised zero.
    pub underrun: bool,
    /// What the gating policy asked for.
    pub gate: GateCommand,
    /// The duty written to both channels.
    pub duty: u16,
}

/// The report of a period that starts in `state` and is handed `dequeued`.
pub open spec fn report_for(state: PumpState, dequeued: Option<i16>) -> PeriodReport {
    PeriodReport {
        sample: sample_or_silence(dequeued),
        underrun: dequeued is None,
        gate: command_for(state.zero_run, sample_or_silence(dequeued)),
        duty: duty_of(state.pwm.max_duty as int, sample_or_silence(dequeued) as int) as u16,
    }
}

/// A period keeps the state well-formed, and never changes the full duty.
pub proof fn lemma_period_keeps_wf(state: PumpState, sample: i16)
    requires
        state.wf(),
    ensures
        state.after(sample).wf(),
        state.after(sample).pwm.max_duty == state.pwm.max_duty,
{
    crate::duty::lemma_duty_bounds(state.pwm.max_duty, sample);
}

/// What a run of `k` zero samples does to a well-formed state: the counter
/// grows by `k`, as far as it can count.
proof fn lemma_after_silence(state: PumpState, k: nat)
    requires
        state.wf(),
    ensures
        state.after_all(silence(k)).wf(),
        state.after_all(silence(k)).pwm.max_duty == state.pwm.max_duty,
        state.after_all(silence(k)).zero_run == if state.zero_run + k <= usize::MAX {
            state.zero_run + k
        } else {
            usize::MAX as int
        },
    decreases k,
{
    if k > 0 {
        let shorter = (k - 1) as nat;
        assert(silence(k).drop_last() == silence(shorter));
        lemma_after_silence(state, shorter);
        lemma_period_keeps_wf(state.after_all(silence(shorter)), 0);
    }
}

/// Silence gate latency. From a well-formed state whose counter stands at
/// `c`, the output is enabled after `k` more zero samples exactly if
/// `c + k` has not passed `NO_SIGNAL_SAMPLES`.
pub proof fn lemma_silence_gate_latency(state: PumpState, k: nat)
    requires
        state.wf(),
    ensures
        state.after_all(silence(k)).pwm.enabled <==> state.zero_run + k <= NO_SIGNAL_SAMPLES,
{
    lemma_after_silence(state, k);
}

/// Silence gate latency, counted from the sample that enabled the output.
/// Whatever came before, after a sample that is not zero the output stays
/// enabled through `NO_SIGNAL_SAMPLES` consecutive zeros and is disabled by
/// the one after.
pub proof fn lemma_silence_after_signal(state: PumpState, sample: i16, k: nat)
    requires
        sample != 0,
    ensures
        state.after(sample).after_all(silence(k)).pwm.enabled <==> k <= NO_SIGNAL_SAMPLES,
{
    crate::duty::lemma_duty_bounds(state.pwm.max_duty, sample);
    lemma_after_silence(state.after(sample), k);
}

/// Silence gate release. Whatever came before, one sample that is not zero
/// enables the output and clears the counter.
pub proof fn lemma_silence_gate_release(state: PumpState, sample: i16)
    requires
        sample != 0,
    ensures
        state.after(sample).pwm.enabled,
        state.after(sample).zero_run == 0,
{
}

/// Power-up muted. Before any sample is processed the output is disabled,
/// and it stays so for as long as nothing but zeros arrive.
pub proof fn lemma_power_up_muted(max_duty: u16, k: nat)
    ensures
        PumpState::power_up(max_duty).wf(),
        !PumpState::power_up(max_duty).pwm.enabled,
        !PumpState::power_up(max_duty).after_all(silence(k)).pwm.enabled,
{
    lemma_after_silence(PumpState::power_up(max_duty), k);
}

/// The pump's state and the ring's contents after `periods` periods during
/// which nothing is enqueued.
pub open spec fn after_periods(state: PumpState, contents: Seq<i16>, periods: nat) -> (
    PumpState,
    Seq<i16>,
)
    decreases periods,
{
    if periods == 0 {
        (state, contents)
    } else {
        after_periods(
            state.after(sample_or_silence(front(contents))),
            after_dequeue(contents),
            (periods - 1) as nat,
        )
    }
}

/// A run of periods can be split after its first sample as well as before
/// its last.
proof fn lemma_after_all_from_front(state: PumpState, samples: Seq<i16>)
    requires
        samples.len() > 0,
    ensures
        state.after_all(samples) == state.after(samples.first()).after_all(samples.drop_first()),
    decreases samples.len(),
{
    let back_cut = samples.drop_last();
    assert(state.after_all(samples) == state.after_all(back_cut).after(samples.last()));
    if samples.len() > 1 {
        lemma_after_all_from_front(state, back_cut);
        assert(back_cut.drop_first() == samples.drop_first().drop_last());
    }
}

/// The pump works through what the ring holds in the order it was enqueued:
/// draining a ring leaves the pump where one period for each held sample,
/// oldest first, leaves it.
pub proof fn lemma_pump_follows_ring(state: PumpState, contents: Seq<i16>)
    ensures
        after_periods(state, contents, contents.len()).0 == state.after_all(contents),
        after_periods(state, contents, contents.len()).1.len() == 0,
    decreases contents.len(),
{
    if contents.len() > 0 {
        lemma_after_all_from_front(state, contents);
        lemma_pump_follows_ring(state.after(contents.first()), contents.drop_first());
    }
}

/// On an empty ring that stays empty, every period is an underrun and
/// counts as a zero sample.
proof fn lemma_underruns(state: PumpState, periods: nat)
    requires
        state.wf(),
    ensures
        after_periods(state, Seq::<i16>::empty(), periods).0.wf(),
        after_periods(state, Seq::<i16>::empty(), periods).1 == Seq::<i16>::empty(),
        after_periods(state, Seq::<i16>::empty(), periods).0.zero_run == if state.zero_run
            + periods <= usize::MAX {
            state.zero_run + periods
        } else {
            usize::MAX as int
        },
    decreases periods,
{
    if periods > 0 {
        lemma_period_keeps_wf(state, 0);
        lemma_underruns(state.after(0), (periods - 1) as nat);
    }
}

/// When the producer stops, the output does not stay on. The pump drains
/// what the ring still holds, one sample per period, and from then on every
/// period is an underrun; once more periods have passed than the ring held
/// samples plus `NO_SIGNAL_SAMPLES`, the ring is empty and the output is
/// disabled.
pub proof fn lemma_starved_pump_mutes(state: PumpState, contents: Seq<i16>, periods: nat)
    requires
        state.wf(),
        periods > contents.len() + NO_SIGNAL_SAMPLES,
    ensures
        !after_periods(state, contents, periods).0.pwm.enabled,
        after_periods(state, contents, periods).1.len() == 0,
    decreases periods,
{
    if contents.len() == 0 {
        assert(contents == Seq::<i16>::empty());
        lemma_underruns(state, periods);
    } else {
        lemma_period_keeps_wf(state, contents.first());
        lemma_starved_pump_mutes(
            state.after(contents.first()),
            contents.drop_first(),
            (periods - 1) as nat,
        );
    }
}

/// The pump. Its view is a well-formed `PumpState`.
pub struct SamplePump {
    pwm: PwmEngine,
    gate: SilenceGate,
}

impl View for SamplePump {
    type V = PumpState;

    closed spec fn view(&self) -> PumpState {
        PumpState { pwm: self.pwm@, zero_run: self.gate@ }
    }
}

impl SamplePump {
    #[verifier::type_invariant]
    closed spec fn gate_agrees(self) -> bool {
        self.pwm@.enabled <==> self.gate@ <= NO_SIGNAL_SAMPLES
    }

    /// The pump at power-up, on a timer whose full duty is `max_duty`: the
    /// output disabled, both channels at midscale.
    pub fn new(max_duty: u16) -> (pump: Self)
        ensures
            pump@ == PumpState::power_up(max_duty),
            pump@.wf(),
    {
        SamplePump { pwm: PwmEngine::new(max_duty), gate: SilenceGate::new() }
    }

    /// Runs one period on what the ring's consumer returned.
    pub fn process(&mut self, dequeued: Option<i16>) -> (report: PeriodReport)
        ensures
            final(self)@ == old(self)@.after(sample_or_silence(dequeued)),
            report == report_for(old(self)@, dequeued),
            final(self)@.wf(),
    {
        proof {
            use_type_invariant(&*self);
        }
        let mut pwm = self.pwm;
        let mut gate = self.gate;
        let (sample, underrun) = match dequeued {
            Some(sample) => (sample, false),
            None => (0i16, true),
        };
        let command = gate.observe(sample);
        match command {
            GateCommand::Hold => {},
            GateCommand::Enable => pwm.set_enabled(true),
            GateCommand::Disable => pwm.set_enabled(false),
        }
        let duty = duty(pwm.max_duty(), sample);
        pwm.set_duty(duty);
        *self = SamplePump { pwm, gate };
        PeriodReport { sample, underrun, gate: command, duty }
    }

    /// Runs one period on the ring: takes its oldest sample, if it has one,
    /// and processes it.
    pub fn service(&mut self, ring: &mut SampleRing) -> (report: PeriodReport)
        ensures
            final(ring)@ == after_dequeue(old(ring)@),
            final(self)@ == old(self)@.after(sample_or_silence(front(old(ring)@))),
            report == report_for(old(self)@, front(old(ring)@)),
            final(self)@.wf(),
    {
        let dequeued = ring.dequeue();
        self.process(dequeued)
    }

    /// Runs one period on the consumer end of a split queue. With the
    /// producer at work on the other end, what is dequeued is not for this
    /// side to say: the report tells, and the period is the one that
    /// `process` runs on it.
    pub fn service_from(
        &mut self,
        consumer: &mut heapless::spsc::Consumer<'_, i16, RING_SLOTS>,
    ) -> (report: PeriodReport)
        ensures
            final(self)@ == old(self)@.after(report.sample),
            report == report_for(
                old(self)@,
                if report.underrun {
                    None
                } else {
                    Some(report.sample)
                },
            ),
            final(self)@.wf(),
    {
        let dequeued = consumer_dequeue(consumer);
        self.process(dequeued)
    }

    /// The engine's state, to program the timer from.
    pub fn pwm(&self) -> (pwm: PwmEngine)
        ensures
            pwm@ == self@.pwm,
    {
        self.pwm
    }

    /// Whether the output is enabled.
    pub fn is_enabled(&self) -> (enabled: bool)
        ensures
            enabled == self@.pwm.enabled,
    {
        self.pwm.is_enabled()
    }

    /// The duty that both channels carry.
    pub fn duty(&self) -> (duty: u16)
        ensures
            duty == self@.pwm.duty,
            duty <= self@.pwm.max_duty,
    {
        self.pwm.duty()
    }

    /// The full duty of the timer.
    pub fn max_duty(&self) -> (max_duty: u16)
        ensures
            max_duty == self@.pwm.max_duty,
    {
        self.pwm.max_duty()
    }

    /// The zero-run counter.
    pub fn zero_run(&self) -> (count: usize)
        ensures
            count == self@.zero_run,
    {
        self.gate.zero_run()
    }
}

} // verus!
