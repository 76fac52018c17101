//! The clock of the streaming resampler.
//!
//! The resampler turns a stream at any source rate into one at a fixed target
//! rate by linear interpolation between neighbouring source samples. This
//! module keeps its state and decides, step by step, whether the next source
//! sample is needed or an output sample is due, and between which two source
//! samples, and where, that output lies. The position is kept exactly, as a
//! count of `1 / target_rate` parts of one source period.

use vstd::prelude::*;

verus! {

/// Where an output sample lies: `phase_num / phase_den` of the way from
/// `left` to `right`.
#[derive(Clone, Copy, Debug)]
pub struct Frame<T> {
    pub left: T,
    pub right: T,
    pub phase_num: u64,
    pub phase_den: u32,
}

/// What the resampler does next.
#[derive(Clone, Copy, Debug)]
pub enum Step<T> {
    /// It needs the next source sample.
    Pull,
    /// It yields an output sample.
    Yield(Frame<T>),
}

/// The state of a resampler.
pub struct ResamplerView<T> {
    pub target_sample_rate: u32,
    pub last_source_rate: u32,
    /// Position past `left`, in `1 / target_sample_rate` of a source period.
    pub phase: nat,
    pub left: T,
    pub right: T,
    pub last_sample: T,
    pub seeded: bool,
}

impl<T> ResamplerView<T> {
    /// Whether the next source sample is needed before an output is due.
    pub open spec fn wants_sample(self) -> bool {
        !self.seeded || self.phase >= self.target_sample_rate
    }

    /// The state once the source reports `rate`: a new rate restarts
    /// interpolation from the latest sample.
    pub open spec fn with_rate(self, rate: u32) -> Self {
        if rate == self.last_source_rate {
            self
        } else {
            ResamplerView {
                last_source_rate: rate,
                phase: 0,
                left: self.last_sample,
                right: self.last_sample,
                ..self
            }
        }
    }

    /// The state once a needed source sample has arrived. The first sample
    /// seeds both ends; a later one moves the window on by one source
    /// period.
    pub open spec fn supplied(self, sample: T) -> Self
        recommends
            self.wants_sample(),
    {
        if !self.seeded {
            ResamplerView { left: sample, right: sample, last_sample: sample, seeded: true, ..self }
        } else {
            ResamplerView {
                phase: (self.phase - self.target_sample_rate) as nat,
                left: self.right,
                right: sample,
                last_sample: sample,
                ..self
            }
        }
    }

    /// The output that is due.
    pub open spec fn frame(self) -> Frame<T>
        recommends
            !self.wants_sample(),
    {
        Frame {
            left: self.left,
            right: self.right,
            phase_num: self.phase as u64,
            phase_den: self.target_sample_rate,
        }
    }

    /// The state once the due output has been yielded: the position moves on
    /// by one target period.
    pub open spec fn yielded(self) -> Self
        recommends
            !self.wants_sample(),
    {
        ResamplerView { phase: self.phase + self.last_source_rate as nat, ..self }
    }

    /// The position stays within one target period past the point where a
    /// source sample is needed.
    pub open spec fn wf(self) -> bool {
        self.target_sample_rate > 0 && self.phase < self.target_sample_rate as nat + u32::MAX as nat
    }
}

/// A streaming resampler's state.
pub struct ResampledAsyncSource<T> {
    target_sample_rate: u32,
    last_source_rate: u32,
    phase: u64,
    left: T,
    right: T,
    last_sample: T,
    seeded: bool,
}

impl<T> View for ResampledAsyncSource<T> {
    type V = ResamplerView<T>;

    closed spec fn view(&self) -> ResamplerView<T> {
        ResamplerView {
            target_sample_rate: self.target_sample_rate,
            last_source_rate: self.last_source_rate,
            phase: self.phase as nat,
            left: self.left,
            right: self.right,
            last_sample: self.last_sample,
            seeded: self.seeded,
        }
    }
}

impl<T: Copy> ResampledAsyncSource<T> {
    /// A resampler from `source_rate` to `target_sample_rate`, not yet
    /// seeded; `zero` stands in for the samples it has not seen.
    pub fn new(source_rate: u32, target_sample_rate: u32, zero: T) -> (out: Self)
        requires
            target_sample_rate > 0,
        ensures
            out@.wf(),
            out@ == (ResamplerView {
                target_sample_rate,
                last_source_rate: source_rate,
                phase: 0,
                left: zero,
                right: zero,
                last_sample: zero,
                seeded: false,
            }),
    {
        ResampledAsyncSource {
            target_sample_rate,
            last_source_rate: source_rate,
            phase: 0,
            left: zero,
            right: zero,
            last_sample: zero,
            seeded: false,
        }
    }

    /// The rate of the output.
    pub fn sample_rate(&self) -> (rate: u32)
        ensures
            rate == self@.target_sample_rate,
    {
        self.target_sample_rate
    }

    /// Takes note of the rate the source reports.
    pub fn handle_rate_change(&mut self, new_rate: u32)
        requires
            old(self)@.wf(),
        ensures
            final(self)@.wf(),
            final(self)@ == old(self)@.with_rate(new_rate),
    {
        if new_rate == self.last_source_rate {
            return ;
        }
        self.last_source_rate = new_rate;
        self.phase = 0;
        self.left = self.last_sample;
        self.right = self.last_sample;
    }

    /// Whether the next source sample is needed before an output is due.
    pub fn wants_sample(&self) -> (wanted: bool)
        ensures
            wanted == self@.wants_sample(),
    {
        !self.seeded || self.phase >= self.target_sample_rate as u64
    }

    /// Takes in the next source sample.
    pub fn supply(&mut self, sample: T)
        requires
            old(self)@.wf(),
            old(self)@.wants_sample(),
        ensures
            final(self)@.wf(),
            final(self)@ == old(self)@.supplied(sample),
    {
        if !self.seeded {
            self.last_sample = sample;
            self.left = sample;
            self.right = sample;
            self.seeded = true;
        } else {
            self.phase = self.phase - self.target_sample_rate as u64;
            self.last_sample = sample;
            self.left = self.right;
            self.right = sample;
        }
    }

    /// Begins a poll with the rate the source reports, and says what comes
    /// next: a pull for the next source sample, which leaves the state as
    /// the rate left it, or the output that is due, after which the position
    /// has moved on.
    pub fn poll_next(&mut self, source_rate: u32) -> (step: Step<T>)
        requires
            old(self)@.wf(),
        ensures
            final(self)@.wf(),
            match step {
                Step::Pull => {
                    &&& old(self)@.with_rate(source_rate).wants_sample()
                    &&& final(self)@ == old(self)@.with_rate(source_rate)
                },
                Step::Yield(frame) => {
                    &&& !old(self)@.with_rate(source_rate).wants_sample()
                    &&& frame == old(self)@.with_rate(source_rate).frame()
                    &&& final(self)@ == old(self)@.with_rate(source_rate).yielded()
                },
            },
    {
        self.handle_rate_change(source_rate);
        self.resume()
    }

    /// Goes on with a poll after a pull has been served: as [`poll_next`],
    /// without looking at the source's rate again.
    pub fn resume(&mut self) -> (step: Step<T>)
        requires
            old(self)@.wf(),
        ensures
            final(self)@.wf(),
            match step {
                Step::Pull => old(self)@.wants_sample() && final(self)@ == old(self)@,
                Step::Yield(frame) => {
                    &&& !old(self)@.wants_sample()
                    &&& frame == old(self)@.frame()
                    &&& final(self)@ == old(self)@.yielded()
                },
            },
    {
        if self.wants_sample() {
            Step::Pull
        } else {
            let frame = Frame {
                left: self.left,
                right: self.right,
                phase_num: self.phase,
                phase_den: self.target_sample_rate,
            };
            self.phase = self.phase + self.last_source_rate as u64;
            Step::Yield(frame)
        }
    }
}

/// The number of outputs a resampler in `state` yields before the stream
/// ends, the source having `input` left and keeping its rate.
pub open spec fn yields_until_end<T>(state: ResamplerView<T>, input: Seq<T>) -> nat
    decreases
            input.len(),
            (if state.wants_sample() {
                0
            } else {
                state.target_sample_rate - state.phase
            }),
{
    if state.last_source_rate == 0 {
        0
    } else if state.wants_sample() {
        if input.len() == 0 {
            0
        } else {
            yields_until_end(state.supplied(input[0]), input.drop_first())
        }
    } else {
        1 + yields_until_end(state.yielded(), input)
    }
}

/// `a / s`, rounded up.
pub open spec fn ceil_div(a: int, s: int) -> int {
    (a + s - 1) / s
}

/// The outputs still to come from a seeded resampler at position `phase`
/// with `left` source samples to come: one for every target period that
/// starts before the last source sample's period ends.
pub open spec fn outputs_to_come(phase: int, source_rate: int, target_rate: int, left: int) -> int {
    if phase < (left + 1) * target_rate {
        ceil_div((left + 1) * target_rate - phase, source_rate)
    } else {
        0
    }
}

/// Rounding up moves by one when the dividend moves by the divisor.
proof fn lemma_ceil_div_step(a: int, s: int)
    requires
        s > 0,
        a > s,
    ensures
        ceil_div(a, s) == 1 + ceil_div(a - s, s),
{
    let x = a - 1;
    assert((x + s) / s == x / s + 1) by (nonlinear_arith)
        requires
            x >= 0,
            s > 0,
    ;
}

/// A dividend that is positive and no more than the divisor rounds up to one.
proof fn lemma_ceil_div_one(a: int, s: int)
    requires
        0 < a <= s,
    ensures
        ceil_div(a, s) == 1,
{
    let x = a + s - 1;
    assert(x / s == 1) by (nonlinear_arith)
        requires
            s <= x < 2 * s,
            s > 0,
    ;
}

/// A seeded resampler yields exactly the outputs that are still to come.
pub proof fn lemma_seeded_yields<T>(state: ResamplerView<T>, input: Seq<T>)
    requires
        state.seeded,
        state.last_source_rate > 0,
        state.target_sample_rate > 0,
    ensures
        yields_until_end(state, input) == outputs_to_come(
            state.phase as int,
            state.last_source_rate as int,
            state.target_sample_rate as int,
            input.len() as int,
        ),
    decreases
            input.len(),
            (if state.wants_sample() {
                0
            } else {
                state.target_sample_rate - state.phase
            }),
{
    let p = state.phase as int;
    let s = state.last_source_rate as int;
    let t = state.target_sample_rate as int;
    let r = input.len() as int;
    assert((r + 1) * t == r * t + t) by (nonlinear_arith);
    assert(r * t >= 0) by (nonlinear_arith)
        requires
            r >= 0,
            t > 0,
    ;
    if state.wants_sample() {
        if input.len() > 0 {
            lemma_seeded_yields(state.supplied(input[0]), input.drop_first());
            assert(((r - 1) + 1) * t == r * t) by (nonlinear_arith);
        }
    } else {
        lemma_seeded_yields(state.yielded(), input);
        let a = (r + 1) * t - p;
        if a > s {
            lemma_ceil_div_step(a, s);
        } else {
            lemma_ceil_div_one(a, s);
        }
    }
}

/// The output keeps the target rate in count. From its start, a resampler
/// whose source yields `n` samples at a steady rate and then ends yields
/// `n * target_rate / source_rate` outputs, rounded up, before the stream
/// ends: one second of input gives one second of output.
pub proof fn law_output_count<T>(state: ResamplerView<T>, input: Seq<T>)
    requires
        !state.seeded,
        state.phase == 0,
        state.last_source_rate > 0,
        state.target_sample_rate > 0,
    ensures
        yields_until_end(state, input) == ceil_div(
            input.len() * state.target_sample_rate,
            state.last_source_rate as int,
        ),
{
    let s = state.last_source_rate as int;
    let t = state.target_sample_rate as int;
    if input.len() == 0 {
        assert(0 * t == 0) by (nonlinear_arith);
        assert((s - 1) / s == 0) by (nonlinear_arith)
            requires
                s > 0,
        ;
    } else {
        lemma_seeded_yields(state.supplied(input[0]), input.drop_first());
        let n = input.len() as int;
        assert(((n - 1) + 1) * t == n * t) by (nonlinear_arith);
        assert(n * t > 0) by (nonlinear_arith)
            requires
                n > 0,
                t > 0,
        ;
    }
}

/// One thing a resampler does at a steady source rate.
pub enum Tick {
    /// It takes in a source sample.
    Supply,
    /// It yields an output sample.
    Yield,
}

/// The position after a run of ticks from `phase`, each taken only when it
/// is allowed: a supply while the position is at least one source period
/// ahead, a yield otherwise. A tick that is not allowed leaves the run.
pub open spec fn phase_after(phase: int, source_rate: int, target_rate: int, ticks: Seq<Tick>) -> int
    decreases ticks.len(),
{
    if ticks.len() == 0 {
        phase
    } else {
        let before = phase_after(phase, source_rate, target_rate, ticks.drop_last());
        match ticks.last() {
            Tick::Supply => before - target_rate,
            Tick::Yield => before + source_rate,
        }
    }
}

/// Whether every tick of the run is allowed when it is taken.
pub open spec fn run_allowed(phase: int, source_rate: int, target_rate: int, ticks: Seq<Tick>) -> bool
    decreases ticks.len(),
{
    if ticks.len() == 0 {
        true
    } else {
        let before = phase_after(phase, source_rate, target_rate, ticks.drop_last());
        &&& run_allowed(phase, source_rate, target_rate, ticks.drop_last())
        &&& match ticks.last() {
            Tick::Supply => before >= target_rate,
            Tick::Yield => before < target_rate,
        }
    }
}

/// The number of yields in a run.
pub open spec fn yields(ticks: Seq<Tick>) -> int
    decreases ticks.len(),
{
    if ticks.len() == 0 {
        0
    } else {
        yields(ticks.drop_last()) + if ticks.last() is Yield {
            1int
        } else {
            0int
        }
    }
}

/// The number of supplies in a run.
pub open spec fn supplies(ticks: Seq<Tick>) -> int
    decreases ticks.len(),
{
    if ticks.len() == 0 {
        0
    } else {
        supplies(ticks.drop_last()) + if ticks.last() is Supply {
            1int
        } else {
            0int
        }
    }
}

/// The output keeps the target rate. Over any run at a steady source rate,
/// the time the outputs cover (one target period each) and the time the
/// inputs cover (one source period each) differ by what the position moved,
/// and the position never leaves the span from zero to one period of each
/// rate. So in the long run `target_rate` outputs are yielded for every
/// `source_rate` inputs: one second of output for one second of input.
pub proof fn law_output_keeps_target_rate(
    phase: int,
    source_rate: int,
    target_rate: int,
    ticks: Seq<Tick>,
)
    requires
        0 <= source_rate,
        0 < target_rate,
        0 <= phase < target_rate + source_rate,
        run_allowed(phase, source_rate, target_rate, ticks),
    ensures
        yields(ticks) * source_rate - supplies(ticks) * target_rate == phase_after(
            phase,
            source_rate,
            target_rate,
            ticks,
        ) - phase,
        0 <= phase_after(phase, source_rate, target_rate, ticks) < target_rate + source_rate,
    decreases ticks.len(),
{
    if ticks.len() > 0 {
        law_output_keeps_target_rate(phase, source_rate, target_rate, ticks.drop_last());
        let y = yields(ticks.drop_last());
        let s = supplies(ticks.drop_last());
        assert((y + 1) * source_rate == y * source_rate + source_rate) by (nonlinear_arith);
        assert((s + 1) * target_rate == s * target_rate + target_rate) by (nonlinear_arith);
    }
}

/// Whatever rate the source reports and whatever it supplies, the rate of
/// the output stays the one the resampler was made with.
pub proof fn law_target_rate_is_fixed<T>(state: ResamplerView<T>, rate: u32, sample: T)
    ensures
        state.with_rate(rate).target_sample_rate == state.target_sample_rate,
        state.supplied(sample).target_sample_rate == state.target_sample_rate,
        state.yielded().target_sample_rate == state.target_sample_rate,
{
}

} // verus!
