//! The two square-wave channels: their sweep, duty, envelope and frequency
//! registers, and the band-limited sample buffer (an outside resampler)
//! each channel feeds its amplitude deltas into.
use vstd::prelude::*;

use blip_buf::BlipBuf;

use crate::frame_sequencer::FrameSequencer;
use crate::frame_sequencer::spec_step_multiple;

verus! {

#[verifier::external_type_specification]
#[verifier::external_body]
pub struct ExBlipBuf(BlipBuf);

/// The number of samples the buffer holds beyond the count it was created
/// for; `blip_buf` pads every buffer by this much.
pub const BLIP_BUFFER_EXTRA: u32 = 18;

/// One whole unit of the resampler's fixed-point time, mirroring its
/// `TIME_UNIT` (one output sample corresponds to this much scaled time).
pub const BLIP_TIME_UNIT: u64 = 0x10_0000_0000_0000;

/// The largest number of samples one time frame may produce, mirroring the
/// resampler's documented `MAX_FRAME`.
pub const BLIP_MAX_FRAME: u32 = 4000;

/// How many samples a buffer is holding for reading.
pub uninterp spec fn spec_blip_avail(b: BlipBuf) -> nat;

/// How many sample slots a buffer owns in all, padding included.
pub uninterp spec fn spec_blip_capacity(b: BlipBuf) -> nat;

/// The buffer's fixed-point clock-to-time factor: each input clock advances
/// the buffer's scaled time by this much. Its product with a frame's clock
/// count must stay below 2^64, which the callers' bounds guarantee.
pub uninterp spec fn spec_blip_factor(b: BlipBuf) -> nat;

/// The buffer's fixed-point time offset into the current frame.
pub uninterp spec fn spec_blip_offset(b: BlipBuf) -> nat;

/// An upper bound on the factor `set_rates` stores for the given rates:
/// twice the integer clock-to-sample ratio in fixed-point time, plus
/// rounding headroom. The source computes the ratio in double precision
/// and rounds up once, which stays far inside this allowance.
pub open spec fn spec_blip_rate_bound(clock_rate: u32, sample_rate: u32) -> int {
    2 * (((BLIP_TIME_UNIT as int) / (clock_rate as int)) * sample_rate + sample_rate) + 2
}

/// Relies on blip_buf::BlipBuf::new: a fresh buffer holds no samples, owns
/// `sample_count` slots plus the fixed padding, and starts with the
/// default factor (one time unit per maximum-ratio clock) and half of that
/// factor as its offset.
#[verifier::external_body]
fn blip_new(sample_count: u32) -> (r: BlipBuf)
    requires
        sample_count <= 0x0FFF_FFFF,
    ensures
        spec_blip_avail(r) == 0,
        spec_blip_capacity(r) == sample_count + BLIP_BUFFER_EXTRA,
        spec_blip_factor(r) == 0x1_0000_0000u64,
        spec_blip_offset(r) == 0x8000_0000u64,
{
    BlipBuf::new(sample_count)
}

/// Relies on blip_buf::BlipBuf::set_rates: it stores a new factor — the
/// clock-to-sample ratio computed in double precision and rounded up,
/// which for positive rates is at least one and within the stated bound —
/// and touches nothing else; it reports failure for ratios out of range
/// and then leaves even the factor unchanged.
#[verifier::external_body]
fn blip_set_rates(b: &mut BlipBuf, clock_rate: u32, sample_rate: u32) -> (ok: bool)
    requires
        1 <= clock_rate,
        1 <= sample_rate,
    ensures
        spec_blip_avail(*final(b)) == spec_blip_avail(*old(b)),
        spec_blip_capacity(*final(b)) == spec_blip_capacity(*old(b)),
        spec_blip_offset(*final(b)) == spec_blip_offset(*old(b)),
        ok ==> 1 <= spec_blip_factor(*final(b)) <= spec_blip_rate_bound(clock_rate, sample_rate),
        !ok ==> spec_blip_factor(*final(b)) == spec_blip_factor(*old(b)),
{
    b.set_rates(clock_rate.into(), sample_rate.into()).is_ok()
}

/// Relies on blip_buf::BlipBuf::add_delta: it accumulates an amplitude
/// change into sample slots without making samples available, resizing, or
/// moving the frame clock, and reports failure when the clock time lands
/// past the buffer. The bounds keep its fixed-point position (clock times
/// factor plus offset) and its filter arithmetic inside their integer
/// ranges; what the accumulation itself may do to slot contents over many
/// calls is not modelled.
#[verifier::external_body]
fn blip_add_delta(b: &mut BlipBuf, clock_time: u32, delta: i32) -> (ok: bool)
    requires
        -16384 <= delta <= 16384,
        clock_time * spec_blip_factor(*old(b)) + spec_blip_offset(*old(b)) <= u64::MAX,
    ensures
        spec_blip_avail(*final(b)) == spec_blip_avail(*old(b)),
        spec_blip_capacity(*final(b)) == spec_blip_capacity(*old(b)),
        spec_blip_factor(*final(b)) == spec_blip_factor(*old(b)),
        spec_blip_offset(*final(b)) == spec_blip_offset(*old(b)),
{
    b.add_delta(clock_time, delta).is_ok()
}

/// Relies on blip_buf::BlipBuf::end_frame: on success it makes the frame's
/// samples available for reading — never shrinking their number past what
/// the buffer can hold — and folds the frame's scaled time down to an
/// offset below one time unit; on failure it changes nothing. The bound
/// keeps the frame's fixed-point span inside 64 bits.
#[verifier::external_body]
fn blip_end_frame(b: &mut BlipBuf, clock_duration: u32) -> (ok: bool)
    requires
        spec_blip_avail(*old(b)) <= spec_blip_capacity(*old(b)),
        clock_duration * spec_blip_factor(*old(b)) + spec_blip_offset(*old(b)) <= u64::MAX,
    ensures
        spec_blip_capacity(*final(b)) == spec_blip_capacity(*old(b)),
        spec_blip_factor(*final(b)) == spec_blip_factor(*old(b)),
        spec_blip_avail(*final(b)) <= spec_blip_capacity(*final(b)),
        spec_blip_avail(*final(b)) >= spec_blip_avail(*old(b)),
        ok ==> spec_blip_offset(*final(b)) < 0x10_0000_0000_0000u64,
        !ok ==> spec_blip_avail(*final(b)) == spec_blip_avail(*old(b)) && spec_blip_offset(
            *final(b),
        ) == spec_blip_offset(*old(b)),
{
    b.end_frame(clock_duration).is_ok()
}

/// Relies on blip_buf::BlipBuf::samples_avail: it reports the number of
/// samples available for reading.
#[verifier::external_body]
fn blip_samples_avail(b: &BlipBuf) -> (r: u32)
    requires
        spec_blip_avail(*b) <= spec_blip_capacity(*b),
        spec_blip_capacity(*b) <= u32::MAX,
    ensures
        r == spec_blip_avail(*b),
{
    b.samples_avail()
}

/// Relies on blip_buf::BlipBuf::clocks_needed: it reports how many clocks
/// of input make the requested samples available, and fails exactly when
/// the buffer cannot hold that many more samples. The sample count is
/// capped by the resampler's documented frame maximum and the factor's
/// range is pinned so that its fixed-point arithmetic stays inside 64
/// bits.
#[verifier::external_body]
fn blip_clocks_needed(b: &BlipBuf, sample_count: u32) -> (r: Option<u32>)
    requires
        sample_count <= BLIP_MAX_FRAME,
        1 <= spec_blip_factor(*b) <= 0x100_0000_0000_0000u64,
        spec_blip_offset(*b) <= 0x10_0000_0000_0000u64,
    ensures
        r is Some <==> spec_blip_avail(*b) + sample_count <= spec_blip_capacity(*b),
{
    b.clocks_needed(sample_count).ok()
}

/// Relies on blip_buf::BlipBuf::read_samples (mono): it fills the slice's
/// prefix with as many samples as are available (at most the slice's
/// length), removes them from the buffer, and returns how many it wrote.
/// The buffer must have its padding free, which callers guard for.
#[verifier::external_body]
fn blip_read_samples(b: &mut BlipBuf, out: &mut Vec<i16>) -> (r: usize)
    requires
        spec_blip_avail(*old(b)) + BLIP_BUFFER_EXTRA <= spec_blip_capacity(*old(b)),
    ensures
        r == if old(out)@.len() <= spec_blip_avail(*old(b)) {
            old(out)@.len() as int
        } else {
            spec_blip_avail(*old(b)) as int
        },
        spec_blip_avail(*final(b)) == spec_blip_avail(*old(b)) - r,
        spec_blip_capacity(*final(b)) == spec_blip_capacity(*old(b)),
        spec_blip_factor(*final(b)) == spec_blip_factor(*old(b)),
        spec_blip_offset(*final(b)) == spec_blip_offset(*old(b)),
        final(out)@.len() == old(out)@.len(),
{
    b.read_samples(out.as_mut_slice(), false)
}

/// A channel's sample buffer together with the slot count it was created
/// with and the largest frame-relative clock its fixed-point arithmetic
/// can take, both kept so the guards can be checked in code.
pub struct ChannelBuffer {
    pub buf: BlipBuf,
    pub capacity: u32,
    pub max_safe_clock: u64,
}

/// What the rest of the model knows of a channel buffer: its fill level
/// and its size. The samples themselves stay inside the outside resampler.
#[derive(PartialEq, Eq, Structural)]
pub ghost struct BlipView {
    pub avail: nat,
    pub capacity: u32,
}

impl View for ChannelBuffer {
    type V = BlipView;

    open spec fn view(&self) -> BlipView {
        BlipView { avail: spec_blip_avail(self.buf), capacity: self.capacity }
    }
}

/// The buffer's running bounds: the stored size is the real one and the
/// fill level never passes it; the factor and offset stay in the ranges
/// the resampler's fixed-point arithmetic needs; and any frame-relative
/// clock up to `max_safe_clock` keeps that arithmetic inside 64 bits.
pub open spec fn spec_buffer_wf(cb: ChannelBuffer) -> bool {
    &&& spec_blip_capacity(cb.buf) == cb.capacity
    &&& spec_blip_avail(cb.buf) <= cb.capacity
    &&& cb.capacity >= BLIP_BUFFER_EXTRA
    &&& 1 <= spec_blip_factor(cb.buf) <= 0x100_0000_0000_0000u64
    &&& spec_blip_offset(cb.buf) <= 0x10_0000_0000_0000u64
    &&& cb.max_safe_clock * spec_blip_factor(cb.buf) + 0x10_0000_0000_0000u64 <= u64::MAX
}

impl ChannelBuffer {
    /// A fresh buffer sized for a tenth of a second of output, resampling
    /// from the processor clock to the device sample rate. The rate bounds
    /// keep the resampler's factor in range and leave a useful safe-clock
    /// window.
    pub fn new(sample_rate: u32, clock_rate: u32) -> (r: ChannelBuffer)
        requires
            1 <= sample_rate <= 0x000F_FFFF,
            0x10_0000 <= clock_rate,
        ensures
            spec_buffer_wf(r),
            r@.avail == 0,
            r@.capacity == sample_rate / 10 + BLIP_BUFFER_EXTRA,
    {
        let sample_count: u32 = sample_rate / 10;
        let mut buf = blip_new(sample_count);
        let ok = blip_set_rates(&mut buf, clock_rate, sample_rate);

        proof {
            vstd::arithmetic::div_mod::lemma_div_is_ordered_by_denominator(
                BLIP_TIME_UNIT as int,
                0x10_0000,
                clock_rate as int,
            );
        }
        let unit_per_clock: u64 = BLIP_TIME_UNIT / (clock_rate as u64);
        proof {
            assert(unit_per_clock * sample_rate <= 0x1_0000_0000u64 * 0x000F_FFFFu64)
                by (nonlinear_arith)
                requires
                    unit_per_clock <= 0x1_0000_0000u64,
                    sample_rate <= 0x000F_FFFFu32,
            ;
        }
        let factor_bound: u64 = if ok {
            2 * (unit_per_clock * (sample_rate as u64) + (sample_rate as u64)) + 2
        } else {
            0x1_0000_0000
        };
        let max_safe_clock: u64 = (u64::MAX - BLIP_TIME_UNIT) / factor_bound;

        proof {
            assert(spec_blip_factor(buf) <= factor_bound);
            vstd::arithmetic::div_mod::lemma_fundamental_div_mod(
                (u64::MAX - BLIP_TIME_UNIT) as int,
                factor_bound as int,
            );
            assert(max_safe_clock * spec_blip_factor(buf) + BLIP_TIME_UNIT <= u64::MAX)
                by (nonlinear_arith)
                requires
                    1 <= spec_blip_factor(buf) <= factor_bound,
                    max_safe_clock == ((u64::MAX - BLIP_TIME_UNIT) as int) / (factor_bound as int),
                    (u64::MAX - BLIP_TIME_UNIT) as int == max_safe_clock * factor_bound + ((u64::MAX
                        - BLIP_TIME_UNIT) as int) % (factor_bound as int),
                    0 <= ((u64::MAX - BLIP_TIME_UNIT) as int) % (factor_bound as int),
            ;
        }
        ChannelBuffer { buf, capacity: sample_count + BLIP_BUFFER_EXTRA, max_safe_clock }
    }
}

/// The sweep register of the first square channel.
#[derive(Clone, Copy, PartialEq, Eq, Structural, Debug)]
pub struct Sweep {
    pub period: u8,
    pub decrease: bool,
    pub shift: u8,
}

/// The byte encoding of the sweep register.
pub open spec fn spec_sweep_byte(s: Sweep) -> u8 {
    ((s.period & 0x07) << 4) | ((if s.decrease { 1u8 } else { 0u8 }) << 3) | (s.shift & 0x07)
}

/// The sweep register a byte encodes.
pub open spec fn spec_sweep_from_byte(value: u8) -> Sweep {
    Sweep { period: (value & 0x70) >> 4, decrease: (value & 0x08) != 0, shift: value & 0x07 }
}

impl Sweep {
    /// Packs the register into its byte.
    pub fn to_byte(&self) -> (r: u8)
        ensures
            r == spec_sweep_byte(*self),
    {
        ((self.period & 0x07) << 4) | ((if self.decrease { 1u8 } else { 0u8 }) << 3) | (self.shift
            & 0x07)
    }

    /// Unpacks a byte into the register.
    pub fn from_byte(value: u8) -> (r: Sweep)
        ensures
            r == spec_sweep_from_byte(value),
    {
        Sweep { period: (value & 0x70) >> 4, decrease: (value & 0x08) != 0, shift: value & 0x07 }
    }
}

/// The four duty waveforms a square channel can play.
#[derive(Clone, Copy, PartialEq, Eq, Structural, Debug)]
pub enum DutyType {
    Eighth,
    Quarter,
    Half,
    ThreeQuarters,
}

/// The duty register: the waveform, the written length bits, and the
/// channel's phase inside the eight-step waveform.
#[derive(Clone, Copy, PartialEq, Eq, Structural, Debug)]
pub struct Duty {
    pub duty_type: DutyType,
    pub length: u8,
    pub phase: u8,
}

/// The eight-bit waveform of a duty setting, one bit per phase step.
pub open spec fn spec_duty_wave_form(t: DutyType) -> u8 {
    match t {
        DutyType::Eighth => 0x7F,
        DutyType::Quarter => 0x3F,
        DutyType::Half => 0x0F,
        DutyType::ThreeQuarters => 0x03,
    }
}

/// The current amplitude sign of the waveform: plus one on a high phase
/// bit, minus one on a low one.
pub open spec fn spec_duty_sequence(d: Duty) -> i32 {
    let mask = (1u8 << ((7 - d.phase) as u8));
    if spec_duty_wave_form(d.duty_type) & mask == mask {
        1i32
    } else {
        -1i32
    }
}

/// The two type bits of the duty register byte; the length bits read back
/// as zero.
pub open spec fn spec_duty_byte(d: Duty) -> u8 {
    match d.duty_type {
        DutyType::Eighth => 0x00,
        DutyType::Quarter => 0x40,
        DutyType::Half => 0x80,
        DutyType::ThreeQuarters => 0xC0,
    }
}

/// The duty register a byte encodes, starting at phase zero.
pub open spec fn spec_duty_from_byte(value: u8) -> Duty {
    let bits = (value & 0xC0) >> 6;
    Duty {
        duty_type: if bits == 0 {
            DutyType::Eighth
        } else if bits == 1 {
            DutyType::Quarter
        } else if bits == 2 {
            DutyType::Half
        } else {
            DutyType::ThreeQuarters
        },
        length: value & 0x3F,
        phase: 0,
    }
}

impl Duty {
    /// The current amplitude sign of the waveform.
    pub fn sequence(&self) -> (r: i32)
        requires
            self.phase < 8,
        ensures
            r == spec_duty_sequence(*self),
            r == 1 || r == -1,
    {
        let duty_wave_form: u8 = match self.duty_type {
            DutyType::Eighth => 0x7F,
            DutyType::Quarter => 0x3F,
            DutyType::Half => 0x0F,
            DutyType::ThreeQuarters => 0x03,
        };
        let mask: u8 = 1u8 << (7 - self.phase);
        if (duty_wave_form & mask) == mask {
            1
        } else {
            -1
        }
    }

    /// Advances the waveform one phase step, wrapping after eight.
    pub fn step(&mut self)
        requires
            old(self).phase < 8,
        ensures
            *final(self) == (Duty { phase: ((old(self).phase + 1) % 8) as u8, ..*old(self) }),
    {
        self.phase = (self.phase + 1) % 8;
    }

    /// Packs the register into its byte; the length bits are write-only.
    pub fn to_byte(&self) -> (r: u8)
        ensures
            r == spec_duty_byte(*self),
    {
        match self.duty_type {
            DutyType::Eighth => 0x00,
            DutyType::Quarter => 0x40,
            DutyType::Half => 0x80,
            DutyType::ThreeQuarters => 0xC0,
        }
    }

    /// Unpacks a byte into the register.
    pub fn from_byte(value: u8) -> (r: Duty)
        ensures
            r == spec_duty_from_byte(value),
    {
        let bits: u8 = (value & 0xC0) >> 6;
        let duty_type = if bits == 0 {
            DutyType::Eighth
        } else if bits == 1 {
            DutyType::Quarter
        } else if bits == 2 {
            DutyType::Half
        } else {
            DutyType::ThreeQuarters
        };
        Duty { duty_type, length: value & 0x3F, phase: 0 }
    }
}

/// The volume envelope: the starting volume, the current volume, the
/// direction, and the countdown driving each envelope step.
#[derive(Clone, Copy, PartialEq, Eq, Structural, Debug)]
pub struct VolumeEnvelope {
    pub initial_volume: u8,
    pub current_volume: u8,
    pub increase: bool,
    pub sequence: FrameSequencer,
}

/// The envelope after one envelope tick: a playing volume moves one step
/// towards its bound each time its countdown underflows; a silent channel
/// stays silent.
pub open spec fn spec_envelope_step(v: VolumeEnvelope) -> VolumeEnvelope {
    if v.current_volume > 0 {
        let (sequence, underflow) = spec_step_multiple(v.sequence, 1);
        let stepped = VolumeEnvelope { sequence, ..v };
        if underflow {
            if v.increase && v.current_volume < 15 {
                VolumeEnvelope { current_volume: (v.current_volume + 1) as u8, ..stepped }
            } else if !v.increase && v.current_volume > 0 {
                VolumeEnvelope { current_volume: (v.current_volume - 1) as u8, ..stepped }
            } else {
                stepped
            }
        } else {
            stepped
        }
    } else {
        v
    }
}

/// The byte encoding of the envelope register.
pub open spec fn spec_envelope_byte(v: VolumeEnvelope) -> u8 {
    ((v.initial_volume & 0x0F) << 4) | ((if v.increase { 1u8 } else { 0u8 }) << 3) | ((
    v.sequence.period & 0x07) as u8)
}

/// The envelope a byte encodes: it starts at its initial volume with a
/// fresh countdown over the written period.
pub open spec fn spec_envelope_from_byte(value: u8) -> VolumeEnvelope {
    VolumeEnvelope {
        initial_volume: (value & 0xF0) >> 4,
        current_volume: (value & 0xF0) >> 4,
        increase: (value & 0x08) != 0,
        sequence: FrameSequencer { timer: 0u32, period: (value & 0x07) as u32 },
    }
}

impl VolumeEnvelope {
    /// One envelope tick.
    pub fn step(&mut self)
        ensures
            *final(self) == spec_envelope_step(*old(self)),
    {
        if self.current_volume > 0 && self.sequence.step() {
            if self.increase && self.current_volume < 15 {
                self.current_volume = self.current_volume + 1;
            } else if !self.increase && self.current_volume > 0 {
                self.current_volume = self.current_volume - 1;
            }
        }
    }

    /// Packs the register into its byte.
    pub fn to_byte(&self) -> (r: u8)
        ensures
            r == spec_envelope_byte(*self),
    {
        ((self.initial_volume & 0x0F) << 4) | ((if self.increase { 1u8 } else { 0u8 }) << 3) | (
        #[verifier::truncate] ((self.sequence.period & 0x07) as u8))
    }

    /// Unpacks a byte into the register.
    pub fn from_byte(value: u8) -> (r: VolumeEnvelope)
        ensures
            r == spec_envelope_from_byte(value),
    {
        let volume: u8 = (value & 0xF0) >> 4;
        VolumeEnvelope {
            initial_volume: volume,
            current_volume: volume,
            increase: (value & 0x08) != 0,
            sequence: FrameSequencer::new(0, (value & 0x07) as u32),
        }
    }
}

/// Whether the channel is silent, playing, or was just retriggered.
#[derive(Clone, Copy, PartialEq, Eq, Structural, Debug)]
pub enum Trigger {
    Stopped,
    Playing,
    Restart,
}

/// Whether the channel plays for a counted length or until stopped.
#[derive(Clone, Copy, PartialEq, Eq, Structural, Debug)]
pub enum PlayMode {
    Counter,
    Consecutive,
}

/// The channel's 11-bit frequency register.
#[derive(Clone, Copy, PartialEq, Eq, Structural, Debug)]
pub struct Frequency {
    pub frequency: u16,
}

/// A square-wave channel: its registers, its playback state, its sample
/// buffer, and the clock bookkeeping of the sampling loop.
pub struct SquareChannel {
    pub sweep: Option<Sweep>,
    pub duty: Duty,
    pub volume_envelope: VolumeEnvelope,
    pub frequency: Frequency,
    pub trigger: Trigger,
    pub play_mode: PlayMode,
    pub buffer: Option<ChannelBuffer>,
    pub current_sampling_cycle: u64,
    pub next_sample_cycle: u64,
    pub last_sample: i32,
}

/// The mathematical image of a channel; the buffer appears only through
/// its fill level and size.
#[verifier::ext_equal]
pub ghost struct ChanView {
    pub sweep: Option<Sweep>,
    pub duty: Duty,
    pub volume_envelope: VolumeEnvelope,
    pub frequency: u16,
    pub trigger: Trigger,
    pub play_mode: PlayMode,
    pub buffer: Option<BlipView>,
    pub current_sampling_cycle: u64,
    pub next_sample_cycle: u64,
    pub last_sample: i32,
}

impl View for SquareChannel {
    type V = ChanView;

    open spec fn view(&self) -> ChanView {
        ChanView {
            sweep: self.sweep,
            duty: self.duty,
            volume_envelope: self.volume_envelope,
            frequency: self.frequency.frequency,
            trigger: self.trigger,
            play_mode: self.play_mode,
            buffer: match self.buffer {
                Some(cb) => Some(cb@),
                None => None,
            },
            current_sampling_cycle: self.current_sampling_cycle,
            next_sample_cycle: self.next_sample_cycle,
            last_sample: self.last_sample,
        }
    }
}

/// The channel's running bounds: the waveform phase, volume, frequency and
/// last amplitude stay in their register ranges, the next sample is never
/// scheduled more than one waveform period past the current clock, and the
/// buffer (if any) keeps its own bounds.
pub open spec fn spec_channel_wf(ch: SquareChannel) -> bool {
    &&& ch.duty.phase < 8
    &&& ch.volume_envelope.current_volume <= 15
    &&& ch.frequency.frequency <= 2047
    &&& -15 <= ch.last_sample <= 15
    &&& ch.current_sampling_cycle <= ch.next_sample_cycle
    &&& ch.next_sample_cycle <= ch.current_sampling_cycle + 8192
    &&& match ch.buffer {
        Some(cb) => spec_buffer_wf(cb),
        None => true,
    }
}

/// One sample event: a silent channel emits amplitude zero; a playing one
/// emits its volume under the waveform's sign and advances the waveform.
/// Either way the event becomes the last amplitude and the next event is
/// scheduled one waveform period later.
pub open spec fn spec_channel_one_sample(ch: ChanView) -> ChanView {
    let sample: i32 = match ch.trigger {
        Trigger::Stopped => 0,
        _ => (((ch.volume_envelope.current_volume as i32) * spec_duty_sequence(ch.duty)) as i32),
    };
    let duty = match ch.trigger {
        Trigger::Stopped => ch.duty,
        _ => Duty { phase: ((ch.duty.phase + 1) % 8) as u8, ..ch.duty },
    };
    let period = (((2048 - ch.frequency) * 4) as u64);
    ChanView {
        duty: duty,
        last_sample: sample,
        next_sample_cycle: ((ch.next_sample_cycle + period) as u64),
        ..ch
    }
}

/// All the sample events due before `end_cycle`, oldest first. The two
/// guard disjuncts can never hold of a well-formed channel; they only keep
/// the recursion total.
pub open spec fn spec_channel_samples(ch: ChanView, end_cycle: u64) -> ChanView
    decreases
            (if ch.next_sample_cycle >= end_cycle {
                0int
            } else {
                end_cycle - ch.next_sample_cycle
            }),
{
    if ch.next_sample_cycle >= end_cycle || ch.frequency >= 2048 || ch.next_sample_cycle > u64::MAX
        - 8192 {
        ch
    } else {
        spec_channel_samples(spec_channel_one_sample(ch), end_cycle)
    }
}

/// The channel after `cycles` clock cycles: every sample event falling in
/// the window is emitted and the window's end becomes the current clock.
pub open spec fn spec_channel_step(ch: ChanView, cycles: u8) -> ChanView {
    let end_cycle = ((ch.current_sampling_cycle + cycles) as u64);
    let stepped = spec_channel_samples(ch, end_cycle);
    ChanView { current_sampling_cycle: end_cycle, ..stepped }
}

/// How the fill levels of a channel buffer may relate across a frame
/// boundary: the size is kept, and samples only become available, never
/// lost.
pub open spec fn spec_buffer_after_frame(b1: Option<BlipView>, b2: Option<BlipView>) -> bool {
    match (b1, b2) {
        (None, None) => true,
        (Some(x), Some(y)) => y.capacity == x.capacity && y.avail >= x.avail && y.avail
            <= y.capacity,
        _ => false,
    }
}

impl SquareChannel {
    /// A silent channel with a sweep register, as the first square channel
    /// has.
    pub fn new_with_sweep() -> (r: SquareChannel)
        ensures
            r@ == (ChanView { sweep: Some(spec_sweep_from_byte(0)), ..spec_channel_initial() }),
            spec_channel_wf(r),
            r.sweep is Some,
    {
        Self::new(Some(Sweep::from_byte(0)))
    }

    /// A silent channel without a sweep register, as the second square
    /// channel has.
    pub fn new_without_sweep() -> (r: SquareChannel)
        ensures
            r@ == spec_channel_initial(),
            spec_channel_wf(r),
            r.sweep is None,
    {
        Self::new(None)
    }

    fn new(sweep: Option<Sweep>) -> (r: SquareChannel)
        ensures
            r@ == (ChanView { sweep: sweep, ..spec_channel_initial() }),
            spec_channel_wf(r),
            r.sweep == sweep,
    {
        SquareChannel {
            sweep,
            duty: Duty { duty_type: DutyType::Eighth, length: 0, phase: 0 },
            volume_envelope: VolumeEnvelope {
                initial_volume: 0,
                current_volume: 0,
                increase: false,
                sequence: FrameSequencer::new(0, 0),
            },
            frequency: Frequency { frequency: 0 },
            trigger: Trigger::Stopped,
            play_mode: PlayMode::Consecutive,
            buffer: None,
            current_sampling_cycle: 0,
            next_sample_cycle: 0,
            last_sample: 0,
        }
    }

    /// Gives the channel a fresh sample buffer resampling from the
    /// processor clock to the device sample rate.
    pub fn initialize_buffer(&mut self, sample_rate: u32, clock_rate: u32)
        requires
            1 <= sample_rate <= 0x000F_FFFF,
            0x10_0000 <= clock_rate,
        ensures
            final(self)@ == (ChanView {
                buffer: Some(
                    BlipView {
                        avail: 0,
                        capacity: ((sample_rate / 10 + BLIP_BUFFER_EXTRA) as u32),
                    },
                ),
                ..old(self)@
            }),
            spec_channel_wf(*old(self)) ==> spec_channel_wf(*final(self)),
    {
        self.buffer = Some(ChannelBuffer::new(sample_rate, clock_rate));
    }

    /// Advances the channel by `cycles` clock cycles, feeding each
    /// amplitude change into the sample buffer at its clock time.
    pub fn step(&mut self, cycles: u8)
        requires
            spec_channel_wf(*old(self)),
            old(self).current_sampling_cycle + cycles <= 0x0002_0000_0000_0000u64,
        ensures
            final(self)@ == spec_channel_step(old(self)@, cycles),
            spec_channel_wf(*final(self)),
            final(self).current_sampling_cycle == old(self).current_sampling_cycle + cycles,
            final(self).sweep == old(self).sweep,
    {
        let end_cycle: u64 = self.current_sampling_cycle + (cycles as u64);
        while self.next_sample_cycle < end_cycle
            invariant
                spec_channel_wf_fields(*self),
                end_cycle <= 0x0002_0000_0000_0000u64 + 8192,
                self.next_sample_cycle <= end_cycle + 8192,
                self.sweep == old(self).sweep,
                self.volume_envelope == old(self).volume_envelope,
                self.frequency == old(self).frequency,
                self.trigger == old(self).trigger,
                self.play_mode == old(self).play_mode,
                self.current_sampling_cycle == old(self).current_sampling_cycle,
                spec_channel_samples(self@, end_cycle) == spec_channel_samples(
                    old(self)@,
                    end_cycle,
                ),
            decreases
                    (if self.next_sample_cycle >= end_cycle {
                        0int
                    } else {
                        end_cycle - self.next_sample_cycle
                    }),
        {
            let ghost before = self@;
            let sample: i32 = match self.trigger {
                Trigger::Stopped => 0,
                _ => {
                    let sign: i32 = self.duty.sequence();
                    let volume: i32 = self.volume_envelope.current_volume as i32;
                    let duty_sample: i32 = if sign == 1 {
                        volume
                    } else {
                        -volume
                    };
                    proof {
                        assert(volume * 1int == volume);
                        assert(volume * (-1int) == -volume);
                    }
                    self.duty.step();
                    duty_sample
                },
            };
            proof {
                assert(-15 <= sample <= 15);
            }

            let delta: i32 = sample - self.last_sample;
            if delta != 0 {
                let clock: u64 = self.next_sample_cycle;
                match &mut self.buffer {
                    Some(cb) => {
                        if clock <= cb.max_safe_clock && clock <= 0xFFFF_FFFFu64 {
                            proof {
                                assert(clock * spec_blip_factor(cb.buf) <= cb.max_safe_clock
                                    * spec_blip_factor(cb.buf)) by (nonlinear_arith)
                                    requires
                                        clock <= cb.max_safe_clock,
                                ;
                            }
                            blip_add_delta(&mut cb.buf, clock as u32, delta);
                        }
                    },
                    None => {},
                }
            }

            self.last_sample = sample;
            let period: u16 = (2048 - self.frequency.frequency) * 4;
            self.next_sample_cycle = self.next_sample_cycle + (period as u64);

            proof {
                assert(self@ == spec_channel_one_sample(before));
            }
        }
        self.current_sampling_cycle = end_cycle;
        proof {
            assert(final(self)@ =~= spec_channel_step(old(self)@, cycles));
        }
    }

    /// Steps the volume envelope when the volume sequence fired, unless the
    /// channel is silent.
    pub fn fire_sequences(&mut self, sequencers_to_fire: &crate::apu::SequencesToFire)
        ensures
            final(self)@ == spec_channel_fire(old(self)@, *sequencers_to_fire),
            spec_channel_wf(*old(self)) ==> spec_channel_wf(*final(self)),
    {
        if sequencers_to_fire.should_volume_sequence_fire() && !(self.trigger
            == Trigger::Stopped) {
            self.volume_envelope.step();
        }
    }

    /// Closes the elapsed frame: the clock bookkeeping rebases to the new
    /// frame's start and the buffer makes the frame's samples readable.
    pub fn end_frame(&mut self, cycles: u64)
        requires
            spec_channel_wf(*old(self)),
            cycles <= old(self).current_sampling_cycle,
        ensures
            final(self)@ == (ChanView {
                current_sampling_cycle: ((old(self).current_sampling_cycle - cycles) as u64),
                next_sample_cycle: ((old(self).next_sample_cycle - cycles) as u64),
                buffer: final(self)@.buffer,
                ..old(self)@
            }),
            spec_buffer_after_frame(old(self)@.buffer, final(self)@.buffer),
            spec_channel_wf(*final(self)),
    {
        self.current_sampling_cycle = self.current_sampling_cycle - cycles;
        self.next_sample_cycle = self.next_sample_cycle - cycles;
        match &mut self.buffer {
            Some(cb) => {
                if cycles <= cb.max_safe_clock && cycles <= 0xFFFF_FFFFu64 {
                    proof {
                        assert(cycles * spec_blip_factor(cb.buf) <= cb.max_safe_clock
                            * spec_blip_factor(cb.buf)) by (nonlinear_arith)
                            requires
                                cycles <= cb.max_safe_clock,
                        ;
                    }
                    blip_end_frame(&mut cb.buf, cycles as u32);
                }
            },
            None => {},
        }
    }

    /// Reads every available sample out of the channel's buffer.
    pub fn gather_samples(&mut self) -> (r: Vec<i16>)
        requires
            spec_channel_wf(*old(self)),
        ensures
            final(self)@ == (ChanView { buffer: final(self)@.buffer, ..old(self)@ }),
            spec_channel_wf(*final(self)),
            old(self)@.buffer is None ==> final(self)@.buffer is None && r@.len() == 0,
            match old(self)@.buffer {
                Some(b) => b.avail + BLIP_BUFFER_EXTRA <= b.capacity ==> r@.len() == b.avail
                    && final(self)@.buffer == Some(BlipView { avail: 0, capacity: b.capacity }),
                None => true,
            },
    {
        gather_samples_for_buffer(&mut self.buffer)
    }

    /// How many clock cycles must elapse before the buffer can supply the
    /// requested number of samples; a channel without a buffer needs none.
    /// Requests beyond the resampler's per-frame maximum are budgeted for
    /// that maximum.
    pub fn cycles_needed_to_generate_samples(&self, samples_needed: u32) -> (r: u32)
        requires
            spec_channel_wf(*self),
        ensures
            self@.buffer is None ==> r == 0,
    {
        let capped: u32 = if samples_needed > BLIP_MAX_FRAME {
            BLIP_MAX_FRAME
        } else {
            samples_needed
        };
        match &self.buffer {
            Some(cb) => {
                match blip_clocks_needed(&cb.buf, capped) {
                    Some(clocks) => clocks,
                    None => 0,
                }
            },
            None => 0,
        }
    }
}

/// The loop-stable part of a channel's bounds: everything of
/// `spec_channel_wf` except the tie between the two clock counters.
pub open spec fn spec_channel_wf_fields(ch: SquareChannel) -> bool {
    &&& ch.duty.phase < 8
    &&& ch.volume_envelope.current_volume <= 15
    &&& ch.frequency.frequency <= 2047
    &&& -15 <= ch.last_sample <= 15
    &&& match ch.buffer {
        Some(cb) => spec_buffer_wf(cb),
        None => true,
    }
}

/// The channel the constructors build, before any sweep register is put
/// in.
pub open spec fn spec_channel_initial() -> ChanView {
    ChanView {
        sweep: None,
        duty: Duty { duty_type: DutyType::Eighth, length: 0, phase: 0 },
        volume_envelope: VolumeEnvelope {
            initial_volume: 0,
            current_volume: 0,
            increase: false,
            sequence: FrameSequencer { timer: 0, period: 0 },
        },
        frequency: 0,
        trigger: Trigger::Stopped,
        play_mode: PlayMode::Consecutive,
        buffer: None,
        current_sampling_cycle: 0,
        next_sample_cycle: 0,
        last_sample: 0,
    }
}

/// The channel after the envelope fired (or not).
pub open spec fn spec_channel_fire(ch: ChanView, f: crate::apu::SequencesToFire) -> ChanView {
    if f.fire_volume && !(ch.trigger == Trigger::Stopped) {
        ChanView { volume_envelope: spec_envelope_step(ch.volume_envelope), ..ch }
    } else {
        ch
    }
}

/// Reads every available sample out of a buffer, leaving it empty. A
/// buffer whose padding is not free (which the library never produces)
/// yields nothing rather than reading out of bounds.
fn gather_samples_for_buffer(buffer: &mut Option<ChannelBuffer>) -> (r: Vec<i16>)
    requires
        match *old(buffer) {
            Some(cb) => spec_buffer_wf(cb),
            None => true,
        },
    ensures
        match *old(buffer) {
            Some(cb) => spec_buffer_wf(final(buffer).unwrap()),
            None => true,
        },
        *old(buffer) is None ==> *final(buffer) is None && r@.len() == 0,
        match *old(buffer) {
            Some(cb) => *final(buffer) is Some && final(buffer).unwrap().capacity == cb.capacity
                && spec_blip_capacity(final(buffer).unwrap().buf) == spec_blip_capacity(cb.buf) && (
            spec_blip_avail(cb.buf) + BLIP_BUFFER_EXTRA <= spec_blip_capacity(cb.buf)
                ==> r@.len() == spec_blip_avail(cb.buf) && spec_blip_avail(
                final(buffer).unwrap().buf,
            ) == 0),
            None => true,
        },
{
    match buffer {
        None => Vec::new(),
        Some(cb) => {
            let samples_available: u32 = blip_samples_avail(&cb.buf);
            if samples_available <= cb.capacity - BLIP_BUFFER_EXTRA {
                let mut samples: Vec<i16> = Vec::new();
                while samples.len() < samples_available as usize
                    invariant
                        samples@.len() <= samples_available,
                    decreases samples_available - samples@.len(),
                {
                    samples.push(0i16);
                }
                let _count = blip_read_samples(&mut cb.buf, &mut samples);
                samples
            } else {
                Vec::new()
            }
        },
    }
}

/// The register file of a square channel, read and written through the
/// sound I/O registers.
pub struct NoiseRegister {}

impl NoiseRegister {
    /// Reads the sweep register; only the first square channel has one.
    pub fn read_nr10(channel: &SquareChannel) -> (r: u8)
        requires
            channel.sweep is Some,
        ensures
            channel.sweep matches Some(s) ==> r == spec_sweep_byte(s),
    {
        match &channel.sweep {
            Some(s) => s.to_byte(),
            None => 0,
        }
    }

    /// Writes the sweep register.
    pub fn write_nr10(value: u8, channel: &mut SquareChannel)
        ensures
            final(channel)@ == (ChanView {
                sweep: Some(spec_sweep_from_byte(value)),
                ..old(channel)@
            }),
            spec_channel_wf(*old(channel)) ==> spec_channel_wf(*final(channel)),
    {
        channel.sweep = Some(Sweep::from_byte(value))
    }

    /// Reads the duty register; the length bits are write-only.
    pub fn read_nrx1(channel: &SquareChannel) -> (r: u8)
        ensures
            r == spec_duty_byte(channel.duty),
    {
        channel.duty.to_byte()
    }

    /// Writes the duty register, restarting the waveform phase.
    pub fn write_nrx1(value: u8, channel: &mut SquareChannel)
        ensures
            final(channel)@ == (ChanView { duty: spec_duty_from_byte(value), ..old(channel)@ }),
            spec_channel_wf(*old(channel)) ==> spec_channel_wf(*final(channel)),
    {
        channel.duty = Duty::from_byte(value)
    }

    /// Reads the envelope register.
    pub fn read_nrx2(channel: &SquareChannel) -> (r: u8)
        ensures
            r == spec_envelope_byte(channel.volume_envelope),
    {
        channel.volume_envelope.to_byte()
    }

    /// Writes the envelope register.
    pub fn write_nrx2(value: u8, channel: &mut SquareChannel)
        ensures
            final(channel)@ == (ChanView {
                volume_envelope: spec_envelope_from_byte(value),
                ..old(channel)@
            }),
            spec_channel_wf(*old(channel)) ==> spec_channel_wf(*final(channel)),
    {
        channel.volume_envelope = VolumeEnvelope::from_byte(value);
        proof {
            assert((value & 0xF0) >> 4 <= 15) by (bit_vector);
        }
    }

    /// The frequency registers are write-only and read as zero.
    pub fn read_nrx3(_channel: &SquareChannel) -> (r: u8)
        ensures
            r == 0,
    {
        0
    }

    /// Writes the low byte of the frequency.
    pub fn write_nrx3(value: u8, channel: &mut SquareChannel)
        ensures
            final(channel)@ == (ChanView {
                frequency: ((old(channel).frequency.frequency & 0xFF00) | (value as u16)),
                ..old(channel)@
            }),
            spec_channel_wf(*old(channel)) ==> spec_channel_wf(*final(channel)),
    {
        let msb: u16 = channel.frequency.frequency & 0xFF00;
        let lsb: u16 = value as u16;
        proof {
            let f = channel.frequency.frequency;
            assert(f <= 2047 ==> ((f & 0xFF00) | (value as u16)) <= 2047) by (bit_vector);
        }
        channel.frequency.frequency = msb | lsb;
    }

    /// Reads the play-mode bit; the rest of the register is write-only.
    pub fn read_nrx4(channel: &SquareChannel) -> (r: u8)
        ensures
            r == (match channel.play_mode {
                PlayMode::Counter => 0x40u8,
                PlayMode::Consecutive => 0u8,
            }),
    {
        match channel.play_mode {
            PlayMode::Counter => 0x40,
            PlayMode::Consecutive => 0x00,
        }
    }

    /// Writes the trigger bit, the play mode and the high frequency bits.
    pub fn write_nrx4(value: u8, channel: &mut SquareChannel)
        ensures
            final(channel)@ == (ChanView {
                trigger: if (value & 0x80) != 0 {
                    Trigger::Restart
                } else {
                    old(channel)@.trigger
                },
                play_mode: if (value & 0x40) != 0 {
                    PlayMode::Counter
                } else {
                    PlayMode::Consecutive
                },
                frequency: ((((value & 0x07) as u16) << 8) | (old(channel).frequency.frequency
                    & 0x00FF)),
                ..old(channel)@
            }),
            spec_channel_wf(*old(channel)) ==> spec_channel_wf(*final(channel)),
    {
        if (value & 0x80) != 0 {
            channel.trigger = Trigger::Restart;
        }
        channel.play_mode = if (value & 0x40) != 0 {
            PlayMode::Counter
        } else {
            PlayMode::Consecutive
        };
        let freq_msb: u16 = ((value & 0x07) as u16) << 8;
        let freq_lsb: u16 = channel.frequency.frequency & 0x00FF;
        proof {
            let f = channel.frequency.frequency;
            assert((((value & 0x07) as u16) << 8) | (f & 0x00FF) <= 2047) by (bit_vector);
        }
        channel.frequency.frequency = freq_msb | freq_lsb;
    }
}

} // verus!
