//! The audio unit: the two square channels, the frame sequencers that
//! clock their length, volume and sweep events, and the sound I/O register
//! file. Producing device samples out of the gathered channel output is
//! the host's task.
use vstd::prelude::*;

use crate::channels::ChanView;
use crate::channels::NoiseRegister;
use crate::channels::SquareChannel;
use crate::channels::spec_channel_fire;
use crate::channels::spec_channel_initial;
use crate::channels::spec_channel_step;
use crate::channels::spec_channel_wf;
use crate::channels::spec_buffer_after_frame;
use crate::channels::spec_sweep_byte;
use crate::channels::spec_sweep_from_byte;
use crate::channels::spec_duty_byte;
use crate::channels::spec_duty_from_byte;
use crate::channels::spec_envelope_byte;
use crate::channels::spec_envelope_from_byte;
use crate::channels::BlipView;
use crate::channels::BLIP_BUFFER_EXTRA;
use crate::channels::PlayMode;
use crate::channels::Trigger;

verus! {

/// Marker for hosts that drive the processor from an audio callback.
pub trait AudioLoop {

}

/// A divider that reloads to its period after counting down to zero,
/// reporting each underflow. (Unlike the general countdown in
/// `frame_sequencer`, this one spends `period + 1` ticks per round.)
#[derive(Clone, Copy, PartialEq, Eq, Structural, Debug)]
pub struct FrameSequencer {
    pub timer: u32,
    pub period: u32,
}

/// One tick of the divider.
pub open spec fn spec_divider_tick(fs: FrameSequencer) -> (FrameSequencer, bool) {
    if fs.timer == 0 {
        (FrameSequencer { timer: fs.period, ..fs }, true)
    } else {
        (FrameSequencer { timer: (fs.timer - 1) as u32, ..fs }, false)
    }
}

impl FrameSequencer {
    /// A divider that first fires after `initial_delay + 1` ticks.
    pub fn new(initial_delay: u32, period: u32) -> (r: FrameSequencer)
        ensures
            r == (FrameSequencer { timer: initial_delay, period: period }),
    {
        FrameSequencer { timer: initial_delay, period }
    }

    /// One tick down; reports and reloads on underflow.
    pub fn step(&mut self) -> (underflow: bool)
        ensures
            (*final(self), underflow) == spec_divider_tick(*old(self)),
    {
        if self.timer == 0 {
            self.timer = self.period;
            true
        } else {
            self.timer = self.timer - 1;
            false
        }
    }
}

/// Which of the three channel sequences fired during a step.
#[derive(Clone, Copy, PartialEq, Eq, Structural, Debug)]
pub struct SequencesToFire {
    pub fire_length: bool,
    pub fire_volume: bool,
    pub fire_sweep: bool,
}

/// No sequence fired.
pub open spec fn spec_no_fires() -> SequencesToFire {
    SequencesToFire { fire_length: false, fire_volume: false, fire_sweep: false }
}

/// The union of two firing reports.
pub open spec fn spec_fires_or(a: SequencesToFire, b: SequencesToFire) -> SequencesToFire {
    SequencesToFire {
        fire_length: a.fire_length || b.fire_length,
        fire_volume: a.fire_volume || b.fire_volume,
        fire_sweep: a.fire_sweep || b.fire_sweep,
    }
}

impl SequencesToFire {
    /// Whether the length sequence fired.
    pub fn should_length_sequence_fire(&self) -> (r: bool)
        ensures
            r == self.fire_length,
    {
        self.fire_length
    }

    /// Whether the volume sequence fired.
    pub fn should_volume_sequence_fire(&self) -> (r: bool)
        ensures
            r == self.fire_volume,
    {
        self.fire_volume
    }

    /// Whether the sweep sequence fired.
    pub fn should_sweep_sequence_fire(&self) -> (r: bool)
        ensures
            r == self.fire_sweep,
    {
        self.fire_sweep
    }

    /// Records that the length sequence fired.
    pub fn fire_length_sequence(&mut self)
        ensures
            *final(self) == (SequencesToFire { fire_length: true, ..*old(self) }),
    {
        self.fire_length = true;
    }

    /// Records that the volume sequence fired.
    pub fn fire_volume_sequence(&mut self)
        ensures
            *final(self) == (SequencesToFire { fire_volume: true, ..*old(self) }),
    {
        self.fire_volume = true;
    }

    /// Records that the sweep sequence fired.
    pub fn fire_sweep_sequence(&mut self)
        ensures
            *final(self) == (SequencesToFire { fire_sweep: true, ..*old(self) }),
    {
        self.fire_sweep = true;
    }
}

impl Default for SequencesToFire {
    /// No sequence fired.
    fn default() -> (r: Self)
        ensures
            r == spec_no_fires(),
    {
        SequencesToFire { fire_length: false, fire_volume: false, fire_sweep: false }
    }
}

/// The cascade of dividers deriving the length, volume and sweep events
/// from the processor clock.
#[derive(Clone, Copy, PartialEq, Eq, Structural, Debug)]
pub struct FrameSequencers {
    pub frame_sequencer: FrameSequencer,
    pub length_sequencer: FrameSequencer,
    pub volume_sequencer: FrameSequencer,
    pub sweep_sequencer: FrameSequencer,
}

/// One processor cycle through the cascade: when the base divider fires,
/// the length divider and (twice) the volume divider are ticked, the
/// second volume tick driving the sweep report.
pub open spec fn spec_sequencers_tick(s: FrameSequencers) -> (FrameSequencers, SequencesToFire) {
    let (base, base_fired) = spec_divider_tick(s.frame_sequencer);
    if base_fired {
        let (length, length_fired) = spec_divider_tick(s.length_sequencer);
        let (volume_once, volume_fired) = spec_divider_tick(s.volume_sequencer);
        let (volume_twice, sweep_fired) = spec_divider_tick(volume_once);
        (
            FrameSequencers {
                frame_sequencer: base,
                length_sequencer: length,
                volume_sequencer: volume_twice,
                sweep_sequencer: s.sweep_sequencer,
            },
            SequencesToFire {
                fire_length: length_fired,
                fire_volume: volume_fired,
                fire_sweep: sweep_fired,
            },
        )
    } else {
        (FrameSequencers { frame_sequencer: base, ..s }, spec_no_fires())
    }
}

/// The cascade after `n` processor cycles, with the union of everything
/// that fired.
pub open spec fn spec_sequencers_step(s: FrameSequencers, n: int) -> (
    FrameSequencers,
    SequencesToFire,
)
    decreases n,
{
    if n <= 0 {
        (s, spec_no_fires())
    } else {
        let (s1, f1) = spec_sequencers_step(s, n - 1);
        let (s2, f2) = spec_sequencers_tick(s1);
        (s2, spec_fires_or(f1, f2))
    }
}

impl FrameSequencers {
    /// The reset cascade.
    ///
    /// The base divider fires every 8192 processor cycles (512 Hz); off it,
    /// the length events run at every second firing, the volume events at
    /// every eighth.
    pub fn new() -> (r: FrameSequencers)
        ensures
            r == (FrameSequencers {
                frame_sequencer: FrameSequencer { timer: 0, period: 8192 },
                length_sequencer: FrameSequencer { timer: 0, period: 2 },
                volume_sequencer: FrameSequencer { timer: 7, period: 8 },
                sweep_sequencer: FrameSequencer { timer: 2, period: 4 },
            }),
    {
        FrameSequencers {
            frame_sequencer: FrameSequencer::new(0, crate::CPU_CLOCK_RATE_HZ / 512),
            length_sequencer: FrameSequencer::new(0, 2),
            volume_sequencer: FrameSequencer::new(7, 8),
            sweep_sequencer: FrameSequencer::new(2, 4),
        }
    }

    /// Runs the cascade for `cycles` processor cycles.
    pub fn step(&mut self, cycles: u8) -> (r: SequencesToFire)
        ensures
            (*final(self), r) == spec_sequencers_step(*old(self), cycles as int),
    {
        let mut sequences_to_fire = SequencesToFire::default();
        let mut i: u8 = 0;
        while i < cycles
            invariant
                i <= cycles,
                (*self, sequences_to_fire) == spec_sequencers_step(*old(self), i as int),
            decreases cycles - i,
        {
            if self.frame_sequencer.step() {
                if self.length_sequencer.step() {
                    sequences_to_fire.fire_length_sequence();
                }
                if self.volume_sequencer.step() {
                    sequences_to_fire.fire_volume_sequence();
                }
                if self.volume_sequencer.step() {
                    sequences_to_fire.fire_sweep_sequence();
                }
            }
            i = i + 1;
        }
        sequences_to_fire
    }
}

/// The audio unit.
pub struct APU {
    pub square_with_sweep: SquareChannel,
    pub square_without_sweep: SquareChannel,
    pub sequencers: FrameSequencers,
    pub cycles: u64,
}

/// The mathematical image of the audio unit.
#[verifier::ext_equal]
pub ghost struct ApuView {
    pub ch1: ChanView,
    pub ch2: ChanView,
    pub sequencers: FrameSequencers,
    pub cycles: u64,
}

/// The byte read from a sound register.
#[verifier::opaque]
pub open spec fn spec_apu_read(a: ApuView, address: int) -> u8 {
    if address == 0xFF10 {
        match a.ch1.sweep {
            Some(s) => spec_sweep_byte(s),
            None => 0u8,
        }
    } else if address == 0xFF11 {
        spec_duty_byte(a.ch1.duty)
    } else if address == 0xFF12 {
        spec_envelope_byte(a.ch1.volume_envelope)
    } else if address == 0xFF13 {
        0u8
    } else if address == 0xFF14 {
        match a.ch1.play_mode {
            PlayMode::Counter => 0x40u8,
            PlayMode::Consecutive => 0u8,
        }
    } else if address == 0xFF16 {
        spec_duty_byte(a.ch2.duty)
    } else if address == 0xFF17 {
        spec_envelope_byte(a.ch2.volume_envelope)
    } else if address == 0xFF18 {
        0u8
    } else {
        match a.ch2.play_mode {
            PlayMode::Counter => 0x40u8,
            PlayMode::Consecutive => 0u8,
        }
    }
}

/// One square channel after a write to one of its five registers, the
/// register picked by `reg` (0 to 4).
pub open spec fn spec_channel_reg_write(ch: ChanView, value: u8, reg: int) -> ChanView {
    if reg == 0 {
        ChanView { sweep: Some(spec_sweep_from_byte(value)), ..ch }
    } else if reg == 1 {
        ChanView { duty: spec_duty_from_byte(value), ..ch }
    } else if reg == 2 {
        ChanView { volume_envelope: spec_envelope_from_byte(value), ..ch }
    } else if reg == 3 {
        ChanView { frequency: ((ch.frequency & 0xFF00) | (value as u16)), ..ch }
    } else {
        ChanView {
            trigger: if (value & 0x80) != 0 {
                Trigger::Restart
            } else {
                ch.trigger
            },
            play_mode: if (value & 0x40) != 0 {
                PlayMode::Counter
            } else {
                PlayMode::Consecutive
            },
            frequency: ((((value & 0x07) as u16) << 8) | (ch.frequency & 0x00FF)),
            ..ch
        }
    }
}

/// The unit after a write to a sound register.
#[verifier::opaque]
pub open spec fn spec_apu_write(a: ApuView, value: u8, address: int) -> ApuView {
    if 0xFF10 <= address <= 0xFF14 {
        ApuView { ch1: spec_channel_reg_write(a.ch1, value, address - 0xFF10), ..a }
    } else {
        ApuView { ch2: spec_channel_reg_write(a.ch2, value, address - 0xFF15), ..a }
    }
}

impl View for APU {
    type V = ApuView;

    open spec fn view(&self) -> ApuView {
        ApuView {
            ch1: self.square_with_sweep@,
            ch2: self.square_without_sweep@,
            sequencers: self.sequencers,
            cycles: self.cycles,
        }
    }
}

/// The unit's running bounds: both channels are well-formed, the first one
/// owns a sweep register, and both channel clocks agree with the unit's
/// frame clock.
pub open spec fn spec_apu_wf(a: APU) -> bool {
    &&& spec_channel_wf(a.square_with_sweep)
    &&& spec_channel_wf(a.square_without_sweep)
    &&& a.square_with_sweep.sweep is Some
    &&& a.square_with_sweep.current_sampling_cycle == a.cycles
    &&& a.square_without_sweep.current_sampling_cycle == a.cycles
}

/// The unit after `cycles` processor cycles: the cascade runs, its firings
/// reach both channels, and both channels sample the elapsed window.
#[verifier::opaque]
pub open spec fn spec_apu_step(a: ApuView, cycles: u8) -> ApuView {
    let (sequencers, fires) = spec_sequencers_step(a.sequencers, cycles as int);
    ApuView {
        ch1: spec_channel_step(spec_channel_fire(a.ch1, fires), cycles),
        ch2: spec_channel_step(spec_channel_fire(a.ch2, fires), cycles),
        sequencers: sequencers,
        cycles: ((a.cycles + cycles) as u64),
    }
}

/// The reset state of the unit: both channels silent, the cascade at its
/// reset phases, no cycles into the frame.
pub open spec fn spec_apu_initial() -> ApuView {
    ApuView {
        ch1: ChanView { sweep: Some(spec_sweep_from_byte(0)), ..spec_channel_initial() },
        ch2: spec_channel_initial(),
        sequencers: FrameSequencers {
            frame_sequencer: FrameSequencer { timer: 0, period: 8192 },
            length_sequencer: FrameSequencer { timer: 0, period: 2 },
            volume_sequencer: FrameSequencer { timer: 7, period: 8 },
            sweep_sequencer: FrameSequencer { timer: 2, period: 4 },
        },
        cycles: 0,
    }
}

impl APU {
    /// The reset state.
    pub fn new() -> (r: APU)
        ensures
            r@ == spec_apu_initial(),
            spec_apu_wf(r),
    {
        APU {
            square_with_sweep: SquareChannel::new_with_sweep(),
            square_without_sweep: SquareChannel::new_without_sweep(),
            sequencers: FrameSequencers::new(),
            cycles: 0,
        }
    }

    /// Gives both channels fresh sample buffers for the given device
    /// sample rate.
    pub fn initialize_buffers(&mut self, sample_rate: u32, clock_rate: u32)
        requires
            1 <= sample_rate <= 0x000F_FFFF,
            0x10_0000 <= clock_rate,
            spec_apu_wf(*old(self)),
        ensures
            final(self)@ == (ApuView {
                ch1: ChanView {
                    buffer: Some(
                        BlipView {
                            avail: 0,
                            capacity: ((sample_rate / 10 + BLIP_BUFFER_EXTRA) as u32),
                        },
                    ),
                    ..old(self)@.ch1
                },
                ch2: ChanView {
                    buffer: Some(
                        BlipView {
                            avail: 0,
                            capacity: ((sample_rate / 10 + BLIP_BUFFER_EXTRA) as u32),
                        },
                    ),
                    ..old(self)@.ch2
                },
                ..old(self)@
            }),
            spec_apu_wf(*final(self)),
    {
        self.square_with_sweep.initialize_buffer(sample_rate, clock_rate);
        self.square_without_sweep.initialize_buffer(sample_rate, clock_rate);
    }

    /// Advances the audio unit by `cycles` processor cycles.
    pub fn step(&mut self, cycles: u8)
        requires
            spec_apu_wf(*old(self)),
            old(self).cycles + cycles <= 0x0002_0000_0000_0000u64,
        ensures
            final(self)@ == spec_apu_step(old(self)@, cycles),
            spec_apu_wf(*final(self)),
            final(self).cycles == old(self).cycles + cycles,
    {
        proof {
            reveal(spec_apu_step);
        }
        self.cycles = self.cycles + (cycles as u64);

        let sequencers_to_fire = self.sequencers.step(cycles);
        self.square_with_sweep.fire_sequences(&sequencers_to_fire);
        self.square_without_sweep.fire_sequences(&sequencers_to_fire);

        self.square_with_sweep.step(cycles);
        self.square_without_sweep.step(cycles);
    }

    /// Closes the elapsed frame: both channels rebase their clocks and
    /// publish the frame's samples, and the frame cycle count restarts.
    pub fn end_frame(&mut self)
        requires
            spec_apu_wf(*old(self)),
        ensures
            final(self)@ == (ApuView {
                ch1: ChanView {
                    current_sampling_cycle: 0,
                    next_sample_cycle: ((old(self)@.ch1.next_sample_cycle
                        - old(self)@.cycles) as u64),
                    buffer: final(self)@.ch1.buffer,
                    ..old(self)@.ch1
                },
                ch2: ChanView {
                    current_sampling_cycle: 0,
                    next_sample_cycle: ((old(self)@.ch2.next_sample_cycle
                        - old(self)@.cycles) as u64),
                    buffer: final(self)@.ch2.buffer,
                    ..old(self)@.ch2
                },
                cycles: 0,
                ..old(self)@
            }),
            spec_buffer_after_frame(old(self)@.ch1.buffer, final(self)@.ch1.buffer),
            spec_buffer_after_frame(old(self)@.ch2.buffer, final(self)@.ch2.buffer),
            spec_apu_wf(*final(self)),
    {
        let cycles: u64 = self.cycles;
        self.square_with_sweep.end_frame(cycles);
        self.square_without_sweep.end_frame(cycles);
        self.cycles = 0;
    }

    /// How many processor cycles must elapse before the buffers can supply
    /// the requested number of samples; without buffers none are needed.
    pub fn cycles_needed_to_generate_samples(&self, samples_needed: u32) -> (r: u32)
        requires
            spec_apu_wf(*self),
        ensures
            self@.ch1.buffer is None ==> r == 0,
    {
        self.square_with_sweep.cycles_needed_to_generate_samples(samples_needed)
    }

    /// Reads every available sample out of both channels, first channel
    /// first. Mixing and scaling the two streams into device samples is
    /// the host's task.
    pub fn gather_samples(&mut self) -> (r: (Vec<i16>, Vec<i16>))
        requires
            spec_apu_wf(*old(self)),
        ensures
            spec_apu_wf(*final(self)),
            final(self)@ == (ApuView {
                ch1: ChanView { buffer: final(self)@.ch1.buffer, ..old(self)@.ch1 },
                ch2: ChanView { buffer: final(self)@.ch2.buffer, ..old(self)@.ch2 },
                ..old(self)@
            }),
            match old(self)@.ch1.buffer {
                Some(b) => b.avail + BLIP_BUFFER_EXTRA <= b.capacity ==> r.0@.len() == b.avail
                    && final(self)@.ch1.buffer == Some(BlipView { avail: 0, capacity: b.capacity }),
                None => true,
            },
            match old(self)@.ch2.buffer {
                Some(b) => b.avail + BLIP_BUFFER_EXTRA <= b.capacity ==> r.1@.len() == b.avail
                    && final(self)@.ch2.buffer == Some(BlipView { avail: 0, capacity: b.capacity }),
                None => true,
            },
    {
        let channel1 = self.square_with_sweep.gather_samples();
        let channel2 = self.square_without_sweep.gather_samples();
        (channel1, channel2)
    }

    /// Whether the audio unit owns the given I/O register address: the two
    /// channels' register files.
    pub fn supports_io_register(address: usize) -> (r: bool)
        ensures
            r == ((0xFF10 <= address && address <= 0xFF19) && address != 0xFF15),
    {
        match address {
            0xFF10..=0xFF14 => true,
            0xFF16..=0xFF19 => true,
            _ => false,
        }
    }

    /// Reads a sound register.
    pub fn read_io_register(&self, address: usize) -> (r: u8)
        requires
            (0xFF10 <= address && address <= 0xFF19) && address != 0xFF15,
            spec_apu_wf(*self),
        ensures
            r == spec_apu_read(self@, address as int),
    {
        proof {
            reveal(spec_apu_read);
        }
        if address == 0xFF10 {
            NoiseRegister::read_nr10(&self.square_with_sweep)
        } else if address == 0xFF11 {
            NoiseRegister::read_nrx1(&self.square_with_sweep)
        } else if address == 0xFF12 {
            NoiseRegister::read_nrx2(&self.square_with_sweep)
        } else if address == 0xFF13 {
            NoiseRegister::read_nrx3(&self.square_with_sweep)
        } else if address == 0xFF14 {
            NoiseRegister::read_nrx4(&self.square_with_sweep)
        } else if address == 0xFF16 {
            NoiseRegister::read_nrx1(&self.square_without_sweep)
        } else if address == 0xFF17 {
            NoiseRegister::read_nrx2(&self.square_without_sweep)
        } else if address == 0xFF18 {
            NoiseRegister::read_nrx3(&self.square_without_sweep)
        } else {
            NoiseRegister::read_nrx4(&self.square_without_sweep)
        }
    }

    /// Writes a sound register.
    pub fn write_io_register(&mut self, value: u8, address: usize)
        requires
            (0xFF10 <= address && address <= 0xFF19) && address != 0xFF15,
            spec_apu_wf(*old(self)),
        ensures
            final(self)@ == spec_apu_write(old(self)@, value, address as int),
            spec_apu_wf(*final(self)),
            final(self).cycles == old(self).cycles,
    {
        proof {
            reveal(spec_apu_write);
        }
        if address == 0xFF10 {
            NoiseRegister::write_nr10(value, &mut self.square_with_sweep)
        } else if address == 0xFF11 {
            NoiseRegister::write_nrx1(value, &mut self.square_with_sweep)
        } else if address == 0xFF12 {
            NoiseRegister::write_nrx2(value, &mut self.square_with_sweep)
        } else if address == 0xFF13 {
            NoiseRegister::write_nrx3(value, &mut self.square_with_sweep)
        } else if address == 0xFF14 {
            NoiseRegister::write_nrx4(value, &mut self.square_with_sweep)
        } else if address == 0xFF16 {
            NoiseRegister::write_nrx1(value, &mut self.square_without_sweep)
        } else if address == 0xFF17 {
            NoiseRegister::write_nrx2(value, &mut self.square_without_sweep)
        } else if address == 0xFF18 {
            NoiseRegister::write_nrx3(value, &mut self.square_without_sweep)
        } else {
            NoiseRegister::write_nrx4(value, &mut self.square_without_sweep)
        }
    }
}

} // verus!
