use dmg01::apu::APU;
use dmg01::frame_sequencer::FrameSequencer;
use dmg01::input::InputState;
use dmg01::input::JoypadInput;
use dmg01::interrupts::Interrupt;
use dmg01::interrupts::InterruptsToSet;
use dmg01::palette::Palette;
use dmg01::palette::PixelValue;
use dmg01::ppu::PPU;
use dmg01::timers::Timers;

#[test]
fn countdown_reports_each_underflow() {
    let mut sequencer = FrameSequencer::new(0, 2);
    assert!(sequencer.step());
    assert_eq!(sequencer.timer, 1);
    assert!(!sequencer.step());
    assert!(sequencer.step());
}

#[test]
fn countdown_consumes_many_ticks_at_once() {
    let mut sequencer = FrameSequencer::new(255, 256);
    assert!(!sequencer.step_multiple(255));
    assert_eq!(sequencer.timer, 0);
    assert!(sequencer.step_multiple(3));
    assert_eq!(sequencer.timer, 253);
}

#[test]
fn divider_register_counts_every_256_cycles_and_resets_on_write() {
    let mut timers = Timers::default();
    assert_eq!(timers.read_io_register(0xFF04), 0);
    timers.step(255);
    assert_eq!(timers.read_io_register(0xFF04), 0);
    timers.step(1);
    assert_eq!(timers.read_io_register(0xFF04), 1);
    timers.write_io_register(0x55, 0xFF04);
    assert_eq!(timers.read_io_register(0xFF04), 0);
}

#[test]
fn joypad_register_reads_active_low() {
    let mut input = InputState::default();
    input.write_io_register(!0x20, 0xFF00);
    let mut pressed = JoypadInput::default();
    pressed.a = true;
    pressed.start = true;
    let fired = input.swap_to_next_joypad_state(pressed);
    assert!(fired.is_interrupt_set(Interrupt::Joypad));
    assert_eq!(input.read_io_register(0xFF00), !0x29);
}

#[test]
fn unchanged_joypad_state_raises_no_interrupt() {
    let mut input = InputState::default();
    let fired = input.swap_to_next_joypad_state(JoypadInput::default());
    assert!(!fired.is_interrupt_set(Interrupt::Joypad));
    let none = InterruptsToSet::default();
    assert!(!none.is_interrupt_set(Interrupt::VBlank));
}

#[test]
fn palette_byte_round_trips() {
    let palette = Palette::from_byte(0b1110_0100);
    assert_eq!(palette.to_byte(), 0b1110_0100);
    assert_eq!(palette.get_colour(&PixelValue::Zero), 0xF8F8F8);
    assert_eq!(palette.get_colour(&PixelValue::Three), 0x000000);
    let inverted = Palette::from_byte(0b0001_1011);
    assert_eq!(inverted.get_colour(&PixelValue::Zero), 0x000000);
    assert_eq!(inverted.get_colour(&PixelValue::Three), 0xF8F8F8);
}

#[test]
fn ppu_advances_through_its_modes_and_counts_lines() {
    let mut ppu = PPU::new();
    assert_eq!(ppu.read_io_register(0xFF44), 0);
    ppu.step(200);
    assert_eq!(ppu.read_io_register(0xFF44), 1);
    ppu.write_io_register(7, 0xFF42);
    assert_eq!(ppu.read_io_register(0xFF42), 7);
    ppu.write_io_register(0x99, 0xFF44);
    assert_eq!(ppu.read_io_register(0xFF44), 1);
}

#[test]
fn ppu_raises_vblank_at_the_frame_end() {
    let mut ppu = PPU::new();
    let mut saw_vblank = false;
    for _ in 0..2000 {
        let interrupts = ppu.step(200);
        if interrupts.is_interrupt_set(Interrupt::VBlank) {
            saw_vblank = true;
            break;
        }
    }
    assert!(saw_vblank);
}

#[test]
fn vram_writes_read_back() {
    let mut ppu = PPU::new();
    ppu.write_vram(0xAB, 0x1234);
    assert_eq!(ppu.read_vram(0x1234), 0xAB);
}

#[test]
fn sound_registers_round_trip_their_readable_bits() {
    let mut apu = APU::new();
    apu.write_io_register(0x77, 0xFF10);
    assert_eq!(apu.read_io_register(0xFF10), 0x77);
    apu.write_io_register(0xBF, 0xFF11);
    assert_eq!(apu.read_io_register(0xFF11), 0x80);
    apu.write_io_register(0xA3, 0xFF12);
    assert_eq!(apu.read_io_register(0xFF12), 0xA3);
    apu.write_io_register(0x12, 0xFF13);
    assert_eq!(apu.read_io_register(0xFF13), 0);
    apu.write_io_register(0x40, 0xFF14);
    assert_eq!(apu.read_io_register(0xFF14), 0x40);
    assert!(APU::supports_io_register(0xFF19));
    assert!(!APU::supports_io_register(0xFF15));
    assert!(!APU::supports_io_register(0xFF1A));
}

#[test]
fn audio_unit_produces_samples_through_its_buffers() {
    let mut apu = APU::new();
    apu.initialize_buffers(44100, dmg01::CPU_CLOCK_RATE_HZ);
    let clocks_needed = apu.cycles_needed_to_generate_samples(100);
    assert!(clocks_needed > 0);

    apu.write_io_register(0xF0, 0xFF12);
    apu.write_io_register(0x00, 0xFF13);
    apu.write_io_register(0x87, 0xFF14);
    for _ in 0..400 {
        apu.step(200);
    }
    apu.end_frame();
    let (left, right) = apu.gather_samples();
    assert!(left.len() > 0);
    assert_eq!(right.len(), left.len());
    assert!(left.iter().any(|s| *s != 0));

    let (after_left, _after_right) = apu.gather_samples();
    assert_eq!(after_left.len(), 0);
}

#[test]
fn driver_loop_runs_whole_frames() {
    let mut cpu = dmg01::cpu::CPU::new(None);
    cpu.bus.apu.initialize_buffers(44100, dmg01::CPU_CLOCK_RATE_HZ);
    dmg01::cpu::run_cycles_for_desired_samples(735, &mut cpu).unwrap();
    let (left, _right) = cpu.bus.apu.gather_samples();
    assert!(left.len() >= 735);
}
