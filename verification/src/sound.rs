//! The audio processing unit: four channels, the DIV-driven frame
//! sequencer, length counters, envelopes, the channel 1 frequency sweep and
//! the channel 4 LFSR noise source.
//!
//! The core produces digital 4-bit samples per channel; the host converts
//! them to analog values, applies the high-pass filter and mixes, so no
//! floating point lives here.  A sample quadruple (channels 1-4) is pushed
//! to `sample_buffer` at the host rate of 44100 Hz.
use vstd::prelude::*;

verus! {

use crate::bits::{spec_bit, get_bit, spec_set_bit, spec_clear_bit, set_bit, clear_bit};
use crate::constants::{NR52_ADDR, NR51_ADDR, NR50_ADDR, NR10_ADDR, NR11_ADDR, NR12_ADDR,
    NR13_ADDR, NR14_ADDR, NR21_ADDR, NR22_ADDR, NR23_ADDR, NR24_ADDR, NR30_ADDR, NR31_ADDR,
    NR32_ADDR, NR33_ADDR, NR34_ADDR, NR41_ADDR, NR42_ADDR, NR43_ADDR, NR44_ADDR,
    WAVE_RANGE_START, TARGET_SAMPLE_RATE, CLOCK_FREQ_HZ};
use crate::memory::{AddressSpace, BusView};

#[derive(Clone, Copy, PartialEq, Eq, Structural, Debug)]
pub enum SweepDirection {
    Inc,
    Dec,
}

#[derive(Clone, Copy, PartialEq, Eq, Structural, Debug)]
pub enum WaveDuty {
    Half,
    Quarter,
    Eight,
    InvQuarter,
}

#[derive(Clone, Copy, PartialEq, Eq, Structural, Debug)]
pub enum EnvelopeDirection {
    Inc,
    Dec,
}

#[derive(Clone, Copy, PartialEq, Eq, Structural, Debug)]
pub enum OutputLevel {
    Mute,
    Full,
    Half,
    Quarter,
}

#[derive(Clone, Copy, PartialEq, Eq, Structural, Debug)]
pub enum LFSRWidth {
    Bits15,
    Bits7,
}

/// NR52 bit 7: master audio enable.
pub fn apu_enabled(memory: &AddressSpace) -> (r: bool)
    requires
        memory@.wf(),
    ensures
        r == spec_bit(memory@.io[0x26], 128),
{
    proof {
        reveal(BusView::read_spec);
    }
    get_bit(memory.read(NR52_ADDR), 128)
}

pub fn ch1_on(memory: &AddressSpace) -> (r: bool)
    requires
        memory@.wf(),
    ensures
        r == spec_bit(memory@.io[0x26], 1),
{
    proof {
        reveal(BusView::read_spec);
    }
    get_bit(memory.read(NR52_ADDR), 1)
}

pub fn ch2_on(memory: &AddressSpace) -> (r: bool)
    requires
        memory@.wf(),
    ensures
        r == spec_bit(memory@.io[0x26], 2),
{
    proof {
        reveal(BusView::read_spec);
    }
    get_bit(memory.read(NR52_ADDR), 2)
}

pub fn ch3_on(memory: &AddressSpace) -> (r: bool)
    requires
        memory@.wf(),
    ensures
        r == spec_bit(memory@.io[0x26], 4),
{
    proof {
        reveal(BusView::read_spec);
    }
    get_bit(memory.read(NR52_ADDR), 4)
}

pub fn ch4_on(memory: &AddressSpace) -> (r: bool)
    requires
        memory@.wf(),
    ensures
        r == spec_bit(memory@.io[0x26], 8),
{
    proof {
        reveal(BusView::read_spec);
    }
    get_bit(memory.read(NR52_ADDR), 8)
}

/// The bus after a channel-enable report into NR52's low nibble.
pub open spec fn spec_set_ch_on(b: BusView, m: u8, status: bool) -> BusView {
    let v = b.io[0x26];
    let nv = if status {
        spec_set_bit(v, m)
    } else {
        spec_clear_bit(v, m)
    };
    BusView { io: b.io.update(0x26, ((nv % 16) + v / 128 * 128) as u8), ..b }
}

pub fn set_ch1_on(status: bool, memory: &mut AddressSpace)
    requires
        old(memory)@.wf(),
    ensures
        final(memory)@ == spec_set_ch_on(old(memory)@, 1, status),
        final(memory)@.wf(),
{
    let value = memory.apu_read(NR52_ADDR);
    if status {
        memory.apu_write_nr52(set_bit(value, 1));
    } else {
        memory.apu_write_nr52(clear_bit(value, 1));
    }
}

pub fn set_ch2_on(status: bool, memory: &mut AddressSpace)
    requires
        old(memory)@.wf(),
    ensures
        final(memory)@ == spec_set_ch_on(old(memory)@, 2, status),
        final(memory)@.wf(),
{
    let value = memory.apu_read(NR52_ADDR);
    if status {
        memory.apu_write_nr52(set_bit(value, 2));
    } else {
        memory.apu_write_nr52(clear_bit(value, 2));
    }
}

pub fn set_ch3_on(status: bool, memory: &mut AddressSpace)
    requires
        old(memory)@.wf(),
    ensures
        final(memory)@ == spec_set_ch_on(old(memory)@, 4, status),
        final(memory)@.wf(),
{
    let value = memory.apu_read(NR52_ADDR);
    if status {
        memory.apu_write_nr52(set_bit(value, 4));
    } else {
        memory.apu_write_nr52(clear_bit(value, 4));
    }
}

pub fn set_ch4_on(status: bool, memory: &mut AddressSpace)
    requires
        old(memory)@.wf(),
    ensures
        final(memory)@ == spec_set_ch_on(old(memory)@, 8, status),
        final(memory)@.wf(),
{
    let value = memory.apu_read(NR52_ADDR);
    if status {
        memory.apu_write_nr52(set_bit(value, 8));
    } else {
        memory.apu_write_nr52(clear_bit(value, 8));
    }
}

/// NR50 bits 4-6.
pub fn master_left_volume(memory: &AddressSpace) -> (r: u8)
    requires
        memory@.wf(),
    ensures
        r == memory@.io[0x24] / 16 % 8,
{
    proof {
        reveal(BusView::read_spec);
    }
    memory.read(NR50_ADDR) / 16 % 8
}

/// NR50 bits 0-2.
pub fn master_right_volume(memory: &AddressSpace) -> (r: u8)
    requires
        memory@.wf(),
    ensures
        r == memory@.io[0x24] % 8,
{
    proof {
        reveal(BusView::read_spec);
    }
    memory.read(NR50_ADDR) % 8
}

pub fn ch1_pan_left(memory: &AddressSpace) -> (r: bool)
    requires
        memory@.wf(),
    ensures
        r == spec_bit(memory@.io[0x25], 16),
{
    proof {
        reveal(BusView::read_spec);
    }
    get_bit(memory.read(NR51_ADDR), 16)
}

pub fn ch2_pan_left(memory: &AddressSpace) -> (r: bool)
    requires
        memory@.wf(),
    ensures
        r == spec_bit(memory@.io[0x25], 32),
{
    proof {
        reveal(BusView::read_spec);
    }
    get_bit(memory.read(NR51_ADDR), 32)
}

pub fn ch3_pan_left(memory: &AddressSpace) -> (r: bool)
    requires
        memory@.wf(),
    ensures
        r == spec_bit(memory@.io[0x25], 64),
{
    proof {
        reveal(BusView::read_spec);
    }
    get_bit(memory.read(NR51_ADDR), 64)
}

pub fn ch4_pan_left(memory: &AddressSpace) -> (r: bool)
    requires
        memory@.wf(),
    ensures
        r == spec_bit(memory@.io[0x25], 128),
{
    proof {
        reveal(BusView::read_spec);
    }
    get_bit(memory.read(NR51_ADDR), 128)
}

pub fn ch1_pan_right(memory: &AddressSpace) -> (r: bool)
    requires
        memory@.wf(),
    ensures
        r == spec_bit(memory@.io[0x25], 1),
{
    proof {
        reveal(BusView::read_spec);
    }
    get_bit(memory.read(NR51_ADDR), 1)
}

pub fn ch2_pan_right(memory: &AddressSpace) -> (r: bool)
    requires
        memory@.wf(),
    ensures
        r == spec_bit(memory@.io[0x25], 2),
{
    proof {
        reveal(BusView::read_spec);
    }
    get_bit(memory.read(NR51_ADDR), 2)
}

pub fn ch3_pan_right(memory: &AddressSpace) -> (r: bool)
    requires
        memory@.wf(),
    ensures
        r == spec_bit(memory@.io[0x25], 4),
{
    proof {
        reveal(BusView::read_spec);
    }
    get_bit(memory.read(NR51_ADDR), 4)
}

pub fn ch4_pan_right(memory: &AddressSpace) -> (r: bool)
    requires
        memory@.wf(),
    ensures
        r == spec_bit(memory@.io[0x25], 8),
{
    proof {
        reveal(BusView::read_spec);
    }
    get_bit(memory.read(NR51_ADDR), 8)
}

/// NR10 bits 4-6: sweep pace.
pub fn ch1_period_sweep_pace(memory: &AddressSpace) -> (r: u8)
    requires
        memory@.wf(),
    ensures
        r == memory@.io[0x10] / 16 % 8,
{
    proof {
        reveal(BusView::read_spec);
    }
    memory.read(NR10_ADDR) / 16 % 8
}

/// NR10 bit 3: subtracting sweep when set.
pub fn ch1_sweep_direction(memory: &AddressSpace) -> (r: SweepDirection)
    requires
        memory@.wf(),
    ensures
        r == (if spec_bit(memory@.io[0x10], 8) {
            SweepDirection::Dec
        } else {
            SweepDirection::Inc
        }),
{
    proof {
        reveal(BusView::read_spec);
    }
    if get_bit(memory.read(NR10_ADDR), 8) {
        SweepDirection::Dec
    } else {
        SweepDirection::Inc
    }
}

/// NR10 bits 0-2: sweep step.
pub fn ch1_period_sweep_step(memory: &AddressSpace) -> (r: u8)
    requires
        memory@.wf(),
    ensures
        r == memory@.io[0x10] % 8,
        r < 8,
{
    proof {
        reveal(BusView::read_spec);
    }
    memory.read(NR10_ADDR) % 8
}

pub fn ch1_wave_duty(memory: &AddressSpace) -> (r: WaveDuty)
    requires
        memory@.wf(),
    ensures
        r == spec_wave_duty(memory@.io[0x11]),
{
    let v = memory.apu_read(NR11_ADDR) / 64 % 4;
    if v == 0 {
        WaveDuty::Eight
    } else if v == 1 {
        WaveDuty::Quarter
    } else if v == 2 {
        WaveDuty::Half
    } else {
        WaveDuty::InvQuarter
    }
}

pub open spec fn spec_wave_duty(reg: u8) -> WaveDuty {
    let v = reg / 64 % 4;
    if v == 0 {
        WaveDuty::Eight
    } else if v == 1 {
        WaveDuty::Quarter
    } else if v == 2 {
        WaveDuty::Half
    } else {
        WaveDuty::InvQuarter
    }
}

/// NR11 bits 0-5, cleared on read: the initial length is consumed.
pub fn ch1_initial_len(memory: &mut AddressSpace) -> (r: u8)
    requires
        old(memory)@.wf(),
    ensures
        r == old(memory)@.io[0x11] % 64,
        final(memory)@ == old(memory)@.write_spec(
            NR11_ADDR,
            (old(memory)@.io[0x11] / 64 * 64) as u8,
        ),
        final(memory)@.wf(),
        r < 64,
{
    let value = memory.apu_read(NR11_ADDR);
    memory.write(NR11_ADDR, value / 64 * 64);
    value % 64
}

pub fn ch1_initial_volume(memory: &AddressSpace) -> (r: u8)
    requires
        memory@.wf(),
    ensures
        r == memory@.io[0x12] / 16,
        r < 16,
{
    proof {
        reveal(BusView::read_spec);
    }
    memory.read(NR12_ADDR) / 16 % 16
}

pub fn ch1_envelope_direction(memory: &AddressSpace) -> (r: EnvelopeDirection)
    requires
        memory@.wf(),
    ensures
        r == (if spec_bit(memory@.io[0x12], 8) {
            EnvelopeDirection::Inc
        } else {
            EnvelopeDirection::Dec
        }),
{
    proof {
        reveal(BusView::read_spec);
    }
    if get_bit(memory.read(NR12_ADDR), 8) {
        EnvelopeDirection::Inc
    } else {
        EnvelopeDirection::Dec
    }
}

pub fn ch1_envelope_sweep_pace(memory: &AddressSpace) -> (r: u8)
    requires
        memory@.wf(),
    ensures
        r == memory@.io[0x12] % 8,
{
    proof {
        reveal(BusView::read_spec);
    }
    memory.read(NR12_ADDR) % 8
}

/// The DAC is on while any of NR12's bits 3-7 is set.
pub fn ch1_dac_on(memory: &AddressSpace) -> (r: bool)
    requires
        memory@.wf(),
    ensures
        r == (memory@.io[0x12] / 8 != 0),
{
    proof {
        reveal(BusView::read_spec);
    }
    memory.read(NR12_ADDR) / 8 != 0
}

pub fn ch1_initial_period_low(memory: &AddressSpace) -> (r: u8)
    requires
        memory@.wf(),
    ensures
        r == memory@.io[0x13],
{
    memory.apu_read(NR13_ADDR)
}

pub fn ch1_initial_period_high(memory: &AddressSpace) -> (r: u8)
    requires
        memory@.wf(),
    ensures
        r == memory@.io[0x14] % 8,
        r < 8,
{
    memory.apu_read(NR14_ADDR) % 8
}

pub fn ch1_length_enable(memory: &AddressSpace) -> (r: bool)
    requires
        memory@.wf(),
    ensures
        r == spec_bit(memory@.io[0x14], 64),
{
    proof {
        reveal(BusView::read_spec);
    }
    get_bit(memory.apu_read(NR14_ADDR), 64)
}

/// NR14 bit 7, consumed on read: trigger requests clear once seen.  Bits 4
/// and 5 of the register are dropped with it, as the hardware never stores
/// them.
pub fn ch1_trigger(memory: &mut AddressSpace) -> (r: bool)
    requires
        old(memory)@.wf(),
    ensures
        r == spec_bit(old(memory)@.io[0x14], 128),
        r ==> final(memory)@ == old(memory)@.write_spec(
            NR14_ADDR,
            (old(memory)@.io[0x14] % 16 + old(memory)@.io[0x14] / 64 % 2 * 64) as u8,
        ),
        !r ==> final(memory)@ == old(memory)@,
        final(memory)@.wf(),
{
    let reg_value = memory.apu_read(NR14_ADDR);
    let state = get_bit(reg_value, 128);
    if state {
        memory.write(NR14_ADDR, reg_value % 16 + reg_value / 64 % 2 * 64);
    }
    state
}

pub fn ch2_wave_duty(memory: &AddressSpace) -> (r: WaveDuty)
    requires
        memory@.wf(),
    ensures
        r == spec_wave_duty(memory@.io[0x16]),
{
    let v = memory.apu_read(NR21_ADDR) / 64 % 4;
    if v == 0 {
        WaveDuty::Eight
    } else if v == 1 {
        WaveDuty::Quarter
    } else if v == 2 {
        WaveDuty::Half
    } else {
        WaveDuty::InvQuarter
    }
}

pub fn ch2_initial_len(memory: &mut AddressSpace) -> (r: u8)
    requires
        old(memory)@.wf(),
    ensures
        r == old(memory)@.io[0x16] % 64,
        final(memory)@ == old(memory)@.write_spec(
            NR21_ADDR,
            (old(memory)@.io[0x16] / 64 * 64) as u8,
        ),
        final(memory)@.wf(),
        r < 64,
{
    let value = memory.apu_read(NR21_ADDR);
    memory.write(NR21_ADDR, value / 64 * 64);
    value % 64
}

pub fn ch2_initial_volume(memory: &AddressSpace) -> (r: u8)
    requires
        memory@.wf(),
    ensures
        r == memory@.io[0x17] / 16,
        r < 16,
{
    proof {
        reveal(BusView::read_spec);
    }
    memory.read(NR22_ADDR) / 16 % 16
}

pub fn ch2_envelope_direction(memory: &AddressSpace) -> (r: EnvelopeDirection)
    requires
        memory@.wf(),
    ensures
        r == (if spec_bit(memory@.io[0x17], 8) {
            EnvelopeDirection::Inc
        } else {
            EnvelopeDirection::Dec
        }),
{
    proof {
        reveal(BusView::read_spec);
    }
    if get_bit(memory.read(NR22_ADDR), 8) {
        EnvelopeDirection::Inc
    } else {
        EnvelopeDirection::Dec
    }
}

pub fn ch2_envelope_sweep_pace(memory: &AddressSpace) -> (r: u8)
    requires
        memory@.wf(),
    ensures
        r == memory@.io[0x17] % 8,
{
    proof {
        reveal(BusView::read_spec);
    }
    memory.read(NR22_ADDR) % 8
}

pub fn ch2_dac_on(memory: &AddressSpace) -> (r: bool)
    requires
        memory@.wf(),
    ensures
        r == (memory@.io[0x17] / 8 != 0),
{
    proof {
        reveal(BusView::read_spec);
    }
    memory.read(NR22_ADDR) / 8 != 0
}

pub fn ch2_initial_period_low(memory: &AddressSpace) -> (r: u8)
    requires
        memory@.wf(),
    ensures
        r == memory@.io[0x18],
{
    memory.apu_read(NR23_ADDR)
}

pub fn ch2_initial_period_high(memory: &AddressSpace) -> (r: u8)
    requires
        memory@.wf(),
    ensures
        r == memory@.io[0x19] % 8,
        r < 8,
{
    memory.apu_read(NR24_ADDR) % 8
}

pub fn ch2_length_enable(memory: &AddressSpace) -> (r: bool)
    requires
        memory@.wf(),
    ensures
        r == spec_bit(memory@.io[0x19], 64),
{
    get_bit(memory.apu_read(NR24_ADDR), 64)
}

pub fn ch2_trigger(memory: &mut AddressSpace) -> (r: bool)
    requires
        old(memory)@.wf(),
    ensures
        r == spec_bit(old(memory)@.io[0x19], 128),
        r ==> final(memory)@ == old(memory)@.write_spec(
            NR24_ADDR,
            (old(memory)@.io[0x19] % 16 + old(memory)@.io[0x19] / 64 % 2 * 64) as u8,
        ),
        !r ==> final(memory)@ == old(memory)@,
        final(memory)@.wf(),
{
    let reg_value = memory.apu_read(NR24_ADDR);
    let state = get_bit(reg_value, 128);
    if state {
        memory.write(NR24_ADDR, reg_value % 16 + reg_value / 64 % 2 * 64);
    }
    state
}

/// NR30 bit 7.
pub fn ch3_dac_on(memory: &AddressSpace) -> (r: bool)
    requires
        memory@.wf(),
    ensures
        r == spec_bit(memory@.io[0x1A], 128),
{
    proof {
        reveal(BusView::read_spec);
    }
    get_bit(memory.read(NR30_ADDR), 128)
}

/// NR31: the full byte is the 256-count length.
pub fn ch3_initial_len(memory: &AddressSpace) -> (r: u8)
    requires
        memory@.wf(),
    ensures
        r == memory@.io[0x1B],
{
    memory.apu_read(NR31_ADDR)
}

/// NR32 bits 5-6: output level (mute, full, half, quarter).
pub fn ch3_output_level(memory: &AddressSpace) -> (r: OutputLevel)
    requires
        memory@.wf(),
    ensures
        r == spec_output_level(memory@.io[0x1C]),
{
    proof {
        reveal(BusView::read_spec);
    }
    let v = memory.read(NR32_ADDR) / 32 % 4;
    if v == 0 {
        OutputLevel::Mute
    } else if v == 1 {
        OutputLevel::Full
    } else if v == 2 {
        OutputLevel::Half
    } else {
        OutputLevel::Quarter
    }
}

pub open spec fn spec_output_level(reg: u8) -> OutputLevel {
    let v = reg / 32 % 4;
    if v == 0 {
        OutputLevel::Mute
    } else if v == 1 {
        OutputLevel::Full
    } else if v == 2 {
        OutputLevel::Half
    } else {
        OutputLevel::Quarter
    }
}

pub fn ch3_initial_period_low(memory: &AddressSpace) -> (r: u8)
    requires
        memory@.wf(),
    ensures
        r == memory@.io[0x1D],
{
    memory.apu_read(NR33_ADDR)
}

pub fn ch3_initial_period_high(memory: &AddressSpace) -> (r: u8)
    requires
        memory@.wf(),
    ensures
        r == memory@.io[0x1E] % 8,
        r < 8,
{
    memory.apu_read(NR34_ADDR) % 8
}

pub fn ch3_length_enable(memory: &AddressSpace) -> (r: bool)
    requires
        memory@.wf(),
    ensures
        r == spec_bit(memory@.io[0x1E], 64),
{
    get_bit(memory.apu_read(NR34_ADDR), 64)
}

pub fn ch3_trigger(memory: &mut AddressSpace) -> (r: bool)
    requires
        old(memory)@.wf(),
    ensures
        r == spec_bit(old(memory)@.io[0x1E], 128),
        r ==> final(memory)@ == old(memory)@.write_spec(
            NR34_ADDR,
            (old(memory)@.io[0x1E] % 16 + old(memory)@.io[0x1E] / 64 % 2 * 64) as u8,
        ),
        !r ==> final(memory)@ == old(memory)@,
        final(memory)@.wf(),
{
    let reg_value = memory.apu_read(NR34_ADDR);
    let state = get_bit(reg_value, 128);
    if state {
        memory.write(NR34_ADDR, reg_value % 16 + reg_value / 64 % 2 * 64);
    }
    state
}

/// One of the 32 packed 4-bit wave samples in FF30-FF3F; even indices are
/// the high nibble.
pub fn ch3_wave_sample(index: u8, memory: &AddressSpace) -> (r: u8)
    requires
        memory@.wf(),
        index < 32,
    ensures
        r == (if index % 2 == 1 {
            memory@.io[0x30 + index / 2] % 16
        } else {
            memory@.io[0x30 + index / 2] / 16
        }),
        r < 16,
{
    let item_byte = memory.apu_read(WAVE_RANGE_START + index as u16 / 2);
    if index % 2 == 1 {
        item_byte % 16
    } else {
        item_byte / 16 % 16
    }
}

/// NR41 bits 0-5.
pub fn ch4_initial_len(memory: &AddressSpace) -> (r: u8)
    requires
        memory@.wf(),
    ensures
        r == memory@.io[0x20] % 64,
        r < 64,
{
    memory.apu_read(NR41_ADDR) % 64
}

pub fn ch4_initial_volume(memory: &AddressSpace) -> (r: u8)
    requires
        memory@.wf(),
    ensures
        r == memory@.io[0x21] / 16,
        r < 16,
{
    proof {
        reveal(BusView::read_spec);
    }
    memory.read(NR42_ADDR) / 16 % 16
}

pub fn ch4_envelope_direction(memory: &AddressSpace) -> (r: EnvelopeDirection)
    requires
        memory@.wf(),
    ensures
        r == (if spec_bit(memory@.io[0x21], 8) {
            EnvelopeDirection::Inc
        } else {
            EnvelopeDirection::Dec
        }),
{
    proof {
        reveal(BusView::read_spec);
    }
    if get_bit(memory.read(NR42_ADDR), 8) {
        EnvelopeDirection::Inc
    } else {
        EnvelopeDirection::Dec
    }
}

pub fn ch4_envelope_sweep_pace(memory: &AddressSpace) -> (r: u8)
    requires
        memory@.wf(),
    ensures
        r == memory@.io[0x21] % 8,
{
    proof {
        reveal(BusView::read_spec);
    }
    memory.read(NR42_ADDR) % 8
}

pub fn ch4_dac_on(memory: &AddressSpace) -> (r: bool)
    requires
        memory@.wf(),
    ensures
        r == (memory@.io[0x21] / 8 != 0),
{
    proof {
        reveal(BusView::read_spec);
    }
    memory.read(NR42_ADDR) / 8 != 0
}

/// NR43 bits 0-2: the divisor code.
pub fn ch4_clock_divider(memory: &AddressSpace) -> (r: u8)
    requires
        memory@.wf(),
    ensures
        r == memory@.io[0x22] % 8,
        r < 8,
{
    proof {
        reveal(BusView::read_spec);
    }
    memory.read(NR43_ADDR) % 8
}

/// NR43 bit 3: 7-bit LFSR when set.
pub fn ch4_lfsr_width(memory: &AddressSpace) -> (r: LFSRWidth)
    requires
        memory@.wf(),
    ensures
        r == (if spec_bit(memory@.io[0x22], 8) {
            LFSRWidth::Bits7
        } else {
            LFSRWidth::Bits15
        }),
{
    proof {
        reveal(BusView::read_spec);
    }
    if get_bit(memory.read(NR43_ADDR), 8) {
        LFSRWidth::Bits7
    } else {
        LFSRWidth::Bits15
    }
}

/// NR43 bits 4-6: the clock shift.
pub fn ch4_clock_shift(memory: &AddressSpace) -> (r: u8)
    requires
        memory@.wf(),
    ensures
        r == memory@.io[0x22] / 16 % 8,
        r < 8,
{
    proof {
        reveal(BusView::read_spec);
    }
    memory.read(NR43_ADDR) / 16 % 8
}

pub fn ch4_length_enable(memory: &AddressSpace) -> (r: bool)
    requires
        memory@.wf(),
    ensures
        r == spec_bit(memory@.io[0x23], 64),
{
    get_bit(memory.apu_read(NR44_ADDR), 64)
}

pub fn ch4_trigger(memory: &mut AddressSpace) -> (r: bool)
    requires
        old(memory)@.wf(),
    ensures
        r == spec_bit(old(memory)@.io[0x23], 128),
        r ==> final(memory)@ == old(memory)@.write_spec(
            NR44_ADDR,
            (old(memory)@.io[0x23] % 16 + old(memory)@.io[0x23] / 64 % 2 * 64) as u8,
        ),
        !r ==> final(memory)@ == old(memory)@,
        final(memory)@.wf(),
{
    let reg_value = memory.apu_read(NR44_ADDR);
    let state = get_bit(reg_value, 128);
    if state {
        memory.write(NR44_ADDR, reg_value % 16 + reg_value / 64 % 2 * 64);
    }
    state
}

/// One sound channel's sequencer state.
#[derive(Clone, Copy, PartialEq, Eq, Structural, Debug)]
pub struct Channel {
    pub on: bool,
    pub volume: u8,
    pub env_sweep_step: u8,
    pub env_sweep_pace: u8,
    pub freq_sweep_enabled: bool,
    pub length_i: u8,
    pub length_enabled: bool,
    pub sample_index: u8,
    pub period_step: u16,
    pub period: u16,
    pub freq_sweep_i: u8,
    pub freq_sweep_pace: u8,
    pub initial_volume: u8,
    pub shadow_period: u16,
    pub negative_sweep_calc_executed: bool,
    pub lfsr: u16,
}

impl Channel {
    pub fn new() -> (r: Channel)
        ensures
            r == spec_channel_new(),
    {
        Channel {
            on: false,
            volume: 0,
            env_sweep_step: 0,
            env_sweep_pace: 0,
            freq_sweep_enabled: false,
            length_i: 64,
            length_enabled: false,
            sample_index: 0,
            period_step: 1023,
            period: 1024,
            freq_sweep_i: 8,
            freq_sweep_pace: 0,
            initial_volume: 0,
            shadow_period: 1023,
            negative_sweep_calc_executed: false,
            lfsr: 0,
        }
    }
}

pub open spec fn spec_channel_new() -> Channel {
    Channel {
        on: false,
        volume: 0u8,
        env_sweep_step: 0u8,
        env_sweep_pace: 0u8,
        freq_sweep_enabled: false,
        length_i: 64u8,
        length_enabled: false,
        sample_index: 0u8,
        period_step: 1023u16,
        period: 1024u16,
        freq_sweep_i: 8u8,
        freq_sweep_pace: 0u8,
        initial_volume: 0u8,
        shadow_period: 1023u16,
        negative_sweep_calc_executed: false,
        lfsr: 0u16,
    }
}

/// `v >> s` for a shift below 8, written with divisions.
pub open spec fn spec_shr(v: u16, s: u8) -> u16 {
    if s == 0 {
        v
    } else if s == 1 {
        (v / 2) as u16
    } else if s == 2 {
        (v / 4) as u16
    } else if s == 3 {
        (v / 8) as u16
    } else if s == 4 {
        (v / 16) as u16
    } else if s == 5 {
        (v / 32) as u16
    } else if s == 6 {
        (v / 64) as u16
    } else {
        (v / 128) as u16
    }
}

fn shr16(v: u16, s: u8) -> (r: u16)
    requires
        s < 8,
    ensures
        r == spec_shr(v, s),
        r <= v,
{
    if s == 0 {
        v
    } else if s == 1 {
        v / 2
    } else if s == 2 {
        v / 4
    } else if s == 3 {
        v / 8
    } else if s == 4 {
        v / 16
    } else if s == 5 {
        v / 32
    } else if s == 6 {
        v / 64
    } else {
        v / 128
    }
}

/// One length-counter tick of a channel: while enabled the counter falls;
/// reaching zero silences the channel, clears its length enable bit in the
/// period-high register and reports it off in NR52.
pub open spec fn spec_length_tick(ch: Channel, b: BusView, reg: u16, on_mask: u8) -> (
    Channel,
    BusView,
) {
    if !ch.length_enabled {
        (ch, b)
    } else if ch.length_i <= 1 {
        let ch1 = Channel { length_i: 0u8, length_enabled: false, on: false, ..ch };
        let v = b.io[reg - 0xFF00];
        let b1 = b.write_spec(reg, (v % 8 + v / 128 * 128) as u8);
        (ch1, spec_set_ch_on(b1, on_mask, false))
    } else {
        (Channel { length_i: (ch.length_i - 1) as u8, ..ch }, b)
    }
}

/// One envelope tick: at the end of each pace interval the volume slides
/// one step toward its bound.
pub open spec fn spec_envelope_tick(ch: Channel, dir: EnvelopeDirection) -> Channel {
    if ch.env_sweep_pace == 0 {
        ch
    } else if ch.env_sweep_step <= 1 {
        let vol = if dir is Dec {
            if ch.volume > 0 {
                (ch.volume - 1) as u8
            } else {
                ch.volume
            }
        } else {
            if ch.volume < 15 {
                (ch.volume + 1) as u8
            } else {
                ch.volume
            }
        };
        Channel { env_sweep_step: ch.env_sweep_pace, volume: vol, ..ch }
    } else {
        Channel { env_sweep_step: (ch.env_sweep_step - 1) as u8, ..ch }
    }
}

/// The sweep unit's frequency computation: shadow +/- (shadow >> step); a
/// result of 2048 or more disables the channel, and a subtracting
/// computation is remembered for the negate-then-add lockout.
pub open spec fn spec_calc_new_freq(ch: Channel, b: BusView) -> (u16, Channel, BusView) {
    let step = b.io[0x10] % 8;
    let delta = spec_shr(ch.shadow_period, step);
    let dec = spec_bit(b.io[0x10], 8);
    let newf: u16 = if dec {
        (ch.shadow_period - delta) as u16
    } else {
        (ch.shadow_period + delta) as u16
    };
    let ch1 = if dec {
        Channel { negative_sweep_calc_executed: true, ..ch }
    } else {
        ch
    };
    if newf >= 2048 {
        (newf, Channel { on: false, ..ch1 }, spec_set_ch_on(b, 1, false))
    } else {
        (newf, ch1, b)
    }
}

/// The duty tables: the pulse level at one of the eight steps.
pub open spec fn spec_duty_sample(d: WaveDuty, i: u8) -> u8 {
    match d {
        WaveDuty::Eight => if i == 7 {
            1u8
        } else {
            0u8
        },
        WaveDuty::Quarter => if i == 0 || i == 7 {
            1u8
        } else {
            0u8
        },
        WaveDuty::Half => if i == 0 || i >= 5 {
            1u8
        } else {
            0u8
        },
        WaveDuty::InvQuarter => if 1 <= i && i <= 6 {
            1u8
        } else {
            0u8
        },
    }
}

/// A pulse channel's period counter: on overflow of the 11-bit counter the
/// duty step advances and the period reloads from the registers.
pub open spec fn spec_pulse_advance(ch: Channel, low: u8, high: u8) -> Channel {
    if ch.period_step + 1 >= 2048 {
        Channel {
            sample_index: ((ch.sample_index + 1) % 8) as u8,
            period: (high * 256 + low) as u16,
            period_step: (high * 256 + low) as u16,
            ..ch
        }
    } else {
        Channel { period_step: (ch.period_step + 1) as u16, ..ch }
    }
}

/// The wave channel's counter; its sample index runs over 32 entries.
pub open spec fn spec_wave_advance(ch: Channel, low: u8, high: u8) -> Channel {
    if ch.period_step + 1 >= 2048 {
        Channel {
            sample_index: ((ch.sample_index + 1) % 32) as u8,
            period: (high * 256 + low) as u16,
            period_step: (high * 256 + low) as u16,
            ..ch
        }
    } else {
        Channel { period_step: (ch.period_step + 1) as u16, ..ch }
    }
}

pub open spec fn spec_pow2_u16(s: u8) -> u16 {
    if s == 0 {
        1
    } else if s == 1 {
        2
    } else if s == 2 {
        4
    } else if s == 3 {
        8
    } else if s == 4 {
        16
    } else if s == 5 {
        32
    } else if s == 6 {
        64
    } else {
        128
    }
}

/// The noise channel's counter and 15-bit LFSR: when the divider runs out
/// it reloads from the divisor and shift registers, and the LFSR shifts,
/// feeding the complemented xor of its two low bits into bit 14 (and bit 6
/// in 7-bit mode).
pub open spec fn spec_noise_advance(ch: Channel, nr43: u8) -> Channel {
    if ch.period_step - 1 == 0 {
        let code = nr43 % 8;
        let divisor: u16 = if code > 0 {
            (code * 16) as u16
        } else {
            8u16
        };
        let reload = (divisor * spec_pow2_u16(nr43 / 16 % 8)) as u16;
        let a = ch.lfsr % 2;
        let bbit = ch.lfsr / 2 % 2;
        let x: u16 = if a == bbit {
            0u16
        } else {
            1u16
        };
        let l1 = ((1 - x) * 16384 + ch.lfsr / 2) as u16;
        let l2 = if spec_bit(nr43, 8) {
            (l1 - l1 / 64 % 2 * 64 + (1 - x) * 64) as u16
        } else {
            l1
        };
        Channel { period_step: reload, lfsr: l2, ..ch }
    } else {
        Channel { period_step: (ch.period_step - 1) as u16, ..ch }
    }
}

/// Ghost mirror of the APU.
pub struct ApuView {
    pub div: Option<u8>,
    pub div_apu: u64,
    pub ch1: Channel,
    pub ch2: Channel,
    pub ch3: Channel,
    pub ch4: Channel,
    pub clock: u64,
    pub frame_sequencer_i: u8,
    pub last_ch1_sample: u8,
    pub last_ch2_sample: u8,
    pub last_ch3_sample: u8,
    pub last_ch4_sample: u8,
    pub resample_frac: u32,
    pub buffer: Seq<(u8, u8, u8, u8)>,
}

impl ApuView {
    pub open spec fn wf(self) -> bool {
        &&& self.ch1.sample_index < 8
        &&& self.ch2.sample_index < 8
        &&& self.ch3.sample_index < 32
        &&& self.ch1.period_step < 2048
        &&& self.ch2.period_step < 2048
        &&& self.ch3.period_step < 2048
        &&& self.ch1.period < 2048
        &&& self.ch1.shadow_period < 2048
        &&& self.ch4.period_step >= 1
        &&& self.ch4.lfsr < 32768
        &&& self.resample_frac < CLOCK_FREQ_HZ
        &&& self.frame_sequencer_i < 8
    }
}

/// The audio unit.  Digital sample quadruples for the host mixer accumulate
/// in `sample_buffer`; the host drains it, converts to analog, filters and
/// mixes.
pub struct APU {
    pub div: Option<u8>,
    pub div_apu: u64,
    pub ch1: Channel,
    pub ch2: Channel,
    pub ch3: Channel,
    pub ch4: Channel,
    pub clock: u64,
    pub frame_sequencer_i: u8,
    pub last_ch1_sample: u8,
    pub last_ch2_sample: u8,
    pub last_ch3_sample: u8,
    pub last_ch4_sample: u8,
    pub resample_frac: u32,
    pub sample_buffer: Vec<(u8, u8, u8, u8)>,
}

impl View for APU {
    type V = ApuView;

    open spec fn view(&self) -> ApuView {
        ApuView {
            div: self.div,
            div_apu: self.div_apu,
            ch1: self.ch1,
            ch2: self.ch2,
            ch3: self.ch3,
            ch4: self.ch4,
            clock: self.clock,
            frame_sequencer_i: self.frame_sequencer_i,
            last_ch1_sample: self.last_ch1_sample,
            last_ch2_sample: self.last_ch2_sample,
            last_ch3_sample: self.last_ch3_sample,
            last_ch4_sample: self.last_ch4_sample,
            resample_frac: self.resample_frac,
            buffer: self.sample_buffer@,
        }
    }
}

impl APU {
    /// A silent APU with every channel at its power-on state.
    pub fn new() -> (r: APU)
        ensures
            r@.wf(),
            r@.ch1 == spec_channel_new(),
            r@.ch2 == spec_channel_new(),
            r@.ch3 == spec_channel_new(),
            r@.ch4 == spec_channel_new(),
            r@.clock == 0,
            r@.frame_sequencer_i == 0,
            r@.buffer == Seq::<(u8, u8, u8, u8)>::empty(),
            r@.div is None,
            r@.resample_frac == 0,
            r@.last_ch1_sample == 255 && r@.last_ch2_sample == 255 && r@.last_ch3_sample == 255
                && r@.last_ch4_sample == 255,
    {
        APU {
            div: None,
            div_apu: 0,
            ch1: Channel::new(),
            ch2: Channel::new(),
            ch3: Channel::new(),
            ch4: Channel::new(),
            clock: 0,
            frame_sequencer_i: 0,
            last_ch1_sample: 255,
            last_ch2_sample: 255,
            last_ch3_sample: 255,
            last_ch4_sample: 255,
            resample_frac: 0,
            sample_buffer: Vec::new(),
        }
    }

    /// Channel 1's digital level at its current duty step.
    pub fn ch1_sample(&self, memory: &AddressSpace) -> (r: u8)
        requires
            memory@.wf(),
            self@.ch1.sample_index < 8,
        ensures
            r == spec_duty_sample(spec_wave_duty(memory@.io[0x11]), self.ch1.sample_index),
            r <= 1,
    {
        let duty = ch1_wave_duty(memory);
        let i = self.ch1.sample_index;
        match duty {
            WaveDuty::Eight => if i == 7 {
                1
            } else {
                0
            },
            WaveDuty::Quarter => if i == 0 || i == 7 {
                1
            } else {
                0
            },
            WaveDuty::Half => if i == 0 || i >= 5 {
                1
            } else {
                0
            },
            WaveDuty::InvQuarter => if 1 <= i && i <= 6 {
                1
            } else {
                0
            },
        }
    }

    fn ch1_get_next_sample(&mut self, memory: &AddressSpace) -> (r: u8)
        requires
            memory@.wf(),
            old(self)@.wf(),
        ensures
            *final(self) == (APU {
                ch1: spec_pulse_advance(
                    old(self).ch1,
                    memory@.io[0x13],
                    (memory@.io[0x14] % 8) as u8,
                ),
                ..*old(self)
            }),
            r == spec_duty_sample(
                spec_wave_duty(memory@.io[0x11]),
                final(self).ch1.sample_index,
            ),
            r <= 1,
            final(self)@.wf(),
    {
        self.ch1.period_step = self.ch1.period_step + 1;
        if self.ch1.period_step >= 2048 {
            self.ch1.sample_index = (self.ch1.sample_index + 1) % 8;
            let period_low = ch1_initial_period_low(memory);
            let period_high = ch1_initial_period_high(memory);
            self.ch1.period = (period_high as u16) * 256 + period_low as u16;
            self.ch1.period_step = self.ch1.period;
        }
        self.ch1_sample(memory)
    }

    /// Channel 2's digital level at its current duty step.
    pub fn ch2_sample(&self, memory: &AddressSpace) -> (r: u8)
        requires
            memory@.wf(),
            self@.ch2.sample_index < 8,
        ensures
            r == spec_duty_sample(spec_wave_duty(memory@.io[0x16]), self.ch2.sample_index),
            r <= 1,
    {
        let duty = ch2_wave_duty(memory);
        let i = self.ch2.sample_index;
        match duty {
            WaveDuty::Eight => if i == 7 {
                1
            } else {
                0
            },
            WaveDuty::Quarter => if i == 0 || i == 7 {
                1
            } else {
                0
            },
            WaveDuty::Half => if i == 0 || i >= 5 {
                1
            } else {
                0
            },
            WaveDuty::InvQuarter => if 1 <= i && i <= 6 {
                1
            } else {
                0
            },
        }
    }

    fn ch2_get_next_sample(&mut self, memory: &AddressSpace) -> (r: u8)
        requires
            memory@.wf(),
            old(self)@.wf(),
        ensures
            *final(self) == (APU {
                ch2: spec_pulse_advance(
                    old(self).ch2,
                    memory@.io[0x18],
                    (memory@.io[0x19] % 8) as u8,
                ),
                ..*old(self)
            }),
            r == spec_duty_sample(
                spec_wave_duty(memory@.io[0x16]),
                final(self).ch2.sample_index,
            ),
            r <= 1,
            final(self)@.wf(),
    {
        self.ch2.period_step = self.ch2.period_step + 1;
        if self.ch2.period_step >= 2048 {
            self.ch2.sample_index = (self.ch2.sample_index + 1) % 8;
            let period_low = ch2_initial_period_low(memory);
            let period_high = ch2_initial_period_high(memory);
            self.ch2.period = (period_high as u16) * 256 + period_low as u16;
            self.ch2.period_step = self.ch2.period;
        }
        self.ch2_sample(memory)
    }

    fn ch3_get_next_sample(&mut self, memory: &AddressSpace) -> (r: u8)
        requires
            memory@.wf(),
            old(self)@.wf(),
        ensures
            ({
                let ch = spec_wave_advance(
                    old(self).ch3,
                    memory@.io[0x1D],
                    (memory@.io[0x1E] % 8) as u8,
                );
                let wave = if ch.sample_index % 2 == 1 {
                    memory@.io[0x30 + ch.sample_index / 2] % 16
                } else {
                    memory@.io[0x30 + ch.sample_index / 2] / 16
                };
                *final(self) == (APU { ch3: ch, ..*old(self) }) && r == (
                match spec_output_level(memory@.io[0x1C]) {
                    OutputLevel::Full => wave,
                    OutputLevel::Half => (wave / 2) as u8,
                    OutputLevel::Quarter => (wave / 4) as u8,
                    OutputLevel::Mute => 0u8,
                })
            }),
            r < 16,
            final(self)@.wf(),
    {
        self.ch3.period_step = self.ch3.period_step + 1;
        if self.ch3.period_step >= 2048 {
            self.ch3.sample_index = (self.ch3.sample_index + 1) % 32;
            let period_low = ch3_initial_period_low(memory);
            let period_high = ch3_initial_period_high(memory);
            self.ch3.period = (period_high as u16) * 256 + period_low as u16;
            self.ch3.period_step = self.ch3.period;
        }
        let wave_value = ch3_wave_sample(self.ch3.sample_index, memory);
        match ch3_output_level(memory) {
            OutputLevel::Full => wave_value,
            OutputLevel::Half => wave_value / 2,
            OutputLevel::Quarter => wave_value / 4,
            OutputLevel::Mute => 0,
        }
    }

    /// Channel 4's digital level: the LFSR's low bit.
    pub fn ch4_sample(&self) -> (r: u8)
        ensures
            r == self.ch4.lfsr % 2,
            r <= 1,
    {
        (self.ch4.lfsr % 2) as u8
    }

    fn ch4_get_next_sample(&mut self, memory: &AddressSpace) -> (r: u8)
        requires
            memory@.wf(),
            old(self)@.wf(),
        ensures
            *final(self) == (APU {
                ch4: spec_noise_advance(old(self).ch4, memory@.io[0x22]),
                ..*old(self)
            }),
            r == final(self).ch4.lfsr % 2,
            r <= 1,
            final(self)@.wf(),
    {
        self.ch4.period_step = self.ch4.period_step - 1;
        if self.ch4.period_step == 0 {
            let divisor_value = ch4_clock_divider(memory);
            let divisor: u16 = if divisor_value > 0 {
                divisor_value as u16 * 16
            } else {
                8
            };
            let shift = ch4_clock_shift(memory);
            let p: u16 = if shift == 0 {
                1
            } else if shift == 1 {
                2
            } else if shift == 2 {
                4
            } else if shift == 3 {
                8
            } else if shift == 4 {
                16
            } else if shift == 5 {
                32
            } else if shift == 6 {
                64
            } else {
                128
            };
            self.ch4.period_step = divisor * p;
            let a = self.ch4.lfsr % 2;
            let bbit = self.ch4.lfsr / 2 % 2;
            let x: u16 = if a == bbit {
                0
            } else {
                1
            };
            let l1 = (1 - x) * 16384 + self.ch4.lfsr / 2;
            let l2 = if matches!(ch4_lfsr_width(memory), LFSRWidth::Bits7) {
                l1 - l1 / 64 % 2 * 64 + (1 - x) * 64
            } else {
                l1
            };
            self.ch4.lfsr = l2;
        }
        self.ch4_sample()
    }
}

/// The channel 1 frequency sweep tick (frame sequencer steps 2 and 6): at
/// the end of each sweep period the new frequency is computed, written
/// back when in range, and a second overflow check runs.
pub open spec fn spec_sweep_tick(ch: Channel, b: BusView) -> (Channel, BusView) {
    if ch.freq_sweep_pace == 0 {
        (ch, b)
    } else if ch.freq_sweep_i > 1 {
        (Channel { freq_sweep_i: (ch.freq_sweep_i - 1) as u8, ..ch }, b)
    } else {
        let ch0 = Channel { freq_sweep_i: 0u8, ..ch };
        if !ch0.freq_sweep_enabled {
            (ch0, b)
        } else {
            let pace = b.io[0x10] / 16 % 8;
            if pace == 0 {
                (Channel { freq_sweep_pace: 8u8, freq_sweep_i: 8u8, ..ch0 }, b)
            } else {
                let ch1 = Channel { freq_sweep_pace: pace, freq_sweep_i: pace, ..ch0 };
                let locked = ch1.negative_sweep_calc_executed && !spec_bit(b.io[0x10], 8);
                let ch2 = if locked {
                    Channel { on: false, ..ch1 }
                } else {
                    ch1
                };
                let b2 = if locked {
                    spec_set_ch_on(b, 1, false)
                } else {
                    b
                };
                let t = spec_calc_new_freq(ch2, b2);
                if t.0 < 2048 && b2.io[0x10] % 8 > 0 {
                    let ch3 = Channel { period: t.0, shadow_period: t.0, ..t.1 };
                    let b3 = BusView {
                        io: t.2.io.update(0x13, (t.0 % 256) as u8).update(
                            0x14,
                            (t.0 / 256) as u8,
                        ),
                        ..t.2
                    };
                    let t2 = spec_calc_new_freq(ch3, b3);
                    (t2.1, t2.2)
                } else {
                    (t.1, t.2)
                }
            }
        }
    }
}

impl APU {
    fn ch1_calc_new_freq(&mut self, memory: &mut AddressSpace) -> (r: u16)
        requires
            old(memory)@.wf(),
            old(self)@.wf(),
        ensures
            ({
                let t = spec_calc_new_freq(old(self).ch1, old(memory)@);
                r == t.0 && *final(self) == (APU { ch1: t.1, ..*old(self) }) && final(memory)@
                    == t.2
            }),
            final(memory)@.wf(),
            final(self)@.wf(),
    {
        let step = ch1_period_sweep_step(memory);
        let delta = shr16(self.ch1.shadow_period, step);
        let mut new_freq: u16;
        if matches!(ch1_sweep_direction(memory), SweepDirection::Dec) {
            new_freq = self.ch1.shadow_period - delta;
            self.ch1.negative_sweep_calc_executed = true;
        } else {
            new_freq = self.ch1.shadow_period + delta;
        }
        if new_freq >= 2048 {
            self.ch1.on = false;
            set_ch1_on(false, memory);
        }
        new_freq
    }

    fn ch1_period_sweep_tick(&mut self, memory: &mut AddressSpace)
        requires
            old(memory)@.wf(),
            old(self)@.wf(),
        ensures
            ({
                let t = spec_sweep_tick(old(self).ch1, old(memory)@);
                *final(self) == (APU { ch1: t.0, ..*old(self) }) && final(memory)@ == t.1
            }),
            final(memory)@.wf(),
            final(self)@.wf(),
    {
        if self.ch1.freq_sweep_pace == 0 {
            return ;
        }
        if self.ch1.freq_sweep_i > 1 {
            self.ch1.freq_sweep_i = self.ch1.freq_sweep_i - 1;
            return ;
        }
        self.ch1.freq_sweep_i = 0;
        if !self.ch1.freq_sweep_enabled {
            return ;
        }
        let pace = ch1_period_sweep_pace(memory);
        if pace == 0 {
            self.ch1.freq_sweep_pace = 8;
            self.ch1.freq_sweep_i = 8;
            return ;
        }
        self.ch1.freq_sweep_pace = pace;
        self.ch1.freq_sweep_i = pace;
        if self.ch1.negative_sweep_calc_executed && matches!(
            ch1_sweep_direction(memory),
            SweepDirection::Inc,
        ) {
            self.ch1.on = false;
            set_ch1_on(false, memory);
        }
        let new_freq = self.ch1_calc_new_freq(memory);
        if new_freq < 2048 && ch1_period_sweep_step(memory) > 0 {
            self.ch1.period = new_freq;
            self.ch1.shadow_period = new_freq;
            memory.apu_write_ch1_period(new_freq);
            let _second = self.ch1_calc_new_freq(memory);
        }
    }

    fn ch1_envelope_tick(&mut self, memory: &AddressSpace)
        requires
            memory@.wf(),
        ensures
            *final(self) == (APU {
                ch1: spec_envelope_tick(
                    old(self).ch1,
                    if spec_bit(memory@.io[0x12], 8) {
                        EnvelopeDirection::Inc
                    } else {
                        EnvelopeDirection::Dec
                    },
                ),
                ..*old(self)
            }),
    {
        if self.ch1.env_sweep_pace == 0 {
            return ;
        }
        if self.ch1.env_sweep_step > 1 {
            self.ch1.env_sweep_step = self.ch1.env_sweep_step - 1;
            return ;
        }
        self.ch1.env_sweep_step = self.ch1.env_sweep_pace;
        if matches!(ch1_envelope_direction(memory), EnvelopeDirection::Dec) {
            if self.ch1.volume > 0 {
                self.ch1.volume = self.ch1.volume - 1;
            }
        } else {
            if self.ch1.volume < 15 {
                self.ch1.volume = self.ch1.volume + 1;
            }
        }
    }

    fn ch2_envelope_tick(&mut self, memory: &AddressSpace)
        requires
            memory@.wf(),
        ensures
            *final(self) == (APU {
                ch2: spec_envelope_tick(
                    old(self).ch2,
                    if spec_bit(memory@.io[0x17], 8) {
                        EnvelopeDirection::Inc
                    } else {
                        EnvelopeDirection::Dec
                    },
                ),
                ..*old(self)
            }),
    {
        if self.ch2.env_sweep_pace == 0 {
            return ;
        }
        if self.ch2.env_sweep_step > 1 {
            self.ch2.env_sweep_step = self.ch2.env_sweep_step - 1;
            return ;
        }
        self.ch2.env_sweep_step = self.ch2.env_sweep_pace;
        if matches!(ch2_envelope_direction(memory), EnvelopeDirection::Dec) {
            if self.ch2.volume > 0 {
                self.ch2.volume = self.ch2.volume - 1;
            }
        } else {
            if self.ch2.volume < 15 {
                self.ch2.volume = self.ch2.volume + 1;
            }
        }
    }

    fn ch4_envelope_tick(&mut self, memory: &AddressSpace)
        requires
            memory@.wf(),
        ensures
            *final(self) == (APU {
                ch4: spec_envelope_tick(
                    old(self).ch4,
                    if spec_bit(memory@.io[0x21], 8) {
                        EnvelopeDirection::Inc
                    } else {
                        EnvelopeDirection::Dec
                    },
                ),
                ..*old(self)
            }),
    {
        if self.ch4.env_sweep_pace == 0 {
            return ;
        }
        if self.ch4.env_sweep_step > 1 {
            self.ch4.env_sweep_step = self.ch4.env_sweep_step - 1;
            return ;
        }
        self.ch4.env_sweep_step = self.ch4.env_sweep_pace;
        if matches!(ch4_envelope_direction(memory), EnvelopeDirection::Dec) {
            if self.ch4.volume > 0 {
                self.ch4.volume = self.ch4.volume - 1;
            }
        } else {
            if self.ch4.volume < 15 {
                self.ch4.volume = self.ch4.volume + 1;
            }
        }
    }

    fn ch1_length_tick(&mut self, memory: &mut AddressSpace)
        requires
            old(memory)@.wf(),
        ensures
            ({
                let t = spec_length_tick(old(self).ch1, old(memory)@, NR14_ADDR, 1);
                *final(self) == (APU { ch1: t.0, ..*old(self) }) && final(memory)@ == t.1
            }),
            final(memory)@.wf(),
    {
        if !self.ch1.length_enabled {
            return ;
        }
        if self.ch1.length_i > 1 {
            self.ch1.length_i = self.ch1.length_i - 1;
            return ;
        }
        self.ch1.length_i = 0;
        self.ch1.length_enabled = false;
        let v = memory.apu_read(NR14_ADDR);
        memory.write(NR14_ADDR, v % 8 + v / 128 * 128);
        self.ch1.on = false;
        set_ch1_on(false, memory);
    }

    fn ch2_length_tick(&mut self, memory: &mut AddressSpace)
        requires
            old(memory)@.wf(),
        ensures
            ({
                let t = spec_length_tick(old(self).ch2, old(memory)@, NR24_ADDR, 2);
                *final(self) == (APU { ch2: t.0, ..*old(self) }) && final(memory)@ == t.1
            }),
            final(memory)@.wf(),
    {
        if !self.ch2.length_enabled {
            return ;
        }
        if self.ch2.length_i > 1 {
            self.ch2.length_i = self.ch2.length_i - 1;
            return ;
        }
        self.ch2.length_i = 0;
        self.ch2.length_enabled = false;
        let v = memory.apu_read(NR24_ADDR);
        memory.write(NR24_ADDR, v % 8 + v / 128 * 128);
        self.ch2.on = false;
        set_ch2_on(false, memory);
    }

    fn ch3_length_tick(&mut self, memory: &mut AddressSpace)
        requires
            old(memory)@.wf(),
        ensures
            ({
                let t = spec_length_tick(old(self).ch3, old(memory)@, NR34_ADDR, 4);
                *final(self) == (APU { ch3: t.0, ..*old(self) }) && final(memory)@ == t.1
            }),
            final(memory)@.wf(),
    {
        if !self.ch3.length_enabled {
            return ;
        }
        if self.ch3.length_i > 1 {
            self.ch3.length_i = self.ch3.length_i - 1;
            return ;
        }
        self.ch3.length_i = 0;
        self.ch3.length_enabled = false;
        let v = memory.apu_read(NR34_ADDR);
        memory.write(NR34_ADDR, v % 8 + v / 128 * 128);
        self.ch3.on = false;
        set_ch3_on(false, memory);
    }

    fn ch4_length_tick(&mut self, memory: &mut AddressSpace)
        requires
            old(memory)@.wf(),
        ensures
            ({
                let t = spec_length_tick(old(self).ch4, old(memory)@, NR44_ADDR, 8);
                *final(self) == (APU { ch4: t.0, ..*old(self) }) && final(memory)@ == t.1
            }),
            final(memory)@.wf(),
    {
        if !self.ch4.length_enabled {
            return ;
        }
        if self.ch4.length_i > 1 {
            self.ch4.length_i = self.ch4.length_i - 1;
            return ;
        }
        self.ch4.length_i = 0;
        self.ch4.length_enabled = false;
        let v = memory.apu_read(NR44_ADDR);
        memory.write(NR44_ADDR, v % 8 + v / 128 * 128);
        self.ch4.on = false;
        set_ch4_on(false, memory);
    }
}

/// One frame-sequencer step: even steps tick the length counters, steps 2
/// and 6 the sweep, step 7 the envelopes; the step index then advances.
#[verifier::opaque]
pub open spec fn spec_frame_seq(
    ch1: Channel,
    ch2: Channel,
    ch3: Channel,
    ch4: Channel,
    b: BusView,
    fi: u8,
) -> (Channel, Channel, Channel, Channel, BusView, u8) {
    let l1 = if fi % 2 == 0 {
        spec_length_tick(ch1, b, NR14_ADDR, 1)
    } else {
        (ch1, b)
    };
    let l2 = if fi % 2 == 0 {
        spec_length_tick(ch2, l1.1, NR24_ADDR, 2)
    } else {
        (ch2, l1.1)
    };
    let l3 = if fi % 2 == 0 {
        spec_length_tick(ch3, l2.1, NR34_ADDR, 4)
    } else {
        (ch3, l2.1)
    };
    let l4 = if fi % 2 == 0 {
        spec_length_tick(ch4, l3.1, NR44_ADDR, 8)
    } else {
        (ch4, l3.1)
    };
    let s1 = if fi % 4 == 2 {
        spec_sweep_tick(l1.0, l4.1)
    } else {
        (l1.0, l4.1)
    };
    let bmid = s1.1;
    let e1 = if fi % 8 == 7 {
        spec_envelope_tick(
            s1.0,
            if spec_bit(bmid.io[0x12], 8) {
                EnvelopeDirection::Inc
            } else {
                EnvelopeDirection::Dec
            },
        )
    } else {
        s1.0
    };
    let e2 = if fi % 8 == 7 {
        spec_envelope_tick(
            l2.0,
            if spec_bit(bmid.io[0x17], 8) {
                EnvelopeDirection::Inc
            } else {
                EnvelopeDirection::Dec
            },
        )
    } else {
        l2.0
    };
    let e4 = if fi % 8 == 7 {
        spec_envelope_tick(
            l4.0,
            if spec_bit(bmid.io[0x21], 8) {
                EnvelopeDirection::Inc
            } else {
                EnvelopeDirection::Dec
            },
        )
    } else {
        l4.0
    };
    (e1, e2, l3.0, e4, bmid, ((fi + 1) % 8) as u8)
}

impl APU {
    /// One frame-sequencer step; see `spec_frame_seq`.
    #[verifier::rlimit(100)]
    fn single_tick(&mut self, memory: &mut AddressSpace)
        requires
            old(memory)@.wf(),
            old(self)@.wf(),
        ensures
            ({
                let t = spec_frame_seq(
                    old(self).ch1,
                    old(self).ch2,
                    old(self).ch3,
                    old(self).ch4,
                    old(memory)@,
                    old(self).frame_sequencer_i,
                );
                *final(self) == (APU {
                    ch1: t.0,
                    ch2: t.1,
                    ch3: t.2,
                    ch4: t.3,
                    frame_sequencer_i: t.5,
                    ..*old(self)
                }) && final(memory)@ == t.4
            }),
            final(memory)@.wf(),
            final(self)@.wf(),
    {
        proof {
            reveal(spec_frame_seq);
        }
        if self.frame_sequencer_i % 2 == 0 {
            self.ch1_length_tick(memory);
            self.ch2_length_tick(memory);
            self.ch3_length_tick(memory);
            self.ch4_length_tick(memory);
        }
        if self.frame_sequencer_i % 4 == 2 {
            self.ch1_period_sweep_tick(memory);
        }
        if self.frame_sequencer_i % 8 == 7 {
            self.ch1_envelope_tick(memory);
            self.ch2_envelope_tick(memory);
            self.ch4_envelope_tick(memory);
        }
        self.frame_sequencer_i = (self.frame_sequencer_i + 1) % 8;
    }
}

/// Channel 1's per-sample tick: the negate-then-add lockout, the DAC gate,
/// the trigger block (period, sweep, envelope and length reload, with the
/// immediate overflow check), the NR52 report, the consumed length write
/// and finally the duty sample scaled by the volume (255 marks "off").
#[verifier::opaque]
pub open spec fn spec_ch1_tick(ch: Channel, b: BusView) -> (Channel, BusView, u8) {
    let locked = ch.negative_sweep_calc_executed && !spec_bit(b.io[0x10], 8);
    let ch0 = if locked {
        Channel { on: false, ..ch }
    } else {
        ch
    };
    let b0 = if locked {
        spec_set_ch_on(b, 1, false)
    } else {
        b
    };
    let dac = b0.io[0x12] / 8 != 0;
    let trig = spec_bit(b0.io[0x14], 128);
    let tr = if dac {
        if trig {
            let b_t = b0.write_spec(
                NR14_ADDR,
                (b0.io[0x14] % 16 + b0.io[0x14] / 64 % 2 * 64) as u8,
            );
            let per = (b_t.io[0x14] % 8 * 256 + b_t.io[0x13]) as u16;
            let pace = b_t.io[0x10] / 16 % 8;
            let shift = b_t.io[0x10] % 8;
            let enabled = pace > 0 || shift > 0;
            let pace8: u8 = if pace == 0 {
                8u8
            } else {
                pace as u8
            };
            let iv = b_t.io[0x12] / 16;
            let ep = b_t.io[0x12] % 8;
            let ch_a = Channel {
                on: true,
                period: per,
                shadow_period: per,
                period_step: per,
                freq_sweep_pace: pace8,
                freq_sweep_i: pace8,
                freq_sweep_enabled: enabled,
                negative_sweep_calc_executed: false,
                initial_volume: (iv % 16) as u8,
                env_sweep_pace: (ep % 8) as u8,
                env_sweep_step: (ep % 8) as u8,
                volume: (iv % 16) as u8,
                length_i: if ch0.length_i == 0 {
                    64u8
                } else {
                    ch0.length_i
                },
                ..ch0
            };
            if enabled && shift > 0 {
                let t = spec_calc_new_freq(ch_a, b_t);
                (t.1, t.2)
            } else {
                (ch_a, b_t)
            }
        } else {
            (ch0, b0)
        }
    } else {
        (Channel { on: false, ..ch0 }, b0)
    };
    let ch1 = tr.0;
    let b2 = spec_set_ch_on(tr.1, 1, ch1.on);
    let ltv = b2.io[0x11] % 64;
    let b3 = b2.write_spec(NR11_ADDR, (b2.io[0x11] / 64 * 64) as u8);
    if ch1.on {
        let ch2 = if !ch1.length_enabled && spec_bit(b3.io[0x14], 64) {
            Channel { length_i: (64 - ltv) as u8, length_enabled: true, ..ch1 }
        } else if ltv > 0 {
            Channel { length_i: (64 - ltv) as u8, ..ch1 }
        } else {
            ch1
        };
        let ch3 = spec_pulse_advance(ch2, b3.io[0x13], (b3.io[0x14] % 8) as u8);
        let s = spec_duty_sample(spec_wave_duty(b3.io[0x11]), ch3.sample_index);
        (ch3, b3, if s == 0 { 0u8 } else { ch3.volume })
    } else {
        (ch1, b3, 255u8)
    }
}

/// Channel 2: as channel 1 without the sweep unit.
#[verifier::opaque]
pub open spec fn spec_ch2_tick(ch: Channel, b: BusView) -> (Channel, BusView, u8) {
    let dac = b.io[0x17] / 8 != 0;
    let trig = spec_bit(b.io[0x19], 128);
    let tr = if dac {
        if trig {
            let b_t = b.write_spec(
                NR24_ADDR,
                (b.io[0x19] % 16 + b.io[0x19] / 64 % 2 * 64) as u8,
            );
            let per = (b_t.io[0x19] % 8 * 256 + b_t.io[0x18]) as u16;
            let iv = b_t.io[0x17] / 16;
            let ep = b_t.io[0x17] % 8;
            (
                Channel {
                    on: true,
                    period: per,
                    period_step: per,
                    initial_volume: (iv % 16) as u8,
                    env_sweep_pace: (ep % 8) as u8,
                    env_sweep_step: (ep % 8) as u8,
                    volume: (iv % 16) as u8,
                    length_i: if ch.length_i == 0 {
                        64u8
                    } else {
                        ch.length_i
                    },
                    ..ch
                },
                b_t,
            )
        } else {
            (ch, b)
        }
    } else {
        (Channel { on: false, ..ch }, b)
    };
    let ch1 = tr.0;
    let b2 = spec_set_ch_on(tr.1, 2, ch1.on);
    let ltv = b2.io[0x16] % 64;
    let b3 = b2.write_spec(NR21_ADDR, (b2.io[0x16] / 64 * 64) as u8);
    if ch1.on {
        let ch2 = if !ch1.length_enabled && spec_bit(b3.io[0x19], 64) {
            Channel { length_i: (64 - ltv) as u8, length_enabled: true, ..ch1 }
        } else if ltv > 0 {
            Channel { length_i: (64 - ltv) as u8, ..ch1 }
        } else {
            ch1
        };
        let ch3 = spec_pulse_advance(ch2, b3.io[0x18], (b3.io[0x19] % 8) as u8);
        let s = spec_duty_sample(spec_wave_duty(b3.io[0x16]), ch3.sample_index);
        (ch3, b3, if s == 0 { 0u8 } else { ch3.volume })
    } else {
        (ch1, b3, 255u8)
    }
}

/// Channel 3: wave playback with its 256-count length and output level.
#[verifier::opaque]
pub open spec fn spec_ch3_tick(ch: Channel, b: BusView) -> (Channel, BusView, u8) {
    let dac = spec_bit(b.io[0x1A], 128);
    let trig = spec_bit(b.io[0x1E], 128);
    let tr = if dac {
        if trig {
            let b_t = b.write_spec(
                NR34_ADDR,
                (b.io[0x1E] % 16 + b.io[0x1E] / 64 % 2 * 64) as u8,
            );
            let per = (b_t.io[0x1E] % 8 * 256 + b_t.io[0x1D]) as u16;
            (Channel { on: true, period: per, ..ch }, b_t)
        } else {
            (ch, b)
        }
    } else {
        (Channel { on: false, ..ch }, b)
    };
    let ch1 = tr.0;
    let b2 = spec_set_ch_on(tr.1, 4, ch1.on);
    if ch1.on {
        let ch2 = if spec_bit(b2.io[0x1E], 64) && !ch1.length_enabled {
            Channel {
                length_enabled: true,
                length_i: (255 - b2.io[0x1B]) as u8,
                ..ch1
            }
        } else {
            ch1
        };
        let ch3 = spec_wave_advance(ch2, b2.io[0x1D], (b2.io[0x1E] % 8) as u8);
        let wave = if ch3.sample_index % 2 == 1 {
            b2.io[0x30 + ch3.sample_index / 2] % 16
        } else {
            b2.io[0x30 + ch3.sample_index / 2] / 16
        };
        let s = match spec_output_level(b2.io[0x1C]) {
            OutputLevel::Full => wave,
            OutputLevel::Half => (wave / 2) as u8,
            OutputLevel::Quarter => (wave / 4) as u8,
            OutputLevel::Mute => 0u8,
        };
        (ch3, b2, s)
    } else {
        (ch1, b2, 255u8)
    }
}

/// Channel 4: the LFSR noise source; a trigger clears the LFSR.
#[verifier::opaque]
pub open spec fn spec_ch4_tick(ch: Channel, b: BusView) -> (Channel, BusView, u8) {
    let dac = b.io[0x21] / 8 != 0;
    let trig = spec_bit(b.io[0x23], 128);
    let tr = if dac {
        if trig {
            let b_t = b.write_spec(
                NR44_ADDR,
                (b.io[0x23] % 16 + b.io[0x23] / 64 % 2 * 64) as u8,
            );
            let iv = b_t.io[0x21] / 16;
            let ep = b_t.io[0x21] % 8;
            (
                Channel {
                    lfsr: 0u16,
                    on: true,
                    initial_volume: (iv % 16) as u8,
                    env_sweep_pace: (ep % 8) as u8,
                    env_sweep_step: (ep % 8) as u8,
                    volume: (iv % 16) as u8,
                    length_i: if ch.length_i == 0 {
                        64u8
                    } else {
                        ch.length_i
                    },
                    ..ch
                },
                b_t,
            )
        } else {
            (ch, b)
        }
    } else {
        (Channel { on: false, ..ch }, b)
    };
    let ch1 = tr.0;
    let b2 = spec_set_ch_on(tr.1, 8, ch1.on);
    let ltv = b2.io[0x20] % 64;
    if ch1.on {
        let ch2 = if !ch1.length_enabled && spec_bit(b2.io[0x23], 64) {
            Channel { length_i: (64 - ltv) as u8, length_enabled: true, ..ch1 }
        } else if ltv > 0 {
            Channel { length_i: (64 - ltv) as u8, ..ch1 }
        } else {
            ch1
        };
        let ch3 = spec_noise_advance(ch2, b2.io[0x22]);
        (ch3, b2, if ch3.lfsr % 2 == 0 { 0u8 } else { ch3.volume })
    } else {
        (ch1, b2, 255u8)
    }
}

impl APU {
    /// One per-sample tick of channel 1; see `spec_ch1_tick`.
    #[verifier::rlimit(100)]
    #[verifier::spinoff_prover]
    pub fn ch1_tick(&mut self, memory: &mut AddressSpace) -> (r: u8)
        requires
            old(memory)@.wf(),
            old(self)@.wf(),
        ensures
            ({
                let t = spec_ch1_tick(old(self).ch1, old(memory)@);
                *final(self) == (APU { ch1: t.0, ..*old(self) }) && final(memory)@ == t.1 && r
                    == t.2
            }),
            final(memory)@.wf(),
            final(self)@.wf(),
    {
        proof {
            reveal(spec_ch1_tick);
        }
        if self.ch1.negative_sweep_calc_executed && matches!(
            ch1_sweep_direction(memory),
            SweepDirection::Inc,
        ) {
            self.ch1.on = false;
            set_ch1_on(false, memory);
        }
        if ch1_dac_on(memory) {
            if ch1_trigger(memory) {
                self.ch1.on = true;
                let period_low = ch1_initial_period_low(memory);
                let period_high = ch1_initial_period_high(memory);
                self.ch1.period = (period_high as u16) * 256 + period_low as u16;
                self.ch1.shadow_period = self.ch1.period;
                self.ch1.period_step = self.ch1.period;
                let pace = ch1_period_sweep_pace(memory);
                let period_sweep_shift = ch1_period_sweep_step(memory);
                self.ch1.freq_sweep_enabled = pace > 0 || period_sweep_shift > 0;
                self.ch1.freq_sweep_pace = if pace == 0 {
                    8
                } else {
                    pace
                };
                self.ch1.freq_sweep_i = self.ch1.freq_sweep_pace;
                self.ch1.negative_sweep_calc_executed = false;
                self.ch1.initial_volume = ch1_initial_volume(memory);
                self.ch1.env_sweep_pace = ch1_envelope_sweep_pace(memory);
                self.ch1.env_sweep_step = self.ch1.env_sweep_pace;
                self.ch1.volume = self.ch1.initial_volume;
                if self.ch1.length_i == 0 {
                    self.ch1.length_i = 64;
                }
                if self.ch1.freq_sweep_enabled && period_sweep_shift > 0 {
                    let _f = self.ch1_calc_new_freq(memory);
                }
            }
        } else {
            self.ch1.on = false;
        }
        let on_now = self.ch1.on;
        set_ch1_on(on_now, memory);
        let length_timer_value = ch1_initial_len(memory);
        if self.ch1.on {
            if !self.ch1.length_enabled && ch1_length_enable(memory) {
                self.ch1.length_i = 64 - length_timer_value;
                self.ch1.length_enabled = true;
            } else if length_timer_value > 0 {
                self.ch1.length_i = 64 - length_timer_value;
            }
            let s = self.ch1_get_next_sample(memory);
            if s == 0 {
                0
            } else {
                self.ch1.volume
            }
        } else {
            255
        }
    }

    /// One per-sample tick of channel 2; see `spec_ch2_tick`.
    #[verifier::rlimit(100)]
    pub fn ch2_tick(&mut self, memory: &mut AddressSpace) -> (r: u8)
        requires
            old(memory)@.wf(),
            old(self)@.wf(),
        ensures
            ({
                let t = spec_ch2_tick(old(self).ch2, old(memory)@);
                *final(self) == (APU { ch2: t.0, ..*old(self) }) && final(memory)@ == t.1 && r
                    == t.2
            }),
            final(memory)@.wf(),
            final(self)@.wf(),
    {
        proof {
            reveal(spec_ch2_tick);
        }
        if ch2_dac_on(memory) {
            if ch2_trigger(memory) {
                self.ch2.on = true;
                let period_low = ch2_initial_period_low(memory);
                let period_high = ch2_initial_period_high(memory);
                self.ch2.period = (period_high as u16) * 256 + period_low as u16;
                self.ch2.period_step = self.ch2.period;
                self.ch2.initial_volume = ch2_initial_volume(memory);
                self.ch2.env_sweep_pace = ch2_envelope_sweep_pace(memory);
                self.ch2.env_sweep_step = self.ch2.env_sweep_pace;
                self.ch2.volume = self.ch2.initial_volume;
                if self.ch2.length_i == 0 {
                    self.ch2.length_i = 64;
                }
            }
        } else {
            self.ch2.on = false;
        }
        let on_now = self.ch2.on;
        set_ch2_on(on_now, memory);
        let length_timer_value = ch2_initial_len(memory);
        if self.ch2.on {
            if !self.ch2.length_enabled && ch2_length_enable(memory) {
                self.ch2.length_i = 64 - length_timer_value;
                self.ch2.length_enabled = true;
            } else if length_timer_value > 0 {
                self.ch2.length_i = 64 - length_timer_value;
            }
            let s = self.ch2_get_next_sample(memory);
            if s == 0 {
                0
            } else {
                self.ch2.volume
            }
        } else {
            255
        }
    }

    /// One per-sample tick of channel 3; see `spec_ch3_tick`.
    #[verifier::rlimit(100)]
    pub fn ch3_tick(&mut self, memory: &mut AddressSpace) -> (r: u8)
        requires
            old(memory)@.wf(),
            old(self)@.wf(),
        ensures
            ({
                let t = spec_ch3_tick(old(self).ch3, old(memory)@);
                *final(self) == (APU { ch3: t.0, ..*old(self) }) && final(memory)@ == t.1 && r
                    == t.2
            }),
            final(memory)@.wf(),
            final(self)@.wf(),
    {
        proof {
            reveal(spec_ch3_tick);
        }
        if ch3_dac_on(memory) {
            if ch3_trigger(memory) {
                self.ch3.on = true;
                let period_low = ch3_initial_period_low(memory);
                let period_high = ch3_initial_period_high(memory);
                self.ch3.period = (period_high as u16) * 256 + period_low as u16;
            }
        } else {
            self.ch3.on = false;
        }
        let on_now = self.ch3.on;
        set_ch3_on(on_now, memory);
        if self.ch3.on {
            if ch3_length_enable(memory) && !self.ch3.length_enabled {
                self.ch3.length_enabled = true;
                self.ch3.length_i = 255 - ch3_initial_len(memory);
            }
            self.ch3_get_next_sample(memory)
        } else {
            255
        }
    }

    /// One per-sample tick of channel 4; see `spec_ch4_tick`.
    #[verifier::rlimit(100)]
    pub fn ch4_tick(&mut self, memory: &mut AddressSpace) -> (r: u8)
        requires
            old(memory)@.wf(),
            old(self)@.wf(),
        ensures
            ({
                let t = spec_ch4_tick(old(self).ch4, old(memory)@);
                *final(self) == (APU { ch4: t.0, ..*old(self) }) && final(memory)@ == t.1 && r
                    == t.2
            }),
            final(memory)@.wf(),
            final(self)@.wf(),
    {
        proof {
            reveal(spec_ch4_tick);
        }
        if ch4_dac_on(memory) {
            if ch4_trigger(memory) {
                self.ch4.lfsr = 0;
                self.ch4.on = true;
                self.ch4.initial_volume = ch4_initial_volume(memory);
                self.ch4.env_sweep_pace = ch4_envelope_sweep_pace(memory);
                self.ch4.env_sweep_step = self.ch4.env_sweep_pace;
                self.ch4.volume = self.ch4.initial_volume;
                if self.ch4.length_i == 0 {
                    self.ch4.length_i = 64;
                }
            }
        } else {
            self.ch4.on = false;
        }
        let on_now = self.ch4.on;
        set_ch4_on(on_now, memory);
        let length_timer_value = ch4_initial_len(memory);
        if self.ch4.on {
            if !self.ch4.length_enabled && ch4_length_enable(memory) {
                self.ch4.length_i = 64 - length_timer_value;
                self.ch4.length_enabled = true;
            } else if length_timer_value > 0 {
                self.ch4.length_i = 64 - length_timer_value;
            }
            let s = self.ch4_get_next_sample(memory);
            if s == 0 {
                0
            } else {
                self.ch4.volume
            }
        } else {
            255
        }
    }
}

/// One T-cycle of the APU: a falling edge of bit 12 of the bus's internal
/// DIV counter (DIV's visible bit 4, 512 Hz) steps the frame sequencer; channel 4 samples every cycle, channels 1 and 2 every fourth,
/// channel 3 every second; the resampling accumulator emits one digital
/// sample quadruple per 4194304/44100 cycles.
pub open spec fn spec_apu_cycle(v: ApuView, b: BusView) -> (ApuView, BusView) {
    let div = b.internal_div / 4096 % 2;
    let fs = div == 0 && (v.div matches Some(d) && d == 1);
    let t = if fs {
        spec_frame_seq(v.ch1, v.ch2, v.ch3, v.ch4, b, v.frame_sequencer_i)
    } else {
        (v.ch1, v.ch2, v.ch3, v.ch4, b, v.frame_sequencer_i)
    };
    let va = ApuView {
        ch1: t.0,
        ch2: t.1,
        ch3: t.2,
        ch4: t.3,
        frame_sequencer_i: t.5,
        div_apu: if fs {
            crate::cpu::wclk(v.div_apu + 1)
        } else {
            v.div_apu
        },
        ..v
    };
    let t4 = spec_ch4_tick(va.ch4, t.4);
    let vb = ApuView { ch4: t4.0, last_ch4_sample: t4.2, ..va };
    let r12 = if v.clock % 4 == 0 {
        let t1 = spec_ch1_tick(vb.ch1, t4.1);
        let t2 = spec_ch2_tick(vb.ch2, t1.1);
        (
            ApuView {
                ch1: t1.0,
                ch2: t2.0,
                last_ch1_sample: t1.2,
                last_ch2_sample: t2.2,
                ..vb
            },
            t2.1,
        )
    } else {
        (vb, t4.1)
    };
    let r3 = if v.clock % 2 == 0 {
        let t3 = spec_ch3_tick(r12.0.ch3, r12.1);
        (ApuView { ch3: t3.0, last_ch3_sample: t3.2, ..r12.0 }, t3.1)
    } else {
        r12
    };
    let vd = r3.0;
    let frac = vd.resample_frac + TARGET_SAMPLE_RATE;
    let ve = if frac >= CLOCK_FREQ_HZ {
        ApuView {
            resample_frac: (frac - CLOCK_FREQ_HZ) as u32,
            buffer: vd.buffer.push(
                (
                    vd.last_ch1_sample,
                    vd.last_ch2_sample,
                    vd.last_ch3_sample,
                    vd.last_ch4_sample,
                ),
            ),
            ..vd
        }
    } else {
        ApuView { resample_frac: frac as u32, ..vd }
    };
    (
        ApuView { clock: crate::cpu::wclk(v.clock + 1), div: Some((div % 2) as u8), ..ve },
        r3.1,
    )
}

/// `n` T-cycles of the APU.
pub open spec fn spec_apu_cycle_n(v: ApuView, b: BusView, n: nat) -> (ApuView, BusView)
    decreases n,
{
    if n == 0 {
        (v, b)
    } else {
        let r = spec_apu_cycle_n(v, b, (n - 1) as nat);
        spec_apu_cycle(r.0, r.1)
    }
}

impl APU {
    /// One T-cycle; see `spec_apu_cycle`.
    #[verifier::rlimit(100)]
    fn apu_cycle(&mut self, memory: &mut AddressSpace)
        requires
            old(memory)@.wf(),
            old(self)@.wf(),
        ensures
            final(self)@ =~= spec_apu_cycle(old(self)@, old(memory)@).0,
            final(memory)@ == spec_apu_cycle(old(self)@, old(memory)@).1,
            final(memory)@.wf(),
            final(self)@.wf(),
    {
        let ghost v0 = self@;
        let ghost b0 = memory@;
        let div: u8 = (memory.internal_div / 4096 % 2) as u8;
        let fs = div == 0 && match self.div {
            Some(d) => d == 1,
            None => false,
        };
        if fs {
            self.div_apu = self.div_apu.wrapping_add(1);
            self.single_tick(memory);
        }
        proof {
            let t = if fs {
                spec_frame_seq(v0.ch1, v0.ch2, v0.ch3, v0.ch4, b0, v0.frame_sequencer_i)
            } else {
                (v0.ch1, v0.ch2, v0.ch3, v0.ch4, b0, v0.frame_sequencer_i)
            };
            assert(self@ =~= (ApuView {
                ch1: t.0,
                ch2: t.1,
                ch3: t.2,
                ch4: t.3,
                frame_sequencer_i: t.5,
                div_apu: if fs {
                    crate::cpu::wclk(v0.div_apu + 1)
                } else {
                    v0.div_apu
                },
                ..v0
            }));
            assert(memory@ == t.4);
        }
        let ch4_sample = self.ch4_tick(memory);
        self.last_ch4_sample = ch4_sample;
        if self.clock % 4 == 0 {
            let ch1_sample = self.ch1_tick(memory);
            let ch2_sample = self.ch2_tick(memory);
            self.last_ch1_sample = ch1_sample;
            self.last_ch2_sample = ch2_sample;
        }
        if self.clock % 2 == 0 {
            let ch3_sample = self.ch3_tick(memory);
            self.last_ch3_sample = ch3_sample;
        }
        proof {
            let t = if b0.internal_div / 4096 % 2 == 0 && (v0.div matches Some(d) && d == 1) {
                spec_frame_seq(v0.ch1, v0.ch2, v0.ch3, v0.ch4, b0, v0.frame_sequencer_i)
            } else {
                (v0.ch1, v0.ch2, v0.ch3, v0.ch4, b0, v0.frame_sequencer_i)
            };
            let va = ApuView {
                ch1: t.0,
                ch2: t.1,
                ch3: t.2,
                ch4: t.3,
                frame_sequencer_i: t.5,
                div_apu: if b0.internal_div / 4096 % 2 == 0 && (v0.div matches Some(d) && d == 1)
                     {
                    crate::cpu::wclk(v0.div_apu + 1)
                } else {
                    v0.div_apu
                },
                ..v0
            };
            let t4 = spec_ch4_tick(va.ch4, t.4);
            let vb = ApuView { ch4: t4.0, last_ch4_sample: t4.2, ..va };
            let r12 = if v0.clock % 4 == 0 {
                let t1 = spec_ch1_tick(vb.ch1, t4.1);
                let t2 = spec_ch2_tick(vb.ch2, t1.1);
                (
                    ApuView {
                        ch1: t1.0,
                        ch2: t2.0,
                        last_ch1_sample: t1.2,
                        last_ch2_sample: t2.2,
                        ..vb
                    },
                    t2.1,
                )
            } else {
                (vb, t4.1)
            };
            let r3 = if v0.clock % 2 == 0 {
                let t3 = spec_ch3_tick(r12.0.ch3, r12.1);
                (ApuView { ch3: t3.0, last_ch3_sample: t3.2, ..r12.0 }, t3.1)
            } else {
                r12
            };
            assert(self@ =~= r3.0);
            assert(memory@ == r3.1);
        }
        self.resample_frac = self.resample_frac + TARGET_SAMPLE_RATE as u32;
        if self.resample_frac >= CLOCK_FREQ_HZ {
            self.resample_frac = self.resample_frac - CLOCK_FREQ_HZ;
            self.sample_buffer.push(
                (
                    self.last_ch1_sample,
                    self.last_ch2_sample,
                    self.last_ch3_sample,
                    self.last_ch4_sample,
                ),
            );
        }
        self.clock = self.clock.wrapping_add(1);
        self.div = Some(div % 2);
    }

    /// A batch of T-cycles.  With the APU disabled nothing runs; the host
    /// pauses or resumes its audio device from `apu_enabled`.
    pub fn tick(&mut self, nticks: u8, memory: &mut AddressSpace)
        requires
            old(memory)@.wf(),
            old(self)@.wf(),
        ensures
            !spec_bit(old(memory)@.io[0x26], 128) ==> (*final(self) == *old(self)
                && final(memory)@ == old(memory)@),
            spec_bit(old(memory)@.io[0x26], 128) ==> (final(self)@
                =~= spec_apu_cycle_n(old(self)@, old(memory)@, nticks as nat).0
                && final(memory)@ == spec_apu_cycle_n(old(self)@, old(memory)@, nticks as nat).1),
            final(memory)@.wf(),
            final(self)@.wf(),
    {
        if !apu_enabled(memory) {
            return ;
        }
        let mut i: u8 = 0;
        while i < nticks
            invariant
                i <= nticks,
                self@.wf(),
                memory@.wf(),
                self@ =~= spec_apu_cycle_n(old(self)@, old(memory)@, i as nat).0,
                memory@ == spec_apu_cycle_n(old(self)@, old(memory)@, i as nat).1,
            decreases nticks - i,
        {
            self.apu_cycle(memory);
            i = i + 1;
        }
    }
}

} // verus!
