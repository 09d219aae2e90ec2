//! GPIO pins: configuration fields, set/reset words, input levels and PWM
//! settings.

use vstd::prelude::*;

use crate::frequency::{
    apb_divisor, ahb_divisor, pll_factor, pll_input, speeds_of, ClockConfig, ClockSpeeds,
};

verus! {

/// Number of pins of a GPIO port.
pub const PINS: u8 = 16;

/// The bit-set-reset word that drives `pin` high.
pub fn set_word(pin: u8) -> (r: u32)
    requires
        pin < PINS,
    ensures
        r == 1u32 << (pin as u32),
{
    1u32 << (pin as u32)
}

/// The bit-set-reset word that drives `pin` low.
pub fn reset_word(pin: u8) -> (r: u32)
    requires
        pin < PINS,
    ensures
        r == 1u32 << (pin as u32 + 16),
{
    1u32 << (pin as u32 + 16)
}

/// Whether `pin` reads high in the input data word `idr`.
pub fn level(idr: u32, pin: u8) -> (r: bool)
    requires
        pin < PINS,
    ensures
        r == ((idr >> (pin as u32)) & 1 == 1),
{
    let p = pin as u32;
    assert(((idr & (1u32 << p)) != 0) == ((idr >> p) & 1 == 1)) by (bit_vector)
        requires
            p < 16,
    ;
    idr & (1u32 << p) != 0
}

/// The compare value for a duty cycle of `duty_cycle / 255` on a timer that
/// counts to `reload`: the duty cycle is first taken in whole percent,
/// rounding down.
pub open spec fn spec_pwm_value(reload: u16, duty_cycle: u8) -> int {
    if duty_cycle == 0 {
        0
    } else {
        reload as int * (duty_cycle as int * 100 / 255) / 100
    }
}

/// The compare value for a duty cycle of `duty_cycle / 255`.
pub fn pwm_value(reload: u16, duty_cycle: u8) -> (r: u16)
    ensures
        r as int == spec_pwm_value(reload, duty_cycle),
        r <= reload,
{
    if duty_cycle == 0 {
        0
    } else {
        let percent: u32 = (duty_cycle as u32 * 100) / 255;
        assert(percent <= 100);
        let arr = reload as u32;
        assert(arr * percent <= 65535 * 100) by (nonlinear_arith)
            requires
                arr <= 65535,
                percent <= 100,
        ;
        assert(arr * percent / 100 <= arr) by (nonlinear_arith)
            requires
                percent <= 100,
        ;
        ((arr * percent) / 100) as u16
    }
}

/// How a pin is used.
#[derive(Clone, Copy, Debug, PartialEq, Eq, Structural)]
pub enum Mode {
    /// Digital input with pull-up or pull-down.
    Input,
    /// Analog input: left unconfigured.
    AnalogInput,
    /// Push-pull digital output.
    Output,
    /// Timer-driven push-pull output.
    PwmOutput,
}

/// A GPIO port.
#[derive(Clone, Copy, Debug, PartialEq, Eq, Structural)]
pub enum Port {
    A,
    B,
    C,
    D,
}

/// The four configuration bits of one pin, and where they go: in the high
/// configuration register (pins 8 to 15) or the low one, at bit `shift`.
#[derive(Clone, Copy, Debug, PartialEq, Eq, Structural)]
pub struct PinConfig {
    pub high: bool,
    pub shift: u8,
    pub bits: u8,
}

/// Pins that can be driven by a timer channel.
pub open spec fn pwm_capable(pin: u8) -> bool {
    pin <= 3 || (6 <= pin && pin <= 11)
}

/// Configuration bits of a mode, `CNF` above `MODE`: input with pull
/// (`CNF` 2, `MODE` 0), push-pull output at 10 MHz (0, 1) and alternate
/// push-pull output at 50 MHz (2, 3).
pub open spec fn mode_bits(mode: Mode) -> u8 {
    match mode {
        Mode::Input => 0x8,
        Mode::Output => 0x1,
        Mode::PwmOutput => 0xb,
        Mode::AnalogInput => 0,
    }
}

/// Whether configuring `pin` for `mode` writes anything.
pub open spec fn configurable(pin: u8, mode: Mode) -> bool {
    &&& pin < PINS
    &&& mode != Mode::AnalogInput
    &&& mode == Mode::PwmOutput ==> pwm_capable(pin)
}

/// The configuration field to write to put `pin` in `mode`; `None` where
/// nothing is written: analog inputs, pins outside the port, and pins that
/// no timer channel drives.
pub fn config(pin: u8, mode: Mode) -> (r: Option<PinConfig>)
    ensures
        !configurable(pin, mode) ==> r is None,
        configurable(pin, mode) ==> r == Some(
            PinConfig { high: pin >= 8, shift: ((pin % 8) * 4) as u8, bits: mode_bits(mode) },
        ),
{
    if pin >= PINS {
        return None;
    }
    let bits: u8 = match mode {
        Mode::Input => 0x8,
        Mode::Output => 0x1,
        Mode::PwmOutput => {
            if !(pin <= 3 || (6 <= pin && pin <= 11)) {
                return None;
            }
            0xb
        },
        Mode::AnalogInput => {
            return None;
        },
    };
    Some(PinConfig { high: pin >= 8, shift: (pin % 8) * 4, bits })
}

/// The configuration register word `word` with the field of `cfg` replaced.
pub fn apply_config(word: u32, cfg: PinConfig) -> (r: u32)
    requires
        cfg.shift <= 28,
        cfg.bits < 16,
    ensures
        r == (word & !(0xfu32 << (cfg.shift as u32))) | ((cfg.bits as u32) << (cfg.shift as u32)),
{
    let shift = cfg.shift as u32;
    (word & !(0xfu32 << shift)) | ((cfg.bits as u32) << shift)
}

/// The timer channel, 1 to 4, that drives `pin` of `port`, if any.
pub fn pwm_channel(port: Port, pin: u8) -> (r: Option<u8>)
    ensures
        port == Port::A ==> r == if pin == 0 || pin == 6 || pin == 8 {
            Some(1u8)
        } else if pin == 1 || pin == 7 || pin == 9 {
            Some(2u8)
        } else if pin == 2 || pin == 10 {
            Some(3u8)
        } else if pin == 3 || pin == 11 {
            Some(4u8)
        } else {
            None
        },
        port == Port::B ==> r == if pin == 6 {
            Some(1u8)
        } else if pin == 7 {
            Some(2u8)
        } else if pin == 0 || pin == 8 {
            Some(3u8)
        } else if pin == 1 || pin == 9 {
            Some(4u8)
        } else {
            None
        },
        port == Port::C || port == Port::D ==> r is None,
{
    match port {
        Port::A => match pin {
            0 | 6 | 8 => Some(1),
            1 | 7 | 9 => Some(2),
            2 | 10 => Some(3),
            3 | 11 => Some(4),
            _ => None,
        },
        Port::B => match pin {
            6 => Some(1),
            7 => Some(2),
            0 | 8 => Some(3),
            1 | 9 => Some(4),
            _ => None,
        },
        _ => None,
    }
}

/// Prescaler and reload of a PWM timer.
#[derive(Clone, Copy, Debug, PartialEq, Eq, Structural)]
pub struct PwmTimebase {
    pub prescaler: u16,
    pub reload: u16,
}

/// The clock of the low-speed bus timers: the bus clock, doubled when the
/// bus prescaler divides.
pub open spec fn timer_clock(cfg: ClockConfig) -> int {
    if cfg.ppre1 == 0 {
        speeds_of(cfg).apb1 as int
    } else {
        2 * speeds_of(cfg).apb1
    }
}

/// The timebase for a 100 kHz PWM count: the count per period is taken to
/// its low 16 bits, the prescaler is 2 where that is the largest 16-bit
/// value and 1 otherwise, and the reload is the count per period.
pub open spec fn spec_pwm_timebase(cfg: ClockConfig) -> PwmTimebase {
    let base = (timer_clock(cfg) / 100_000) % 0x10000;
    PwmTimebase { prescaler: if base == 0xffff { 2 } else { 1 }, reload: base as u16 }
}

/// No configuration runs the system clock above 128 MHz, so the buses and
/// their timer clocks stay well within 32 bits.
pub proof fn lemma_bus_speeds_bounded(cfg: ClockConfig)
    ensures
        speeds_of(cfg).sysclk <= 128_000_000,
        speeds_of(cfg).apb1 <= speeds_of(cfg).sysclk,
        speeds_of(cfg).apb2 <= speeds_of(cfg).sysclk,
{
    assert(pll_input(cfg) <= 8_000_000);
    assert(pll_factor(cfg.pllmul) <= 16);
    assert(pll_input(cfg) * pll_factor(cfg.pllmul) <= 128_000_000) by (nonlinear_arith)
        requires
            pll_input(cfg) <= 8_000_000,
            pll_factor(cfg.pllmul) <= 16,
    ;
    let s = speeds_of(cfg);
    assert(s.hclk <= s.sysclk) by (nonlinear_arith)
        requires
            s.hclk == s.sysclk / ahb_divisor(cfg.hpre),
            ahb_divisor(cfg.hpre) >= 1,
    ;
    assert(s.apb1 <= s.hclk) by (nonlinear_arith)
        requires
            s.apb1 == s.hclk / apb_divisor(cfg.ppre1),
            apb_divisor(cfg.ppre1) >= 1,
    ;
    assert(s.apb2 <= s.hclk) by (nonlinear_arith)
        requires
            s.apb2 == s.hclk / apb_divisor(cfg.ppre2),
            apb_divisor(cfg.ppre2) >= 1,
    ;
}

/// The timebase of a PWM timer on the low-speed bus under the clock
/// configuration `cfg`.
pub fn pwm_timebase(cfg: &ClockConfig) -> (r: PwmTimebase)
    ensures
        r == spec_pwm_timebase(*cfg),
{
    let speeds = ClockSpeeds::get(cfg);
    proof {
        lemma_bus_speeds_bounded(*cfg);
    }
    let apb1_mult: u32 = if cfg.ppre1 == 0 { 1 } else { 2 };
    let base: u16 = (((speeds.apb1 * apb1_mult) / 100_000) % 0x10000) as u16;
    let psc: u16 = base / 0xffff + 1;
    let arr: u16 = base + (psc / 2) / psc;
    PwmTimebase { prescaler: psc, reload: arr }
}

} // verus!
