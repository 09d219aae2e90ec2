//! System and bus clock speeds, decoded from the clock-configuration fields.

use vstd::prelude::*;

verus! {

/// Internal oscillator frequency, in Hz.
pub const HSI: u32 = 8_000_000;

/// External oscillator frequency, in Hz.
pub const HSE: u32 = 8_000_000;

/// The fields of the clock-configuration register that set the clock tree,
/// as raw bits.
#[derive(Clone, Copy, Debug, PartialEq, Eq, Structural)]
pub struct ClockConfig {
    /// System clock switch status: 0 internal, 1 external, 2 PLL.
    pub sws: u8,
    /// AHB prescaler.
    pub hpre: u8,
    /// Low-speed APB prescaler.
    pub ppre1: u8,
    /// High-speed APB prescaler.
    pub ppre2: u8,
    /// PLL source: `false` for the internal oscillator halved, `true` for the
    /// external one.
    pub pllsrc: bool,
    /// External oscillator halved before the PLL.
    pub pllxtpre: bool,
    /// PLL multiplication factor.
    pub pllmul: u8,
}

/// Board clock speeds, in Hz.
#[derive(Clone, Copy, Debug, PartialEq, Eq, Structural)]
pub struct ClockSpeeds {
    /// System clock.
    pub sysclk: u32,
    /// AHB peripheral clock.
    pub hclk: u32,
    /// Low-speed bus.
    pub apb1: u32,
    /// High-speed bus.
    pub apb2: u32,
}

/// Divisor selected by the AHB prescaler bits; the values that select no
/// division, and the reserved ones, give 1.
pub open spec fn ahb_divisor(hpre: u8) -> u32 {
    if hpre == 8 {
        2
    } else if hpre == 9 {
        4
    } else if hpre == 10 {
        8
    } else if hpre == 11 {
        16
    } else if hpre == 12 {
        64
    } else if hpre == 13 {
        128
    } else if hpre == 14 {
        256
    } else if hpre == 15 {
        512
    } else {
        1
    }
}

/// Divisor selected by an APB prescaler's bits; other values give 1.
pub open spec fn apb_divisor(ppre: u8) -> u32 {
    if ppre == 4 {
        2
    } else if ppre == 5 {
        4
    } else if ppre == 6 {
        8
    } else if ppre == 7 {
        16
    } else {
        1
    }
}

/// Factor selected by the PLL multiplication bits: `bits + 2` up to 16; the
/// reserved value leaves the input undivided and unmultiplied.
pub open spec fn pll_factor(pllmul: u8) -> u32 {
    if pllmul <= 14 {
        (pllmul + 2) as u32
    } else {
        1
    }
}

/// Frequency fed into the PLL.
pub open spec fn pll_input(cfg: ClockConfig) -> u32 {
    if !cfg.pllsrc {
        HSI / 2
    } else if cfg.pllxtpre {
        HSE / 2
    } else {
        HSE
    }
}

/// Frequency the PLL puts out.
pub open spec fn pll_speed(cfg: ClockConfig) -> u32 {
    (pll_input(cfg) * pll_factor(cfg.pllmul)) as u32
}

/// The clock speeds a configuration gives.
pub open spec fn speeds_of(cfg: ClockConfig) -> ClockSpeeds {
    let sysclk = if cfg.sws == 1 {
        HSE
    } else if cfg.sws == 2 {
        pll_speed(cfg)
    } else {
        HSI
    };
    let hclk = sysclk / ahb_divisor(cfg.hpre);
    ClockSpeeds {
        sysclk,
        hclk,
        apb1: hclk / apb_divisor(cfg.ppre1),
        apb2: hclk / apb_divisor(cfg.ppre2),
    }
}

fn ahb_div(hpre: u8) -> (r: u32)
    ensures
        r == ahb_divisor(hpre),
{
    match hpre {
        8 => 2,
        9 => 4,
        10 => 8,
        11 => 16,
        12 => 64,
        13 => 128,
        14 => 256,
        15 => 512,
        _ => 1,
    }
}

fn apb_div(ppre: u8) -> (r: u32)
    ensures
        r == apb_divisor(ppre),
{
    match ppre {
        4 => 2,
        5 => 4,
        6 => 8,
        7 => 16,
        _ => 1,
    }
}

impl ClockSpeeds {
    /// The clock speeds that the configuration `cfg` gives.
    pub fn get(cfg: &ClockConfig) -> (r: ClockSpeeds)
        ensures
            r == speeds_of(*cfg),
    {
        let sysclk = match cfg.sws {
            1 => HSE,
            2 => Self::get_pll_speed(cfg),
            _ => HSI,
        };
        let hclk = sysclk / ahb_div(cfg.hpre);
        let apb1 = hclk / apb_div(cfg.ppre1);
        let apb2 = hclk / apb_div(cfg.ppre2);
        ClockSpeeds { sysclk, hclk, apb1, apb2 }
    }

    fn get_pll_speed(cfg: &ClockConfig) -> (r: u32)
        ensures
            r == pll_speed(*cfg),
    {
        let hse_div: u32 = if cfg.pllxtpre { 2 } else { 1 };
        let src_spd: u32 = if cfg.pllsrc { HSE / hse_div } else { HSI / 2 };
        let factor: u32 = if cfg.pllmul <= 14 { cfg.pllmul as u32 + 2 } else { 1 };
        src_spd * factor
    }
}

/// Preconfigured system clock speeds.
#[derive(Clone, Copy, Debug, PartialEq, Eq, Structural)]
pub enum Speed {
    /// 8 MHz
    S8Mhz,
    /// 16 MHz
    S16Mhz,
    /// 32 MHz
    S32Mhz,
    /// 72 MHz
    S72Mhz,
}

/// The system clock frequency of a preconfigured speed, in Hz.
pub open spec fn speed_hz(speed: Speed) -> u32 {
    match speed {
        Speed::S8Mhz => 8_000_000,
        Speed::S16Mhz => 16_000_000,
        Speed::S32Mhz => 32_000_000,
        Speed::S72Mhz => 72_000_000,
    }
}

/// What bringing the system clock to a preconfigured speed writes, besides
/// enabling the external oscillator as PLL source and the flash prefetch
/// buffer, which every speed does.
#[derive(Clone, Copy, Debug, PartialEq, Eq, Structural)]
pub struct ClockSetup {
    /// PLL multiplication bits to write, if the PLL is used.
    pub pllmul: Option<u8>,
    /// Low-speed APB prescaler bits to write, if any.
    pub ppre1: Option<u8>,
    /// Flash wait states to set, if any.
    pub flash_latency: Option<u8>,
    /// Switch the system clock to the PLL (else to the external oscillator).
    pub use_pll: bool,
}

/// The setup for each preconfigured speed.
pub open spec fn spec_setup(speed: Speed) -> ClockSetup {
    match speed {
        Speed::S8Mhz => ClockSetup { pllmul: None, ppre1: None, flash_latency: None, use_pll: false },
        Speed::S16Mhz => ClockSetup { pllmul: Some(0), ppre1: None, flash_latency: None, use_pll: true },
        Speed::S32Mhz => ClockSetup { pllmul: Some(2), ppre1: None, flash_latency: Some(1), use_pll: true },
        Speed::S72Mhz => ClockSetup { pllmul: Some(7), ppre1: Some(4), flash_latency: Some(2), use_pll: true },
    }
}

/// The configuration after applying `setup` to `cfg`: the PLL takes the
/// external oscillator, the written fields change, and the switch status
/// follows the selected source.
pub open spec fn apply_setup(cfg: ClockConfig, setup: ClockSetup) -> ClockConfig {
    ClockConfig {
        sws: if setup.use_pll { 2 } else { 1 },
        pllsrc: true,
        pllmul: match setup.pllmul {
            Some(m) => m,
            None => cfg.pllmul,
        },
        ppre1: match setup.ppre1 {
            Some(p) => p,
            None => cfg.ppre1,
        },
        ..cfg
    }
}

/// The register writes that bring the system clock to `speed`.
pub fn setup(speed: Speed) -> (r: ClockSetup)
    ensures
        r == spec_setup(speed),
{
    match speed {
        Speed::S8Mhz => ClockSetup { pllmul: None, ppre1: None, flash_latency: None, use_pll: false },
        Speed::S16Mhz => ClockSetup { pllmul: Some(0), ppre1: None, flash_latency: None, use_pll: true },
        Speed::S32Mhz => ClockSetup { pllmul: Some(2), ppre1: None, flash_latency: Some(1), use_pll: true },
        Speed::S72Mhz => ClockSetup { pllmul: Some(7), ppre1: Some(4), flash_latency: Some(2), use_pll: true },
    }
}

/// From any configuration whose external oscillator is not halved before the
/// PLL (the reset state), applying the setup of a speed runs the system clock
/// at that speed; at 72 MHz the low-speed bus runs at half the AHB clock.
pub proof fn lemma_setup_reaches_speed(cfg: ClockConfig, speed: Speed)
    requires
        !cfg.pllxtpre,
    ensures
        speeds_of(apply_setup(cfg, spec_setup(speed))).sysclk == speed_hz(speed),
        speed == Speed::S72Mhz ==> speeds_of(apply_setup(cfg, spec_setup(speed))).apb1
            == speeds_of(apply_setup(cfg, spec_setup(speed))).hclk / 2,
{
    let after = apply_setup(cfg, spec_setup(speed));
    assert(pll_input(after) == 8_000_000);
    match speed {
        Speed::S8Mhz => {},
        Speed::S16Mhz => assert(pll_factor(after.pllmul) == 2),
        Speed::S32Mhz => assert(pll_factor(after.pllmul) == 4),
        Speed::S72Mhz => assert(pll_factor(after.pllmul) == 9),
    }
}

} // verus!
