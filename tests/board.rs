use bluepill::frequency::{setup, ClockConfig, ClockSetup, ClockSpeeds, Speed, HSE, HSI};
use bluepill::led::{leds, Led};
use bluepill::pin::{
    apply_config, config, level, pwm_channel, pwm_timebase, pwm_value, reset_word, set_word, Mode,
    PinConfig, Port, PwmTimebase,
};
use bluepill::serial::{baud_divider, BaudDivider};
use bluepill::timer::{period, TimerPeriod};

fn reset_config() -> ClockConfig {
    ClockConfig { sws: 0, hpre: 0, ppre1: 0, ppre2: 0, pllsrc: false, pllxtpre: false, pllmul: 0 }
}

fn config_72mhz() -> ClockConfig {
    ClockConfig { sws: 2, hpre: 0, ppre1: 4, ppre2: 0, pllsrc: true, pllxtpre: false, pllmul: 7 }
}

#[test]
fn clock_speeds_at_reset() {
    let s = ClockSpeeds::get(&reset_config());
    assert_eq!(s, ClockSpeeds { sysclk: HSI, hclk: HSI, apb1: HSI, apb2: HSI });
}

#[test]
fn clock_speeds_at_72mhz() {
    let s = ClockSpeeds::get(&config_72mhz());
    assert_eq!(s, ClockSpeeds { sysclk: 72_000_000, hclk: 72_000_000, apb1: 36_000_000, apb2: 72_000_000 });
}

#[test]
fn clock_speeds_decode_each_field() {
    let hse = ClockConfig { sws: 1, hpre: 9, ppre1: 7, ppre2: 5, ..reset_config() };
    assert_eq!(
        ClockSpeeds::get(&hse),
        ClockSpeeds { sysclk: HSE, hclk: 2_000_000, apb1: 125_000, apb2: 500_000 }
    );
    let halved = ClockConfig { sws: 2, pllsrc: true, pllxtpre: true, pllmul: 14, ..reset_config() };
    assert_eq!(ClockSpeeds::get(&halved).sysclk, 64_000_000);
    let internal = ClockConfig { sws: 2, pllsrc: false, pllmul: 3, ..reset_config() };
    assert_eq!(ClockSpeeds::get(&internal).sysclk, 20_000_000);
    let reserved = ClockConfig { sws: 2, pllsrc: true, pllmul: 15, hpre: 3, ..reset_config() };
    assert_eq!(ClockSpeeds::get(&reserved).hclk, 8_000_000);
    let div512 = ClockConfig { hpre: 15, ..reset_config() };
    assert_eq!(ClockSpeeds::get(&div512).hclk, 15_625);
}

#[test]
fn clock_setup_per_speed() {
    assert_eq!(setup(Speed::S8Mhz), ClockSetup { pllmul: None, ppre1: None, flash_latency: None, use_pll: false });
    assert_eq!(setup(Speed::S16Mhz), ClockSetup { pllmul: Some(0), ppre1: None, flash_latency: None, use_pll: true });
    assert_eq!(setup(Speed::S32Mhz), ClockSetup { pllmul: Some(2), ppre1: None, flash_latency: Some(1), use_pll: true });
    assert_eq!(setup(Speed::S72Mhz), ClockSetup { pllmul: Some(7), ppre1: Some(4), flash_latency: Some(2), use_pll: true });
}

#[test]
fn clock_setup_reaches_speed() {
    for (speed, hz) in [(Speed::S8Mhz, 8_000_000), (Speed::S16Mhz, 16_000_000), (Speed::S32Mhz, 32_000_000), (Speed::S72Mhz, 72_000_000)] {
        let s = setup(speed);
        let before = reset_config();
        let after = ClockConfig {
            sws: if s.use_pll { 2 } else { 1 },
            pllsrc: true,
            pllmul: s.pllmul.unwrap_or(before.pllmul),
            ppre1: s.ppre1.unwrap_or(before.ppre1),
            ..before
        };
        assert_eq!(ClockSpeeds::get(&after).sysclk, hz);
    }
}

#[test]
fn timer_period_values() {
    assert_eq!(period(144_000), Ok(TimerPeriod { prescaler: 2, reload: 48_000 }));
    assert_eq!(period(1_000_000), Ok(TimerPeriod { prescaler: 15, reload: 62_500 }));
    assert_eq!(period(1), Ok(TimerPeriod { prescaler: 0, reload: 1 }));
    assert_eq!(period(65_535), Ok(TimerPeriod { prescaler: 0, reload: 65_535 }));
    assert_eq!(period(65_536), Ok(TimerPeriod { prescaler: 1, reload: 32_768 }));
    assert_eq!(period(4_294_836_225), Ok(TimerPeriod { prescaler: 65_534, reload: 65_535 }));
}

#[test]
fn timer_period_errors() {
    assert!(period(0).is_err());
    assert!(period(4_294_836_226).is_err());
    assert!(period(u32::MAX).is_err());
}

#[test]
fn serial_baud_divider() {
    assert_eq!(baud_divider(72_000_000, 9_600), Ok(BaudDivider { mantissa: 468, fraction: 12 }));
    assert_eq!(baud_divider(8_000_000, 115_200), Ok(BaudDivider { mantissa: 4, fraction: 5 }));
    assert_eq!(baud_divider(72_000_000, 1), Ok(BaudDivider { mantissa: 0xa20, fraction: 0 }));
    assert!(baud_divider(72_000_000, 0).is_err());
}

#[test]
fn pin_words_and_levels() {
    assert_eq!(set_word(13), 1 << 13);
    assert_eq!(reset_word(13), 1 << 29);
    assert_eq!(set_word(0), 1);
    assert_eq!(reset_word(15), 1 << 31);
    assert!(level(0b1000, 3));
    assert!(!level(0b1000, 2));
    assert!(level(0xffff_0000 | 1 << 15, 15));
}

#[test]
fn pin_config_fields() {
    assert_eq!(config(13, Mode::Output), Some(PinConfig { high: true, shift: 20, bits: 0x1 }));
    assert_eq!(config(2, Mode::Input), Some(PinConfig { high: false, shift: 8, bits: 0x8 }));
    assert_eq!(config(9, Mode::PwmOutput), Some(PinConfig { high: true, shift: 4, bits: 0xb }));
    assert_eq!(config(4, Mode::PwmOutput), None);
    assert_eq!(config(5, Mode::AnalogInput), None);
    assert_eq!(config(16, Mode::Input), None);
    let cfg = config(1, Mode::Output).unwrap();
    assert_eq!(apply_config(0x4444_4444, cfg), 0x4444_4414);
    let cfg = config(15, Mode::Input).unwrap();
    assert_eq!(apply_config(0x4444_4444, cfg), 0x8444_4444);
}

#[test]
fn pwm_channels() {
    assert_eq!(pwm_channel(Port::A, 8), Some(1));
    assert_eq!(pwm_channel(Port::A, 9), Some(2));
    assert_eq!(pwm_channel(Port::A, 10), Some(3));
    assert_eq!(pwm_channel(Port::A, 3), Some(4));
    assert_eq!(pwm_channel(Port::A, 4), None);
    assert_eq!(pwm_channel(Port::B, 6), Some(1));
    assert_eq!(pwm_channel(Port::B, 0), Some(3));
    assert_eq!(pwm_channel(Port::B, 9), Some(4));
    assert_eq!(pwm_channel(Port::B, 2), None);
    assert_eq!(pwm_channel(Port::C, 0), None);
}

#[test]
fn pwm_timebase_and_values() {
    assert_eq!(pwm_timebase(&config_72mhz()), PwmTimebase { prescaler: 1, reload: 720 });
    assert_eq!(pwm_timebase(&reset_config()), PwmTimebase { prescaler: 1, reload: 80 });
    assert_eq!(pwm_value(720, 255), 720);
    assert_eq!(pwm_value(720, 128), 360);
    assert_eq!(pwm_value(720, 0), 0);
    assert_eq!(pwm_value(720, 1), 0);
    assert_eq!(pwm_value(65_535, 255), 65_535);
}

#[test]
fn user_led() {
    let led = Led::user();
    assert_eq!(led.pin(), 13);
    assert_eq!(led.on_word(), 1 << 13);
    assert_eq!(led.off_word(), 1 << 29);
    assert_eq!(leds()[0], led);
    assert_eq!(Led::new(2).on_word(), 4);
}
