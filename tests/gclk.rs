use clock_tree::gclk::{
    Gclk, Gclk1Div, GclkConfig, GclkDiv, GclkDividerT, GclkSourceEnum, Genctrl, Tokens,
};
use clock_tree::source::{DfllId, Oscillator, Source, Xosc0Id, Xosc1Id};

#[test]
fn direct_divider_divides_by_max_of_n_and_one() {
    for n in 0..=255u8 {
        let tokens = Tokens::new();
        let osc = Oscillator::<Xosc0Id>::new(48_000_000);
        let (config, _osc) = GclkConfig::new(tokens.gclk3, osc);
        let config = config.div(GclkDiv::Div(n));
        let divisor = if n == 0 { 1 } else { n as u32 };
        assert_eq!(config.freq(), 48_000_000 / divisor);
        assert_eq!(GclkDiv::Div(n).as_u32(), n as u32);
    }
}

#[test]
fn direct_divider_writes_div_field() {
    let tokens = Tokens::new();
    let osc = Oscillator::<Xosc0Id>::new(48_000_000);
    let (config, _osc) = GclkConfig::new(tokens.gclk2, osc);
    let config = config.div(GclkDiv::Div(200));
    let g = config.genctrl();
    assert!(!g.divsel);
    assert_eq!(g.div, 200);
    assert_eq!(config.freq(), 240_000);
}

#[test]
fn power_of_two_dividers() {
    assert_eq!(GclkDiv::Div2Pow8.as_u32(), 256);
    assert_eq!(GclkDiv::Div2Pow9.as_u32(), 512);
    assert_eq!(Gclk1Div::Div2Pow16.as_u32(), 65536);
    assert_eq!(Gclk1Div::Div2Pow17.as_u32(), 131072);
    assert_eq!(Gclk1Div::Div(1000).as_u32(), 1000);

    let tokens = Tokens::new();
    let osc = Oscillator::<Xosc0Id>::new(16_777_216);
    let (c, osc) = GclkConfig::new(tokens.gclk4, osc);
    let c = c.div(GclkDiv::Div2Pow8);
    assert_eq!(c.freq(), 65_536);
    assert_eq!((c.genctrl().divsel, c.genctrl().div), (true, 7));
    let c = c.div(GclkDiv::Div2Pow9);
    assert_eq!(c.freq(), 32_768);
    assert_eq!((c.genctrl().divsel, c.genctrl().div), (true, 8));
    let (_token, osc) = c.free(osc);
    assert_eq!(osc.count(), 0);

    let osc = Oscillator::<Xosc1Id>::new(16_777_216);
    let (c1, _osc) = GclkConfig::new(tokens.gclk1, osc);
    let c1 = c1.div(Gclk1Div::Div2Pow16);
    assert_eq!(c1.freq(), 256);
    assert_eq!((c1.genctrl().divsel, c1.genctrl().div), (true, 15));
    let c1 = c1.div(Gclk1Div::Div2Pow17);
    assert_eq!(c1.freq(), 128);
    assert_eq!((c1.genctrl().divsel, c1.genctrl().div), (true, 16));
}

#[test]
fn freq_after_divider_zero_and_one_pass_through() {
    let tokens = Tokens::new();
    let osc = Oscillator::<Xosc0Id>::new(12_000_000);
    let (c, _osc) = GclkConfig::new(tokens.gclk5, osc);
    assert_eq!(c.freq(), 12_000_000);
    let c = c.div(GclkDiv::Div(0));
    assert_eq!(c.freq(), 12_000_000);
    let c = c.div(GclkDiv::Div(1));
    assert_eq!(c.freq(), 12_000_000);
    let c = c.div(GclkDiv::Div(3));
    assert_eq!(c.freq(), 4_000_000);
    let c = c.div(GclkDiv::Div(7));
    assert_eq!(c.freq(), 1_714_285);
}

#[test]
fn gclk1_direct_divider_uses_sixteen_bits() {
    let tokens = Tokens::new();
    let osc = Oscillator::<Xosc0Id>::new(48_000_000);
    let (c, _osc) = GclkConfig::new(tokens.gclk1, osc);
    let c = c.div(Gclk1Div::Div(48_000));
    assert_eq!(c.freq(), 1_000);
    assert_eq!(c.genctrl().div, 48_000);
    assert!(!c.genctrl().divsel);
}

#[test]
fn new_locks_source_and_selects_it() {
    let tokens = Tokens::new();
    let osc = Oscillator::<Xosc1Id>::new(8_000_000);
    assert_eq!(osc.count(), 0);
    let (c, osc) = GclkConfig::new(tokens.gclk6, osc);
    assert_eq!(osc.count(), 1);
    assert_eq!(c.genctrl().src, GclkSourceEnum::Xosc1);
    assert!(!c.genctrl().genen);
    let (token, osc) = c.free(osc);
    assert_eq!(osc.count(), 0);
    assert_eq!(token.genctrl().src, GclkSourceEnum::Xosc1);
}

#[test]
fn lock_blocks_disable_until_unlock() {
    let tokens = Tokens::new();
    let osc = Oscillator::<Xosc0Id>::new(12_000_000);
    let (c, _osc) = GclkConfig::new(tokens.gclk2, osc);
    let g = c.div(GclkDiv::Div(4)).enable();
    assert_eq!(g.count(), 0);
    let g = g.lock();
    assert_eq!(g.count(), 1);
    let g = match g.disable() {
        Ok(_) => panic!("a locked generator was disabled"),
        Err(g) => g,
    };
    assert_eq!(g.count(), 1);
    assert!(g.genctrl().genen);
    let g = g.unlock();
    let c = match g.disable() {
        Ok(c) => c,
        Err(_) => panic!("an unlocked generator was not disabled"),
    };
    assert!(!c.genctrl().genen);
    assert_eq!(c.freq(), 3_000_000);
}

#[test]
fn enable_then_disable_round_trip() {
    let tokens = Tokens::new();
    let osc = Oscillator::<Xosc0Id>::new(12_000_000);
    let (c, _osc) = GclkConfig::new(tokens.gclk7, osc);
    let c = c.div(GclkDiv::Div(6)).improve_duty_cycle(true);
    let before: Genctrl = c.genctrl();
    let freq_before = c.freq();
    let g = c.enable();
    assert!(g.genctrl().genen);
    assert_eq!(g.freq(), freq_before);
    let c = match g.disable() {
        Ok(c) => c,
        Err(_) => panic!("a generator with no consumers was not disabled"),
    };
    assert_eq!(c.genctrl(), before);
    assert_eq!(c.freq(), freq_before);
}

#[test]
fn swap_keeps_divider_and_moves_locks() {
    let tokens = Tokens::new();
    let a = Oscillator::<Xosc0Id>::new(12_000_000);
    let b = Oscillator::<Xosc1Id>::new(24_000_000);
    let (c, a) = GclkConfig::new(tokens.gclk8, a);
    let c = c.div(GclkDiv::Div(4));
    assert_eq!(c.freq(), 3_000_000);
    let (c, a, b) = c.swap(a, b);
    assert_eq!(a.count(), 0);
    assert_eq!(b.count(), 1);
    assert_eq!(c.genctrl().src, GclkSourceEnum::Xosc1);
    assert_eq!(c.genctrl().div, 4);
    assert_eq!(c.freq(), 6_000_000);
}

#[test]
fn gclk1_feeds_another_generator() {
    let tokens = Tokens::new();
    let osc = Oscillator::<Xosc0Id>::new(32_000_000);
    let (c1, _osc) = GclkConfig::new(tokens.gclk1, osc);
    let g1 = c1.div(Gclk1Div::Div(2)).enable();
    assert_eq!(g1.freq(), 16_000_000);
    let (c2, g1) = GclkConfig::new(tokens.gclk9, g1);
    assert_eq!(g1.count(), 1);
    assert_eq!(c2.genctrl().src, GclkSourceEnum::Gclkgen1);
    let c2 = c2.div(GclkDiv::Div(4));
    assert_eq!(c2.freq(), 4_000_000);
    let g1 = match g1.disable() {
        Ok(_) => panic!("generator 1 was disabled while generator 9 used it"),
        Err(g1) => g1,
    };
    let (_token, g1) = c2.free(g1);
    assert_eq!(g1.count(), 0);
    assert!(g1.disable().is_ok());
}

#[test]
fn output_pin_and_duty_cycle_flags() {
    let tokens = Tokens::new();
    let osc = Oscillator::<Xosc0Id>::new(12_000_000);
    let (c, _osc) = GclkConfig::new(tokens.gclk10, osc);
    let c = c.improve_duty_cycle(true);
    assert!(c.genctrl().idc);
    let mut g = c.enable();
    g.enable_gclk_out(true);
    assert!(g.genctrl().oe);
    assert!(g.genctrl().oov);
    g.disable_gclk_out();
    assert!(!g.genctrl().oe);
    assert!(g.genctrl().oov);
    assert_eq!(g.count(), 0);
}

#[test]
fn syncbusy_mask_per_generator() {
    let tokens = Tokens::new();
    assert_eq!(tokens.gclk1.mask(), 1 << 1);
    assert_eq!(tokens.gclk11.mask(), 1 << 11);
    assert!(tokens.gclk3.syncbusy_clear(0));
    assert!(!tokens.gclk3.syncbusy_clear(1 << 3));
    assert!(tokens.gclk3.syncbusy_clear(!(1 << 3)));
    assert!(tokens.gclk11.syncbusy_clear(0x07ff));
    assert!(!tokens.gclk11.syncbusy_clear(0x0800));
}

#[test]
fn fresh_tokens_are_in_reset_state() {
    let tokens = Tokens::new();
    let g = tokens.gclk2.genctrl();
    assert_eq!(g.src, GclkSourceEnum::Xosc0);
    assert!(!g.genen && !g.idc && !g.oe && !g.oov && !g.divsel);
    assert_eq!(g.div, 0);
    assert_eq!(tokens.gclk2.divisor(), 1);
}

#[test]
fn generator0_runs_from_reset() {
    let g0: Gclk<_, DfllId> = Gclk::init(48_000_000);
    assert_eq!(g0.count(), 1);
    assert_eq!(g0.freq(), 48_000_000);
    assert_eq!(g0.genctrl().src, GclkSourceEnum::Dfll);
    assert!(g0.genctrl().genen);
    assert_eq!(Source::freq(&g0), 48_000_000);
}

#[test]
fn source_select_values() {
    assert_eq!(GclkSourceEnum::Xosc0.bits(), 0);
    assert_eq!(GclkSourceEnum::Gclkgen1.bits(), 3);
    assert_eq!(GclkSourceEnum::Dfll.bits(), 6);
    assert_eq!(GclkSourceEnum::Dpll1.bits(), 8);
}
