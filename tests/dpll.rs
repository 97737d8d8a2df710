use clock_tree::dpll::{
    Dpll, DpllError, DpllstatusR, DynDpllSourceId, EnabledDpll, Pclk, RefclkA, Tokens,
};
use clock_tree::gclk::{GclkConfig, GclkDiv, GclkSourceEnum};
use clock_tree::source::{Oscillator, Xosc0Id, Xosc1Id, Xosc32kId};

#[test]
fn two_mhz_times_fifty_is_one_hundred_mhz() {
    let tokens = Tokens::new();
    let osc = Oscillator::<Xosc32kId>::new(2_000_000);
    let (dpll, osc) = Dpll::from_xosc32k(tokens.dpll0, osc);
    assert_eq!(osc.count(), 1);
    let dpll = dpll.set_loop_div(50, 0);
    assert_eq!(dpll.input_freq(), 2_000_000);
    assert_eq!(dpll.freq(), 100_000_000);
    let enabled = match dpll.enable() {
        Ok(e) => e,
        Err((e, _)) => panic!("enable failed: {:?}", e),
    };
    assert_eq!(enabled.freq(), 100_000_000);
    assert_eq!(enabled.count(), 0);
}

#[test]
fn thirty_two_khz_with_fraction() {
    let tokens = Tokens::new();
    let osc = Oscillator::<Xosc32kId>::new(32_000);
    let (dpll, _osc) = Dpll::from_xosc32k(tokens.dpll1, osc);
    let dpll = dpll.set_loop_div(3000, 24);
    assert_eq!(dpll.output_freq(), 96_024_000);
    let enabled = match dpll.enable() {
        Ok(e) => e,
        Err((e, _)) => panic!("enable failed: {:?}", e),
    };
    assert_eq!(enabled.freq(), 96_024_000);
    let v = enabled.settings();
    assert_eq!(v.ratio.ldr, 2999);
    assert_eq!(v.ratio.ldrfrac, 24);
    assert_eq!(v.ctrlb.refclk, RefclkA::Xosc32);
    assert!(v.ctrla.enable);
}

#[test]
fn output_out_of_range_is_refused_without_writes() {
    let tokens = Tokens::new();
    let osc = Oscillator::<Xosc32kId>::new(2_000_000);
    let (dpll, _osc) = Dpll::from_xosc32k(tokens.dpll0, osc);
    // 2 MHz * 47 = 94 MHz: below the range
    let dpll = dpll.set_loop_div(47, 0);
    let before = dpll.settings();
    let dpll = match dpll.enable() {
        Ok(_) => panic!("a 94 MHz output was accepted"),
        Err((e, d)) => {
            assert_eq!(e, DpllError::OutputFreqOutOfRange);
            d
        },
    };
    assert_eq!(dpll.settings(), before);
    assert!(!dpll.settings().ctrla.enable);
    // 2 MHz * 101 = 202 MHz: above the range
    let dpll = dpll.set_loop_div(101, 0);
    match dpll.enable() {
        Ok(_) => panic!("a 202 MHz output was accepted"),
        Err((e, d)) => {
            assert_eq!(e, DpllError::OutputFreqOutOfRange);
            assert_eq!(d.settings().ratio.ldr, 0);
        },
    }
}

#[test]
fn output_range_bounds_are_inclusive() {
    let tokens = Tokens::new();
    let osc = Oscillator::<Xosc32kId>::new(2_000_000);
    let (dpll, _osc) = Dpll::from_xosc32k(tokens.dpll0, osc);
    let e = match dpll.set_loop_div(48, 0).enable() {
        Ok(e) => e,
        Err((e, _)) => panic!("96 MHz refused: {:?}", e),
    };
    assert_eq!(e.freq(), 96_000_000);
    let dpll = match e.disable() {
        Ok(d) => d,
        Err(_) => panic!("disable refused"),
    };
    let e = match dpll.set_loop_div(100, 0).enable() {
        Ok(e) => e,
        Err((e, _)) => panic!("200 MHz refused: {:?}", e),
    };
    assert_eq!(e.freq(), 200_000_000);
}

#[test]
fn input_out_of_range_is_refused() {
    let tokens = Tokens::new();
    let osc = Oscillator::<Xosc32kId>::new(31_999);
    let (dpll, _osc) = Dpll::from_xosc32k(tokens.dpll0, osc);
    let dpll = dpll.set_loop_div(4000, 0);
    match dpll.enable() {
        Ok(_) => panic!("a 31999 Hz reference was accepted"),
        Err((e, _)) => assert_eq!(e, DpllError::InputFreqOutOfRange),
    }
    let osc = Oscillator::<Xosc32kId>::new(3_200_001);
    let (dpll, _osc) = Dpll::from_xosc32k(tokens.dpll1, osc);
    match dpll.set_loop_div(40, 0).enable() {
        Ok(_) => panic!("a 3.2 MHz + 1 Hz reference was accepted"),
        Err((e, _)) => assert_eq!(e, DpllError::InputFreqOutOfRange),
    }
}

#[test]
fn fraction_of_thirty_two_or_more_is_written_whole() {
    let tokens = Tokens::new();
    let osc = Oscillator::<Xosc32kId>::new(2_000_000);
    let (dpll, _osc) = Dpll::from_xosc32k(tokens.dpll0, osc);
    let dpll = dpll.set_loop_div(50, 32);
    assert_eq!(dpll.freq(), 102_000_000);
    let e = match dpll.enable() {
        Ok(e) => e,
        Err((e, _)) => panic!("enable failed: {:?}", e),
    };
    assert_eq!(e.freq(), 102_000_000);
    assert_eq!(e.settings().ratio.ldr, 50);
    assert_eq!(e.settings().ratio.ldrfrac, 0);

    let osc = Oscillator::<Xosc32kId>::new(32_000);
    let (dpll, _osc) = Dpll::from_xosc32k(tokens.dpll1, osc);
    let dpll = dpll.set_loop_div(3000, 88);
    assert_eq!(dpll.freq(), 96_088_000);
    let e = match dpll.enable() {
        Ok(e) => e,
        Err((e, _)) => panic!("enable failed: {:?}", e),
    };
    assert_eq!(e.settings().ratio.ldr, 3001);
    assert_eq!(e.settings().ratio.ldrfrac, 24);
    assert_eq!(e.settings().frac, 88);
}

#[test]
fn prediv_must_be_even_within_range() {
    let tokens = Tokens::new();
    let osc = Oscillator::<Xosc0Id>::new(16_000_000);
    let (dpll, _osc) = Dpll::from_xosc0(tokens.dpll0, osc);
    assert_eq!(dpll.settings().prediv, 2);
    let dpll = match dpll.set_prediv(3) {
        Ok(_) => panic!("odd pre-divider accepted"),
        Err((e, d)) => {
            assert_eq!(e, DpllError::InvalidPrediv);
            d
        },
    };
    assert_eq!(dpll.settings().prediv, 2);
    let dpll = match dpll.set_prediv(0) {
        Ok(_) => panic!("pre-divider 0 accepted"),
        Err((_, d)) => d,
    };
    let dpll = match dpll.set_prediv(4098) {
        Ok(_) => panic!("pre-divider 4098 accepted"),
        Err((_, d)) => d,
    };
    let dpll = match dpll.set_prediv(4096) {
        Ok(d) => d,
        Err(_) => panic!("pre-divider 4096 refused"),
    };
    assert_eq!(dpll.settings().prediv, 4096);
    let dpll = match dpll.set_prediv(8) {
        Ok(d) => d,
        Err(_) => panic!("pre-divider 8 refused"),
    };
    assert_eq!(dpll.input_freq(), 2_000_000);
}

#[test]
fn oscillator_source_writes_predivider_field() {
    let tokens = Tokens::new();
    let osc = Oscillator::<Xosc1Id>::new(12_000_000);
    let (dpll, osc) = Dpll::from_xosc1(tokens.dpll1, osc);
    let dpll = match dpll.set_prediv(6) {
        Ok(d) => d,
        Err(_) => panic!("pre-divider 6 refused"),
    };
    let dpll = dpll.set_loop_div(60, 0).set_lock_bypass(true).set_wake_up_fast(true).set_on_demand(false);
    let e = match dpll.enable() {
        Ok(e) => e,
        Err((e, _)) => panic!("enable failed: {:?}", e),
    };
    assert_eq!(e.freq(), 120_000_000);
    let v = e.settings();
    assert_eq!(v.ctrlb.refclk, RefclkA::Xosc1);
    assert_eq!(v.ctrlb.div, 2);
    assert!(v.ctrlb.lbypass);
    assert!(v.ctrlb.wuf);
    assert!(!v.ctrla.ondemand);
    assert_eq!(v.ratio.ldr, 59);
    let dpll = match e.disable() {
        Ok(d) => d,
        Err(_) => panic!("disable refused"),
    };
    let (token, osc) = dpll.free(osc);
    assert_eq!(osc.count(), 0);
    assert!(!token.ctrla().enable);
    assert_eq!(token.ratio().ldr, 59);
}

#[test]
fn locked_dpll_cannot_be_disabled() {
    let tokens = Tokens::new();
    let osc = Oscillator::<Xosc32kId>::new(2_000_000);
    let (dpll, _osc) = Dpll::from_xosc32k(tokens.dpll0, osc);
    let e: EnabledDpll<_, _> = match dpll.set_loop_div(50, 0).enable() {
        Ok(e) => e,
        Err(_) => panic!("enable failed"),
    };
    let e = e.lock();
    let e = match e.disable() {
        Ok(_) => panic!("a locked DPLL was disabled"),
        Err(e) => e,
    };
    assert_eq!(e.count(), 1);
    let e = e.unlock();
    match e.disable() {
        Ok(d) => {
            assert!(!d.settings().ctrla.enable);
            assert_eq!(d.settings().mult, 50);
        },
        Err(_) => panic!("an unlocked DPLL was not disabled"),
    }
}

#[test]
fn enable_then_disable_keeps_settings() {
    let tokens = Tokens::new();
    let osc = Oscillator::<Xosc32kId>::new(32_768);
    let (dpll, _osc) = Dpll::from_xosc32k(tokens.dpll0, osc);
    let dpll = dpll.set_loop_div(3662, 3).set_on_demand(false);
    let before = dpll.settings();
    let e = match dpll.enable() {
        Ok(e) => e,
        Err((e, _)) => panic!("enable failed: {:?}", e),
    };
    let after = match e.disable() {
        Ok(d) => d.settings(),
        Err(_) => panic!("disable refused"),
    };
    assert_eq!(after.src_freq, before.src_freq);
    assert_eq!(after.prediv, before.prediv);
    assert_eq!(after.mult, before.mult);
    assert_eq!(after.frac, before.frac);
    assert_eq!(after.lock_bypass, before.lock_bypass);
    assert_eq!(after.wake_up_fast, before.wake_up_fast);
    assert_eq!(after.on_demand, before.on_demand);
    assert!(!after.ctrla.enable);
}

#[test]
fn status_polling_reports_would_block() {
    let tokens = Tokens::new();
    let osc = Oscillator::<Xosc32kId>::new(2_000_000);
    let (dpll, _osc) = Dpll::from_xosc32k(tokens.dpll0, osc);
    let e = match dpll.set_loop_div(50, 0).enable() {
        Ok(e) => e,
        Err(_) => panic!("enable failed"),
    };
    let none = DpllstatusR::from_bits(0);
    let locked = DpllstatusR::from_bits(0b01);
    let ready = DpllstatusR::from_bits(0b10);
    let both = DpllstatusR::from_bits(0b11);
    assert!(matches!(e.wait_until_locked(&none), Err(nb::Error::WouldBlock)));
    assert!(matches!(e.wait_until_ready(&none), Err(nb::Error::WouldBlock)));
    assert!(e.wait_until_locked(&locked).is_ok());
    assert!(matches!(e.wait_until_ready(&locked), Err(nb::Error::WouldBlock)));
    assert!(matches!(e.wait_until_locked(&ready), Err(nb::Error::WouldBlock)));
    assert!(e.wait_until_ready(&ready).is_ok());
    assert!(e.wait_until_locked(&both).is_ok());
    assert!(e.wait_until_ready(&both).is_ok());
    assert!(none.lock().bit_is_clear());
    assert!(both.clkrdy().bit_is_set());
}

#[test]
fn pclk_driven_dpll_from_a_generator() {
    let gtokens = clock_tree::gclk::Tokens::new();
    let osc = Oscillator::<Xosc0Id>::new(24_000_000);
    let (c, _osc) = GclkConfig::new(gtokens.gclk2, osc);
    let g = c.div(GclkDiv::Div(12)).enable();
    let (pclk, g) = Pclk::enable(g);
    assert_eq!(g.count(), 1);
    assert_eq!(pclk.freq(), 2_000_000);
    let tokens = Tokens::new();
    let dpll = Dpll::from_pclk(tokens.dpll0, pclk).set_loop_div(60, 0);
    assert_eq!(dpll.settings().prediv, 1);
    let e = match dpll.enable() {
        Ok(e) => e,
        Err((e, _)) => panic!("enable failed: {:?}", e),
    };
    assert_eq!(e.settings().ctrlb.refclk, RefclkA::Gclk);
    assert_eq!(e.freq(), 120_000_000);

    // The DPLL in turn feeds generator 3.
    let (c3, e) = GclkConfig::new(gtokens.gclk3, e);
    assert_eq!(e.count(), 1);
    assert_eq!(c3.genctrl().src, GclkSourceEnum::Dpll0);
    assert_eq!(c3.div(GclkDiv::Div(2)).freq(), 60_000_000);

    let g = match g.disable() {
        Ok(_) => panic!("generator disabled under its peripheral channel"),
        Err(g) => g,
    };
    let e = e.unlock();
    let dpll = match e.disable() {
        Ok(d) => d,
        Err(_) => panic!("disable refused"),
    };
    let (_token, pclk) = dpll.free();
    let g = pclk.disable(g);
    assert_eq!(g.count(), 0);
    assert!(g.disable().is_ok());
}

#[test]
fn reference_clock_values() {
    assert_eq!(RefclkA::from(DynDpllSourceId::Pclk), RefclkA::Gclk);
    assert_eq!(RefclkA::from(DynDpllSourceId::Xosc0), RefclkA::Xosc0);
    assert_eq!(RefclkA::from(DynDpllSourceId::Xosc1), RefclkA::Xosc1);
    assert_eq!(RefclkA::from(DynDpllSourceId::Xosc32k), RefclkA::Xosc32);
}

#[test]
fn fresh_dpll_tokens_are_in_reset_state() {
    let tokens = Tokens::new();
    assert!(!tokens.dpll0.ctrla().enable);
    assert!(tokens.dpll0.ctrla().ondemand);
    assert_eq!(tokens.dpll1.ctrlb().refclk, RefclkA::Gclk);
    assert_eq!(tokens.dpll1.ratio().ldr, 0);
}

#[test]
fn sync_busy_decisions() {
    let tokens = Tokens::new();
    let idle = clock_tree::dpll::DpllsyncbusyR::from_bits(0);
    let enabling = clock_tree::dpll::DpllsyncbusyR::from_bits(0b010);
    let ratio = clock_tree::dpll::DpllsyncbusyR::from_bits(0b100);
    assert!(tokens.dpll0.enable_synced(&idle));
    assert!(tokens.dpll0.ratio_synced(&idle));
    assert!(!tokens.dpll0.enable_synced(&enabling));
    assert!(tokens.dpll0.ratio_synced(&enabling));
    assert!(tokens.dpll1.enable_synced(&ratio));
    assert!(!tokens.dpll1.ratio_synced(&ratio));
}
