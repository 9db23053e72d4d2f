use clock_tree::rcc::pll::{
    calc_ck_div, calc_fracn, calc_vco_ck, pll_setup, PllConfig, PllConfigStrategy, PllError,
    PllId, PllSettings,
};

fn request(strategy: PllConfigStrategy, p: u32, q: Option<u32>, r: Option<u32>) -> PllConfig {
    PllConfig { strategy, p_ck: Some(p), q_ck: q, r_ck: r }
}

/// Reference frequency, M and P dividers and target VCO frequency that the
/// strategy picks for a PLL2/3 output.
fn vco_setup(strategy: PllConfigStrategy, pllsrc: u32, output: u32) -> (u32, u32, u32, u32) {
    let cfg = request(strategy, output, None, None);
    let st: PllSettings = pll_setup(PllId::Pll2, pllsrc, &cfg).unwrap().settings.unwrap();
    (st.ref_ck, st.m, st.p, output * st.p)
}

#[test]
/// Test PFD input frequency PLL and VCO output frequency
fn vco_setup_normal() {
    let pllsrc = 25_000_000; // PLL source frequency eg. 25MHz crystal
    let pll_p_target = 242_000_000; // PLL output frequency (P_CK)
    let pll_q_target = 120_900_000; // PLL output frequency (Q_CK)
    let pll_r_target = 30_200_000; // PLL output frequency (R_CK)

    let (ref_x_ck, pll_x_m, pll_x_p, vco_ck_target) =
        vco_setup(PllConfigStrategy::Normal, pllsrc, pll_p_target);
    // Feedback divider. Integer only
    let pll_x_n = vco_ck_target / ref_x_ck;
    // Resulting achieved vco_ck
    let vco_ck_achieved = calc_vco_ck(ref_x_ck, pll_x_n, 0);
    // {Q,R} output clocks
    let pll_x_q = calc_ck_div(PllConfigStrategy::Normal, vco_ck_achieved, pll_q_target);
    let pll_x_r = calc_ck_div(PllConfigStrategy::Normal, vco_ck_achieved, pll_r_target);

    // Input
    let input = pllsrc as f32 / pll_x_m as f32;
    assert!((input > 1e6) && (input < 2e6));

    // Output
    let output_p = vco_ck_achieved as f32 / pll_x_p as f32;
    let error = output_p - pll_p_target as f32;
    assert!(f32::abs(error) < (pll_p_target as f32 / 100.0)); // < ±1% error

    let output_q = vco_ck_achieved as f32 / pll_x_q as f32;
    let error = output_q - pll_q_target as f32;
    assert!(f32::abs(error) < (pll_q_target as f32 / 100.0)); // < ±1% error

    let output_r = vco_ck_achieved as f32 / pll_x_r as f32;
    let error = output_r - pll_r_target as f32;
    assert!(f32::abs(error) < (pll_r_target as f32 / 100.0)); // < ±1% error
}

#[test]
/// Test PFD input frequency PLL and VCO output frequency
fn vco_setup_iterative() {
    let pllsrc = 25_000_000; // PLL source frequency eg. 25MHz crystal
    let pll_p_target = 240_000_000; // PLL output frequency (P_CK)
    let pll_q_target = 120_000_000; // PLL output frequency (Q_CK)
    let pll_r_target = 30_000_000; // PLL output frequency (R_CK)

    let (ref_x_ck, pll_x_m, pll_x_p, vco_ck_target) =
        vco_setup(PllConfigStrategy::Iterative, pllsrc, pll_p_target);
    // Feedback divider. Integer only
    let pll_x_n = vco_ck_target / ref_x_ck;
    // Resulting achieved vco_ck
    let vco_ck_achieved = calc_vco_ck(ref_x_ck, pll_x_n, 0);
    // {Q,R} output clocks
    let pll_x_q = calc_ck_div(PllConfigStrategy::Iterative, vco_ck_target, pll_q_target);
    let pll_x_r = calc_ck_div(PllConfigStrategy::Iterative, vco_ck_target, pll_r_target);

    // Input
    let input = pllsrc as f32 / pll_x_m as f32;
    assert_eq!(input, 5e6);

    // Output
    let output_p = pll_x_n as f32 * input / pll_x_p as f32;
    assert_eq!(output_p, 240e6);

    let output_q = vco_ck_achieved as f32 / pll_x_q as f32;
    assert_eq!(output_q, pll_q_target as f32);

    let output_r = vco_ck_achieved as f32 / pll_x_r as f32;
    assert_eq!(output_r, pll_r_target as f32);
}

#[test]
/// Test PFD input frequency PLL and VCO output frequency
fn vco_setup_fractional() {
    let pllsrc = 16_000_000; // PLL source frequency eg. 16MHz crystal
    let pll_p_target = 48_000 * 256; // Target clock
    let pll_q_target = 48_000 * 128; // Target clock
    let pll_r_target = 48_000 * 63; // Target clock
    let output = pll_p_target; // PLL output frequency (P_CK)

    let (ref_x_ck, _pll_x_m, pll_x_p, vco_ck_target) =
        vco_setup(PllConfigStrategy::Fractional, pllsrc, output);

    // Feedback divider. Integer only
    let pll_x_n = vco_ck_target / ref_x_ck;
    let pll_x_fracn = calc_fracn(ref_x_ck, pll_x_n, pll_x_p, output);
    // Resulting achieved vco_ck
    let vco_ck_achieved = calc_vco_ck(ref_x_ck, pll_x_n, pll_x_fracn);

    // Calulate additional output dividers
    let pll_x_q = calc_ck_div(PllConfigStrategy::Fractional, vco_ck_achieved, pll_q_target);
    let pll_x_r = calc_ck_div(PllConfigStrategy::Fractional, vco_ck_achieved, pll_r_target);

    // Output
    let output_p = vco_ck_achieved as f32 / pll_x_p as f32;

    // The P_CK should be very close to the target with a finely tuned FRACN
    //
    // The other clocks accuracy will vary depending on how close
    // they are to an integer fraction of the P_CK
    assert!(output_p <= pll_p_target as f32);
    let error = output_p - pll_p_target as f32;
    assert!(f32::abs(error) < (pll_p_target as f32 / 500_000.0)); // < ±.0002% = 2ppm error

    // Staying under these Q and R targets would take dividers of 136 and
    // 277, outside the legal 1..=128: the divider stops at 128, over the
    // target, and a PLL asked for these outputs is refused.
    assert_eq!(pll_x_q, 128);
    assert_eq!(pll_x_r, 128);
    let output_q = vco_ck_achieved as f32 / pll_x_q as f32;
    assert!(output_q > pll_q_target as f32);
    let output_r = vco_ck_achieved as f32 / pll_x_r as f32;
    assert!(output_r > pll_r_target as f32);
    let cfg = request(
        PllConfigStrategy::Fractional,
        pll_p_target,
        Some(pll_q_target),
        Some(pll_r_target),
    );
    assert_eq!(pll_setup(PllId::Pll2, pllsrc, &cfg), Err(PllError::TapDividerOutOfRange));
}

#[test]
fn vco_setup_fractional_not_less() {
    let pllsrc = 16_000_000; // PLL source frequency eg. 16MHz crystal
    let pll_p_target = 48_000 * 256; // Target clock
    let pll_q_target = 48_000 * 128; // Target clock
    let pll_r_target = 48_000 * 63; // Target clock
    let output = pll_p_target; // PLL output frequency (P_CK)

    let (ref_x_ck, _pll_x_m, pll_x_p, vco_ck_target) =
        vco_setup(PllConfigStrategy::FractionalNotLess, pllsrc, output);

    // Feedback divider. Integer only
    let pll_x_n = vco_ck_target / ref_x_ck;
    let pll_x_fracn = calc_fracn(ref_x_ck, pll_x_n, pll_x_p, output) + 1;
    // Resulting achieved vco_ck
    let vco_ck_achieved = calc_vco_ck(ref_x_ck, pll_x_n, pll_x_fracn);

    // Calulate additional output dividers
    let pll_x_q =
        calc_ck_div(PllConfigStrategy::FractionalNotLess, vco_ck_achieved, pll_q_target);
    let pll_x_r =
        calc_ck_div(PllConfigStrategy::FractionalNotLess, vco_ck_achieved, pll_r_target);

    // Output
    let output_p = vco_ck_achieved as f32 / pll_x_p as f32;

    // The P_CK should be very close to the target with a finely tuned FRACN
    //
    // The other clocks accuracy will vary depending on how close
    // they are to an integer fraction of the P_CK
    assert!(output_p >= pll_p_target as f32);
    let error = output_p - pll_p_target as f32;
    assert!(f32::abs(error) < (pll_p_target as f32 / 500_000.0)); // < ±.0002% = 2ppm error

    let output_q = vco_ck_achieved as f32 / pll_x_q as f32;
    assert!(output_q >= pll_q_target as f32);

    let output_r = vco_ck_achieved as f32 / pll_x_r as f32;
    assert!(output_r >= pll_r_target as f32);
}

#[test]
fn iterative_25mhz_to_240mhz_is_exact() {
    let cfg = request(PllConfigStrategy::Iterative, 240_000_000, Some(120_000_000), Some(30_000_000));
    let out = pll_setup(PllId::Pll2, 25_000_000, &cfg).unwrap();
    let st = out.settings.unwrap();
    assert_eq!(st.m, 5);
    assert_eq!(st.ref_ck, 5_000_000);
    assert_eq!(st.p, 3);
    assert_eq!(st.n, 144);
    assert_eq!(st.fracn, 0);
    assert_eq!(st.vco_ck, 720_000_000);
    assert_eq!(out.p_ck, Some(240_000_000));
    assert_eq!(out.q_ck, Some(120_000_000));
    assert_eq!(out.r_ck, Some(30_000_000));
}

#[test]
fn fractional_strategies_bracket_the_target() {
    let target = 48_000 * 256;
    let frac = pll_setup(
        PllId::Pll2,
        16_000_000,
        &request(PllConfigStrategy::Fractional, target, Some(48_000 * 512), Some(24_000_000)),
    )
    .unwrap();
    let not_less = pll_setup(
        PllId::Pll2,
        16_000_000,
        &request(PllConfigStrategy::FractionalNotLess, target, Some(48_000 * 512), Some(24_000_000)),
    )
    .unwrap();
    let fs = frac.settings.unwrap();
    let ns = not_less.settings.unwrap();
    assert_eq!((fs.m, fs.n, fs.fracn, fs.p), (5, 261, 983, 68));
    assert_eq!((ns.m, ns.n, ns.fracn, ns.p), (5, 261, 984, 68));
    assert_eq!(fs.vco_ck, 835_583_984);
    assert_eq!(ns.vco_ck, 835_584_375);
    let fp = frac.p_ck.unwrap();
    let np = not_less.p_ck.unwrap();
    assert!(fp <= target);
    assert!(np >= target);
    assert!(np > fp);
    assert!(((target - fp) as u64) * 500_000 < target as u64);
    assert!(((np - target) as u64) * 500_000 < target as u64);
    assert_eq!(frac.q_ck, Some(24_575_999));
    assert_eq!(frac.r_ck, Some(23_873_828));
    assert_eq!(not_less.q_ck, Some(24_576_011));
    assert_eq!(not_less.r_ck, Some(24_576_011));
}

#[test]
fn reference_stays_in_band_for_many_sources() {
    let strategies = [
        PllConfigStrategy::Normal,
        PllConfigStrategy::Iterative,
        PllConfigStrategy::Fractional,
        PllConfigStrategy::FractionalNotLess,
    ];
    let mut src = 2_000_000u32;
    while src <= 120_000_000 {
        for s in strategies.iter() {
            let (lo, hi) = if *s == PllConfigStrategy::Normal {
                (1_000_000, 2_000_000)
            } else {
                (2_000_000, 16_000_000)
            };
            if let Ok(out) = pll_setup(PllId::Pll3, src, &request(*s, 100_000_000, None, None)) {
                let st = out.settings.unwrap();
                assert!(st.ref_ck >= lo && st.ref_ck <= hi);
                assert!(src as u64 <= st.m as u64 * hi as u64);
                assert!(src as u64 >= st.m as u64 * lo as u64);
            }
        }
        src += 1_234_567;
    }
}

#[test]
fn normal_picks_the_highest_reference() {
    let out = pll_setup(
        PllId::Pll2,
        25_000_000,
        &request(PllConfigStrategy::Normal, 200_000_000, None, None),
    )
    .unwrap();
    let st = out.settings.unwrap();
    // m = 12 would give 2.08 MHz, over the band
    assert_eq!(st.m, 13);
    assert_eq!(st.ref_ck, 1_923_076);
}

#[test]
fn pll1_p_divider_is_one_or_even() {
    // 836 MHz / 70 MHz allows 11; PLL1 takes 10, PLL2 takes 11
    let cfg = request(PllConfigStrategy::Iterative, 70_000_000, None, None);
    let p1 = pll_setup(PllId::Pll1, 25_000_000, &cfg).unwrap().settings.unwrap();
    let p2 = pll_setup(PllId::Pll2, 25_000_000, &cfg).unwrap().settings.unwrap();
    assert_eq!(p1.p, 10);
    assert_eq!(p2.p, 11);
}

#[test]
fn disabled_pll_has_no_outputs() {
    let out = pll_setup(PllId::Pll1, 25_000_000, &PllConfig::default()).unwrap();
    assert!(out.settings.is_none());
    assert_eq!((out.p_ck, out.q_ck, out.r_ck), (None, None, None));
}

#[test]
fn q_and_r_within_one_percent() {
    let cfg = request(PllConfigStrategy::Normal, 242_000_000, Some(120_900_000), Some(30_200_000));
    let out = pll_setup(PllId::Pll2, 25_000_000, &cfg).unwrap();
    let q = out.q_ck.unwrap() as i64;
    let r = out.r_ck.unwrap() as i64;
    assert!((q - 120_900_000).abs() * 100 < 120_900_000);
    assert!((r - 30_200_000).abs() * 100 < 30_200_000);
    let st = out.settings.unwrap();
    assert_eq!(st.vco_ck, 240_384_500);
    assert_eq!(st.q, Some(2));
    assert_eq!(st.r, Some(8));
}

#[test]
fn ck_div_rounding() {
    // 100 / 3 is 3.3 off 30, 100 / 4 is 5 off: the closest wins
    assert_eq!(calc_ck_div(PllConfigStrategy::Normal, 100, 30), 3);
    assert_eq!(calc_ck_div(PllConfigStrategy::Iterative, 100, 30), 3);
    // 100 / 2 is 5 off 45, 100 / 3 is 11.7 off
    assert_eq!(calc_ck_div(PllConfigStrategy::Normal, 100, 45), 2);
    // equally close (24 and 16 around 20): the lower divider
    assert_eq!(calc_ck_div(PllConfigStrategy::Normal, 48, 20), 2);
    // kept within 1..=128
    assert_eq!(calc_ck_div(PllConfigStrategy::Normal, 257, 2), 128);
    assert_eq!(calc_ck_div(PllConfigStrategy::Normal, 10, 30), 1);
    // the fractional strategies keep to their side of the target
    assert_eq!(calc_ck_div(PllConfigStrategy::Fractional, 257, 2), 128);
    assert_eq!(calc_ck_div(PllConfigStrategy::Fractional, 256, 2), 128);
    assert_eq!(calc_ck_div(PllConfigStrategy::FractionalNotLess, 10, 30), 1);
    assert_eq!(calc_ck_div(PllConfigStrategy::FractionalNotLess, 257, 2), 128);
    assert_eq!(calc_ck_div(PllConfigStrategy::Fractional, 100, 30), 4);
    assert_eq!(calc_ck_div(PllConfigStrategy::FractionalNotLess, 100, 30), 3);
    assert_eq!(calc_ck_div(PllConfigStrategy::FractionalNotLess, 120, 30), 4);
    assert_eq!(calc_ck_div(PllConfigStrategy::Iterative, 120, 30), 4);
}

#[test]
fn vco_and_fracn_values() {
    assert_eq!(calc_vco_ck(3_200_000, 261, 983), 835_583_984);
    assert_eq!(calc_vco_ck(5_000_000, 144, 0), 720_000_000);
    assert_eq!(calc_fracn(3_200_000, 261, 68, 12_288_000), 983);
    assert_eq!(calc_fracn(5_000_000, 144, 3, 240_000_000), 0);
}

#[test]
fn error_output_unreachable() {
    let zero = request(PllConfigStrategy::Normal, 0, None, None);
    assert_eq!(pll_setup(PllId::Pll2, 25_000_000, &zero), Err(PllError::OutputUnreachable));
    let too_fast = request(PllConfigStrategy::Normal, 900_000_000, None, None);
    assert_eq!(pll_setup(PllId::Pll2, 25_000_000, &too_fast), Err(PllError::OutputUnreachable));
    let too_slow = request(PllConfigStrategy::Iterative, 1_000_000, None, None);
    assert_eq!(pll_setup(PllId::Pll2, 25_000_000, &too_slow), Err(PllError::OutputUnreachable));
}

#[test]
fn error_no_reference_divider() {
    let cfg = request(PllConfigStrategy::Normal, 200_000_000, None, None);
    assert_eq!(pll_setup(PllId::Pll2, 500_000, &cfg), Err(PllError::NoReferenceDivider));
    assert_eq!(pll_setup(PllId::Pll2, 0, &cfg), Err(PllError::NoReferenceDivider));
    let wide = request(PllConfigStrategy::Iterative, 200_000_000, None, None);
    assert_eq!(pll_setup(PllId::Pll2, 1_500_000, &wide), Err(PllError::NoReferenceDivider));
    assert_eq!(pll_setup(PllId::Pll2, 1_100_000_000, &wide), Err(PllError::NoReferenceDivider));
}

#[test]
fn error_vco_out_of_range() {
    // 128 x 1.18 MHz = 151 MHz, but 78 x 1.923076 MHz is under 150 MHz
    let low = request(PllConfigStrategy::Normal, 1_180_000, None, None);
    assert_eq!(pll_setup(PllId::Pll2, 25_000_000, &low), Err(PllError::VcoOutOfRange));
    // Exactly the top of the band, pushed over it by one fractional unit
    let high = request(PllConfigStrategy::FractionalNotLess, 418_000_000, None, None);
    assert_eq!(pll_setup(PllId::Pll2, 16_000_000, &high), Err(PllError::VcoOutOfRange));
}

#[test]
fn error_tap_divider_out_of_range() {
    let zero_q = request(PllConfigStrategy::Normal, 200_000_000, Some(0), None);
    assert_eq!(pll_setup(PllId::Pll2, 25_000_000, &zero_q), Err(PllError::TapDividerOutOfRange));
    let slow_r = request(PllConfigStrategy::Fractional, 200_000_000, None, Some(1_000));
    assert_eq!(pll_setup(PllId::Pll2, 25_000_000, &slow_r), Err(PllError::TapDividerOutOfRange));
    let fast_q = request(PllConfigStrategy::FractionalNotLess, 200_000_000, Some(900_000_000), None);
    assert_eq!(pll_setup(PllId::Pll2, 25_000_000, &fast_q), Err(PllError::TapDividerOutOfRange));
}

#[test]
fn normal_uses_wide_band_above_medium_vco() {
    let out = pll_setup(
        PllId::Pll2,
        25_000_000,
        &request(PllConfigStrategy::Normal, 500_000_000, None, None),
    )
    .unwrap();
    let st = out.settings.unwrap();
    // the highest reference in the 2 to 16 MHz band
    assert_eq!(st.m, 2);
    assert_eq!(st.ref_ck, 12_500_000);
    assert_eq!(st.p, 1);
    assert_eq!(st.n, 40);
    assert_eq!(out.p_ck, Some(500_000_000));
}

#[test]
fn normal_taps_never_fail_on_small_targets() {
    // a 1 kHz R target takes the largest divider rather than failing
    let cfg = request(PllConfigStrategy::Normal, 200_000_000, None, Some(1_000));
    let out = pll_setup(PllId::Pll2, 25_000_000, &cfg).unwrap();
    assert_eq!(out.settings.unwrap().r, Some(128));
    assert_eq!(out.r_ck, Some(399_999_808 / 128));
}
