use cantact::error::Error;
use cantact::timing::{calculate_bit_timing, effective_bitrate};
use cantact::wire::BitTiming;

fn timing(brp: u32, phase_seg1: u32, phase_seg2: u32) -> BitTiming {
    BitTiming { prop_seg: 0, phase_seg1, phase_seg2, sjw: 1, brp }
}

#[test]
fn test_bit_timing() {
    let clk = 24000000;
    let bitrates = vec![
        4_000_000, 3_000_000, 2_400_000, 2_000_000, 1_000_000, 500_000, 250_000, 125_000, 33_333,
    ];
    for b in bitrates {
        let bt = calculate_bit_timing(clk, b).unwrap();

        // ensure error < 0.5%
        println!("{:?}", &bt);
        let err = 100.0 * (1.0 - (effective_bitrate(clk, bt) as f32 / b as f32).abs());
        println!("{:?}", err);
        assert!(err < 0.5);
    }
}

#[test]
fn exact_rates_on_a_24_mhz_clock() {
    let clk = 24_000_000;
    assert_eq!(calculate_bit_timing(clk, 4_000_000), Ok(timing(1, 3, 2)));
    assert_eq!(calculate_bit_timing(clk, 3_000_000), Ok(timing(1, 3, 4)));
    assert_eq!(calculate_bit_timing(clk, 2_400_000), Ok(timing(1, 3, 6)));
    assert_eq!(calculate_bit_timing(clk, 2_000_000), Ok(timing(1, 3, 8)));
    assert_eq!(calculate_bit_timing(clk, 1_000_000), Ok(timing(1, 15, 8)));
    assert_eq!(calculate_bit_timing(clk, 500_000), Ok(timing(2, 15, 8)));
    assert_eq!(calculate_bit_timing(clk, 250_000), Ok(timing(4, 15, 8)));
    assert_eq!(calculate_bit_timing(clk, 125_000), Ok(timing(8, 15, 8)));
}

#[test]
fn exact_solution_gives_exactly_the_requested_rate() {
    let clk = 24_000_000;
    for b in [4_000_000u32, 2_000_000, 1_000_000, 500_000, 250_000, 125_000, 50_000] {
        let bt = calculate_bit_timing(clk, b).unwrap();
        assert_eq!(effective_bitrate(clk, bt), b);
        assert_eq!(clk, b * bt.brp * (bt.prop_seg + bt.phase_seg1 + bt.phase_seg2 + 1));
    }
    let bt = calculate_bit_timing(48_000_000, 1_000_000).unwrap();
    assert_eq!(bt, timing(2, 15, 8));
    assert_eq!(effective_bitrate(48_000_000, bt), 1_000_000);
}

#[test]
fn smallest_prescaler_and_shortest_segment_win() {
    // 80 quanta per bit at prescaler 1: prescalers 1 to 3 leave more than 26 quanta,
    // prescaler 4 leaves 20, which phase segment 1 = 11 is the first to fit
    assert_eq!(calculate_bit_timing(8_000_000, 100_000), Ok(timing(4, 11, 8)));
    // 6 quanta per bit: only 3 + 2 + 1 fits
    assert_eq!(calculate_bit_timing(6_000_000, 1_000_000), Ok(timing(1, 3, 2)));
    // 26 quanta per bit: only 17 + 8 + 1 fits
    assert_eq!(calculate_bit_timing(26_000_000, 1_000_000), Ok(timing(1, 17, 8)));
}

#[test]
fn inexact_rate_is_found_at_a_tenth_of_a_percent() {
    // 24 MHz / 33 333 = 720.007...; prescaler 30 leaves 24.0002 quanta
    let bt = calculate_bit_timing(24_000_000, 33_333).unwrap();
    assert_eq!(bt, timing(30, 15, 8));
    assert_eq!(effective_bitrate(24_000_000, bt), 33_333);
}

#[test]
fn inexact_rate_is_found_at_half_a_percent() {
    // 24.072 quanta at prescaler 1: 0.3 % off 24
    let bt = calculate_bit_timing(24_000_000, 997_009).unwrap();
    assert_eq!(bt, timing(1, 15, 8));
    assert_eq!(effective_bitrate(24_000_000, bt), 1_000_000);
}

#[test]
fn rate_that_is_off_by_more_than_half_a_percent_is_refused() {
    // 24.2 quanta at prescaler 1, and 0.83 % off at every prescaler that divides 24
    assert_eq!(calculate_bit_timing(24_000_000, 991_736), Err(Error::InvalidBitrate(991_736)));
}

#[test]
fn tolerance_is_measured_against_the_rounded_bit_time() {
    // 20.1 quanta at prescaler 1: exactly 0.5 % more than 20, which is still accepted
    let bt = calculate_bit_timing(2_010_000, 100_000).unwrap();
    assert_eq!(bt, timing(1, 11, 8));
    // one step further off is refused at every prescaler
    assert_eq!(calculate_bit_timing(2_011_000, 100_000), Err(Error::InvalidBitrate(100_000)));
}

#[test]
fn rates_out_of_reach_are_refused() {
    assert_eq!(calculate_bit_timing(24_000_000, 0), Err(Error::InvalidBitrate(0)));
    assert_eq!(calculate_bit_timing(0, 0), Err(Error::InvalidBitrate(0)));
    assert_eq!(calculate_bit_timing(0, 500_000), Err(Error::InvalidBitrate(500_000)));
    // fewer than 6 quanta per bit at every prescaler
    assert_eq!(calculate_bit_timing(24_000_000, 10_000_000), Err(Error::InvalidBitrate(10_000_000)));
    // more than 26 quanta per bit at every prescaler
    assert_eq!(calculate_bit_timing(24_000_000, 1_000), Err(Error::InvalidBitrate(1_000)));
    assert_eq!(
        calculate_bit_timing(u32::MAX, u32::MAX / 1000),
        Err(Error::InvalidBitrate(u32::MAX / 1000))
    );
    assert_eq!(calculate_bit_timing(u32::MAX, 1), Err(Error::InvalidBitrate(1)));
}

#[test]
fn every_result_keeps_the_registers_in_range() {
    let clocks = [8_000_000u32, 16_000_000, 24_000_000, 40_000_000, 48_000_000, 80_000_000];
    let mut found = 0;
    for clk in clocks {
        let mut b: u32 = 10_000;
        while b <= 5_000_000 {
            if let Ok(bt) = calculate_bit_timing(clk, b) {
                found += 1;
                assert!(1 <= bt.brp && bt.brp <= 32);
                assert_eq!(bt.prop_seg, 0);
                assert_eq!(bt.sjw, 1);
                assert!(3 <= bt.phase_seg1 && bt.phase_seg1 < 18);
                assert!(2 <= bt.phase_seg2 && bt.phase_seg2 <= 8);
                let eff = effective_bitrate(clk, bt) as u64;
                assert!(1000 * eff <= 1005 * b as u64);
                assert!(995 * (b as u64) < 1000 * (eff + 1));
            }
            b += 7_919;
        }
    }
    assert!(found > 0);
}

#[test]
fn effective_bitrate_rounds_down() {
    assert_eq!(effective_bitrate(24_000_000, timing(2, 15, 8)), 500_000);
    assert_eq!(effective_bitrate(24_000_000, timing(30, 15, 8)), 33_333);
    assert_eq!(effective_bitrate(10, timing(3, 1, 0)), 1);
    assert_eq!(
        effective_bitrate(
            1_000,
            BitTiming { prop_seg: 1, phase_seg1: 2, phase_seg2: 3, sjw: 4, brp: 7 }
        ),
        20
    );
}
