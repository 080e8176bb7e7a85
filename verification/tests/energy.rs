use boilert::config::BoilerConfig;
use boilert::energy::estimate;

fn params(volume_l: u64, reference_milli: i64, coefficient_milli: u64) -> BoilerConfig {
    BoilerConfig {
        volume_l,
        reference_temp_milli_c: reference_milli,
        energy_coefficient_milli: coefficient_milli,
    }
}

#[test]
fn empty_readings_give_zero_energy() {
    assert_eq!(estimate(&vec![], &params(100, 20_000, 1_162)), 0);
    assert_eq!(estimate(&vec![], &params(1_000_000, -1_000_000, 1_000_000)), 0);
    assert_eq!(estimate(&vec![], &params(0, 0, 0)), 0);
}

#[test]
fn reference_example_yields_581_watt_hours() {
    // Average of 20 and 30 degrees is 25, excess over the 20-degree
    // reference is 5 K; 100 l * 5 K * 1.162 Wh/(l K) / 1000 = 0.581 kWh.
    let e = estimate(&vec![20_000, 30_000], &params(100, 20_000, 1_162));
    assert_eq!(e, 581_000); // microkilowatt-hours
}

#[test]
fn negative_excess_clamps_to_zero() {
    let e = estimate(&vec![10_000], &params(100, 20_000, 1_162));
    assert_eq!(e, 0);
}

#[test]
fn single_reading_above_reference() {
    // 1000 l * 10 K * 1.162 Wh/(l K) / 1000 = 11.62 kWh.
    let e = estimate(&vec![30_000], &params(1_000, 20_000, 1_162));
    assert_eq!(e, 11_620_000);
}

#[test]
fn excess_exactly_zero_gives_zero() {
    let e = estimate(&vec![20_000], &params(100, 20_000, 1_162));
    assert_eq!(e, 0);
}

#[test]
fn uneven_average_floors() {
    // Readings 20 and 21 degrees against a 20-degree reference: the excess
    // is 0.5 K; 100 l * 0.5 K * 1.162 / 1000 = 0.0581 kWh exactly.
    let e = estimate(&vec![20_000, 21_000], &params(100, 20_000, 1_162));
    assert_eq!(e, 58_100);
}
