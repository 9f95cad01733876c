use rstherac25::simulator::meos_from_picks;
use rstherac25::text::{compose3, digit_str, tenths_to_string, u64_to_string};
use rstherac25::{BeamEnergy, BeamType, CollimatorPosition};

#[test]
fn decimal_rendering() {
    assert_eq!(u64_to_string(0), "0");
    assert_eq!(u64_to_string(7), "7");
    assert_eq!(u64_to_string(10), "10");
    assert_eq!(u64_to_string(105), "105");
    assert_eq!(u64_to_string(98765), "98765");
    assert_eq!(u64_to_string(u64::MAX), "18446744073709551615");
}

#[test]
fn fixed_point_rendering() {
    assert_eq!(tenths_to_string(0), "0.0");
    assert_eq!(tenths_to_string(1), "0.1");
    assert_eq!(tenths_to_string(80), "8.0");
    assert_eq!(tenths_to_string(1855), "185.5");
    assert_eq!(tenths_to_string(2000), "200.0");
}

#[test]
fn digit_and_compose() {
    assert_eq!(digit_str(0), "0");
    assert_eq!(digit_str(9), "9");
    assert_eq!(compose3("a", "b", "c"), "abc");
    assert_eq!(compose3("", "x", ""), "x");
}

#[test]
fn configurations_from_picks() {
    let m = meos_from_picks(0, 4);
    assert_eq!(m.beam_type, BeamType::XRay);
    assert_eq!(m.beam_energy, BeamEnergy::E25);
    assert_eq!(m.collimator, CollimatorPosition::InPosition);
    let m = meos_from_picks(1, 0);
    assert_eq!(m.beam_type, BeamType::Electron);
    assert_eq!(m.beam_energy, BeamEnergy::E5);
    assert_eq!(m.collimator, CollimatorPosition::OutOfPosition);
    for beam in 0..2 {
        for energy in 0..5 {
            assert!(meos_from_picks(beam, energy).is_safe());
        }
    }
}
