use rstherac25::{BeamEnergy, BeamType, CollimatorPosition, Meos};
use rstherac25::simulator::generate_race_condition_parameters;

#[test]
fn test_meos_safety() {
    let xray_safe = Meos {
        beam_type: BeamType::XRay,
        beam_energy: BeamEnergy::E10,
        collimator: CollimatorPosition::InPosition,
    };
    assert!(xray_safe.is_safe());

    let xray_unsafe = Meos {
        beam_type: BeamType::XRay,
        beam_energy: BeamEnergy::E25,
        collimator: CollimatorPosition::OutOfPosition,
    };
    assert!(!xray_unsafe.is_safe());

    let electron_safe = Meos {
        beam_type: BeamType::Electron,
        beam_energy: BeamEnergy::E15,
        collimator: CollimatorPosition::OutOfPosition,
    };
    assert!(electron_safe.is_safe());
}

#[test]
fn test_collimator_sync_needed() {
    let needs_sync = Meos {
        beam_type: BeamType::XRay,
        beam_energy: BeamEnergy::E10,
        collimator: CollimatorPosition::OutOfPosition,
    };
    assert!(needs_sync.needs_collimator_sync());
}

fn meos(beam_type: BeamType, collimator: CollimatorPosition) -> Meos {
    Meos { beam_type, beam_energy: BeamEnergy::E10, collimator }
}

#[test]
fn safety_truth_table() {
    for &energy in &[BeamEnergy::E5, BeamEnergy::E10, BeamEnergy::E15, BeamEnergy::E20, BeamEnergy::E25] {
        for &(beam_type, collimator, expected) in &[
            (BeamType::XRay, CollimatorPosition::InPosition, true),
            (BeamType::XRay, CollimatorPosition::OutOfPosition, false),
            (BeamType::XRay, CollimatorPosition::Transitioning, false),
            (BeamType::Electron, CollimatorPosition::InPosition, false),
            (BeamType::Electron, CollimatorPosition::OutOfPosition, true),
            (BeamType::Electron, CollimatorPosition::Transitioning, false),
            (BeamType::Undefined, CollimatorPosition::InPosition, false),
            (BeamType::Undefined, CollimatorPosition::OutOfPosition, false),
            (BeamType::Undefined, CollimatorPosition::Transitioning, false),
        ] {
            let m = Meos { beam_type, beam_energy: energy, collimator };
            assert_eq!(m.is_safe(), expected, "{:?}", m);
        }
    }
}

#[test]
fn sync_needed_iff_unsafe_and_settled() {
    for &beam_type in &[BeamType::XRay, BeamType::Electron, BeamType::Undefined] {
        for &collimator in &[
            CollimatorPosition::InPosition,
            CollimatorPosition::OutOfPosition,
            CollimatorPosition::Transitioning,
        ] {
            let m = meos(beam_type, collimator);
            let expected = !m.is_safe() && collimator != CollimatorPosition::Transitioning;
            assert_eq!(m.needs_collimator_sync(), expected, "{:?}", m);
        }
    }
}

#[test]
fn transitioning_collimator_needs_no_sync() {
    let m = meos(BeamType::XRay, CollimatorPosition::Transitioning);
    assert!(!m.is_safe());
    assert!(!m.needs_collimator_sync());
}

#[test]
fn race_trigger_flips_beam_and_keeps_collimator() {
    let current = Meos {
        beam_type: BeamType::XRay,
        beam_energy: BeamEnergy::E25,
        collimator: CollimatorPosition::InPosition,
    };
    let flipped = generate_race_condition_parameters(current);
    assert_eq!(flipped.beam_type, BeamType::Electron);
    assert_eq!(flipped.beam_energy, BeamEnergy::E25);
    assert_eq!(flipped.collimator, CollimatorPosition::InPosition);
    assert!(!flipped.is_safe());
}

#[test]
fn race_trigger_on_safe_config_is_always_unsafe() {
    for &beam_type in &[BeamType::XRay, BeamType::Electron] {
        for &collimator in &[
            CollimatorPosition::InPosition,
            CollimatorPosition::OutOfPosition,
            CollimatorPosition::Transitioning,
        ] {
            let m = meos(beam_type, collimator);
            if m.is_safe() {
                assert!(!generate_race_condition_parameters(m).is_safe(), "{:?}", m);
            }
        }
    }
}

#[test]
fn race_trigger_on_undefined_beam() {
    let m = meos(BeamType::Undefined, CollimatorPosition::OutOfPosition);
    let flipped = generate_race_condition_parameters(m);
    assert_eq!(flipped.beam_type, BeamType::Electron);
    assert_eq!(flipped.collimator, CollimatorPosition::OutOfPosition);
}

#[test]
fn default_configuration_is_undefined_and_unsafe() {
    let m = Meos::default();
    assert_eq!(m.beam_type, BeamType::Undefined);
    assert_eq!(m.beam_energy, BeamEnergy::E10);
    assert_eq!(m.collimator, CollimatorPosition::OutOfPosition);
    assert!(!m.is_safe());
    assert!(m.needs_collimator_sync());
}
