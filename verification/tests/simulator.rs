use rstherac25::simulator::{
    begin_collimator_sync, beam_snapshot, calculate_dose, complete_data_entry, dose_multiplier,
    draw_reliability_sample, finish_collimator_sync, generate_random_parameters,
    handle_data_entry, handle_datetime_changes, handle_reset, handle_setup_test,
    handle_terminate_treatment, needs_hardware_sync, params_need_sync, resume_treatment,
    start_treatment, stop_treatment, sync_hardware_params, update_console_meos, zap_the_specimen,
};
use rstherac25::{
    BeamEnergy, BeamType, CollimatorPosition, Meos, TPhase, TheracState, TreatmentParams,
};

fn safe_xray25() -> Meos {
    Meos {
        beam_type: BeamType::XRay,
        beam_energy: BeamEnergy::E25,
        collimator: CollimatorPosition::InPosition,
    }
}

fn treating_state() -> TheracState {
    let mut s = TheracState::new();
    s.phase = TPhase::PatientTreatment;
    s.console_meos = safe_xray25();
    s.hardware_meos = safe_xray25();
    s.dose_target = 2000;
    s
}

#[test]
fn dose_table_exact_values() {
    // Electron doses: 2.0, 4.0, 6.0, 8.0, 10.0 cGy in tenths.
    for &(energy, electron, xray) in &[
        (BeamEnergy::E5, 20, 16),
        (BeamEnergy::E10, 40, 32),
        (BeamEnergy::E15, 60, 48),
        (BeamEnergy::E20, 80, 64),
        (BeamEnergy::E25, 100, 80),
    ] {
        let e = Meos {
            beam_type: BeamType::Electron,
            beam_energy: energy,
            collimator: CollimatorPosition::OutOfPosition,
        };
        let x = Meos {
            beam_type: BeamType::XRay,
            beam_energy: energy,
            collimator: CollimatorPosition::InPosition,
        };
        let u = Meos {
            beam_type: BeamType::Undefined,
            beam_energy: energy,
            collimator: CollimatorPosition::OutOfPosition,
        };
        assert_eq!(calculate_dose(&e), electron);
        assert_eq!(calculate_dose(&x), xray);
        assert_eq!(calculate_dose(&u), 0);
    }
}

#[test]
fn unsafe_fire_multipliers() {
    let xray_no_filter = Meos {
        beam_type: BeamType::XRay,
        beam_energy: BeamEnergy::E25,
        collimator: CollimatorPosition::OutOfPosition,
    };
    let electron_with_filter = Meos {
        beam_type: BeamType::Electron,
        beam_energy: BeamEnergy::E25,
        collimator: CollimatorPosition::InPosition,
    };
    let xray_transitioning = Meos {
        beam_type: BeamType::XRay,
        beam_energy: BeamEnergy::E25,
        collimator: CollimatorPosition::Transitioning,
    };
    // 100x, 0.1x and 1x, in tenths.
    assert_eq!(dose_multiplier(&xray_no_filter), 1000);
    assert_eq!(dose_multiplier(&electron_with_filter), 1);
    assert_eq!(dose_multiplier(&xray_transitioning), 10);
}

#[test]
fn setup_test_reaches_setup_done_after_eleven_ticks() {
    let mut s = TheracState::new();
    s.phase = TPhase::SetupTest;
    s.class3 = 0;
    for tick in 1..=10u32 {
        handle_setup_test(&mut s);
        assert_eq!(s.phase, TPhase::SetupTest, "still testing after tick {}", tick);
        assert_eq!(s.class3 as u32, tick);
    }
    handle_setup_test(&mut s);
    assert_eq!(s.class3, 11);
    assert_eq!(s.phase, TPhase::SetupDone);
    assert!(s.log.last().unwrap().ends_with("Setup test complete"));
}

#[test]
fn normal_pulses_accumulate_to_target_then_terminate() {
    let mut s = treating_state();
    // E25 X-ray delivers 8.0 cGy a pulse; 200.0 cGy needs 25 pulses.
    for pulse in 1..=24u64 {
        let (console, hardware) = beam_snapshot(&s);
        zap_the_specimen(&mut s, console, hardware, 12);
        assert_eq!(s.phase, TPhase::PatientTreatment, "pulse {}", pulse);
        assert_eq!(s.dose_delivered, 80 * pulse);
        assert_eq!(s.malfunction_count, 0);
    }
    let (console, hardware) = beam_snapshot(&s);
    zap_the_specimen(&mut s, console, hardware, 12);
    assert_eq!(s.dose_delivered, 2000);
    assert_eq!(s.phase, TPhase::TerminateTreatment);
    assert!(s.log.last().unwrap().ends_with("Target dose reached"));
    let n = s.log.len();
    assert!(s.log[n - 2].ends_with("Beam delivered: 8.0 cGy (total: 200.0/200.0 cGy)"));
}

#[test]
fn dose_never_decreases_across_deliveries() {
    let mut s = treating_state();
    let mut previous = s.dose_delivered;
    let samples = [12u64, 30, 12, 53, 23, 12, 22];
    for &sample in &samples {
        let (console, hardware) = beam_snapshot(&s);
        s.phase = TPhase::PatientTreatment;
        zap_the_specimen(&mut s, console, hardware, sample);
        assert!(s.dose_delivered >= previous);
        previous = s.dose_delivered;
    }
}

#[test]
fn stale_snapshot_mismatch_pauses_without_dose() {
    let mut s = treating_state();
    let (console, hardware) = beam_snapshot(&s);
    // The console flips after the snapshot was taken: the stale pair no
    // longer matches once re-read.
    let flipped = Meos { beam_type: BeamType::Electron, ..console };
    zap_the_specimen(&mut s, flipped, hardware, 12);
    assert_eq!(s.phase, TPhase::PauseTreatment);
    assert_eq!(s.malfunction_count, 1);
    assert_eq!(s.dose_delivered, 0);
    let message = s.last_malfunction.clone().unwrap();
    assert_eq!(
        message,
        "MALFUNCTION 54 - Parameter mismatch (occurrence #1) - Console: Electron/In Position, \
         Hardware: X-Ray/In Position"
    );
    assert!(s.log.last().unwrap().ends_with(&message));
}

#[test]
fn race_window_overdose_fires_hundredfold() {
    let mut s = treating_state();
    // Snapshot taken while console and hardware still agree ...
    let (console, hardware) = beam_snapshot(&s);
    // ... then, inside the race window, the housekeeper moves the
    // collimator out for a console that switched to electron mode.
    s.hardware_meos.collimator = CollimatorPosition::OutOfPosition;
    zap_the_specimen(&mut s, console, hardware, 12);
    // The stale pair still matches, so the beam fires: X-ray without the
    // flatness filter, 100x of 8.0 cGy in one pulse.
    assert_eq!(s.phase, TPhase::PauseTreatment);
    assert_eq!(s.malfunction_count, 1);
    assert_eq!(s.dose_delivered, 8000);
    let message = s.last_malfunction.clone().unwrap();
    assert_eq!(
        message,
        "CRITICAL SAFETY VIOLATION! Beam fired with unsafe configuration! Dose multiplier: \
         100.0x - Delivered 800.0 cGy this pulse (total: 800.0/200.0 cGy)"
    );
}

#[test]
fn race_window_underdose_with_filter_in_path() {
    let mut s = treating_state();
    s.console_meos = Meos { beam_type: BeamType::Electron, ..safe_xray25() };
    s.hardware_meos = Meos { beam_type: BeamType::Electron, ..safe_xray25() };
    let (console, hardware) = beam_snapshot(&s);
    zap_the_specimen(&mut s, console, hardware, 12);
    // Electron beam with the filter still in position: 0.1x of 10.0 cGy.
    assert_eq!(s.phase, TPhase::PauseTreatment);
    assert_eq!(s.dose_delivered, 10);
    assert!(s.last_malfunction.unwrap().contains("Dose multiplier: 0.1x"));
}

#[test]
fn transitioning_collimator_fires_at_nominal_dose() {
    let mut s = treating_state();
    // Matching snapshot first; the collimator starts moving inside the
    // race window.
    let (console, hardware) = beam_snapshot(&s);
    s.hardware_meos.collimator = CollimatorPosition::Transitioning;
    zap_the_specimen(&mut s, console, hardware, 12);
    assert_eq!(s.phase, TPhase::PauseTreatment);
    assert_eq!(s.dose_delivered, 80);
    assert!(s.last_malfunction.unwrap().contains("Dose multiplier: 1.0x"));
}

#[test]
fn high_reliability_sample_is_a_random_fault() {
    let mut s = treating_state();
    let (console, hardware) = beam_snapshot(&s);
    zap_the_specimen(&mut s, console, hardware, 23);
    assert_eq!(s.phase, TPhase::PauseTreatment);
    assert_eq!(s.malfunction_count, 1);
    assert_eq!(s.dose_delivered, 0);
    assert_eq!(
        s.last_malfunction.unwrap(),
        "MALFUNCTION 23 - Random hardware fault"
    );
}

#[test]
fn reliability_sample_stays_in_range() {
    for _ in 0..200 {
        let sample = draw_reliability_sample();
        assert!((12..=53).contains(&sample));
    }
}

#[test]
fn monitor_phase_transitions() {
    let mut s = TheracState::new();
    handle_reset(&mut s);
    assert_eq!(s.phase, TPhase::DataEntry);
    assert!(s.log.last().unwrap().ends_with("Entering data entry mode"));

    // Without completed data entry nothing moves.
    handle_data_entry(&mut s);
    assert_eq!(s.phase, TPhase::DataEntry);

    complete_data_entry(&mut s);
    assert!(s.data_entry_complete);
    assert!(s.log.last().unwrap().ends_with("Data entry complete - hardware sync pending"));
    handle_data_entry(&mut s);
    assert_eq!(s.phase, TPhase::SetupTest);
    assert_eq!(s.class3, 0);

    s.phase = TPhase::DateTimeIdChanges;
    handle_datetime_changes(&mut s);
    assert_eq!(s.phase, TPhase::DataEntry);
}

#[test]
fn terminate_logs_summary_and_loops_back_to_reset() {
    let mut s = TheracState::new();
    s.phase = TPhase::TerminateTreatment;
    s.dose_delivered = 2004;
    s.dose_target = 2000;
    handle_terminate_treatment(&mut s);
    assert_eq!(s.phase, TPhase::Reset);
    assert!(s
        .log
        .last()
        .unwrap()
        .ends_with("Treatment terminated. Dose delivered: 200.4/200.0 cGy"));
}

#[test]
fn treatment_commands_respect_phases() {
    let mut s = TheracState::new();

    // start_treatment is ignored unless setup is done, but the refusal is
    // still logged.
    start_treatment(&mut s);
    assert_eq!(s.phase, TPhase::Reset);
    assert!(s.log.last().unwrap().ends_with("Cannot start treatment - setup not complete"));
    s.phase = TPhase::SetupDone;
    start_treatment(&mut s);
    assert_eq!(s.phase, TPhase::PatientTreatment);
    assert!(s.log.last().unwrap().ends_with("Starting patient treatment"));

    stop_treatment(&mut s);
    assert_eq!(s.phase, TPhase::PauseTreatment);
    assert!(s.log.last().unwrap().ends_with("Treatment paused by operator"));

    // stop is ignored while already paused, except for the log entry.
    stop_treatment(&mut s);
    assert_eq!(s.phase, TPhase::PauseTreatment);
    assert!(s.log.last().unwrap().ends_with("Cannot stop treatment - no treatment in progress"));

    s.last_malfunction = Some(String::from("MALFUNCTION 30 - Random hardware fault"));
    resume_treatment(&mut s);
    assert_eq!(s.phase, TPhase::PatientTreatment);
    assert!(s.last_malfunction.is_none());
    assert!(s.log.last().unwrap().ends_with("Treatment resumed"));

    // resume is ignored when not paused, except for the log entry.
    resume_treatment(&mut s);
    assert_eq!(s.phase, TPhase::PatientTreatment);
    assert!(s.log.last().unwrap().ends_with("Cannot resume treatment - not paused"));

    // complete_data_entry is ignored outside data entry, except for the
    // log entry; no other field changes.
    let entries = s.log.len();
    complete_data_entry(&mut s);
    assert!(!s.data_entry_complete);
    assert_eq!(s.log.len(), entries + 1);
    assert!(s
        .log
        .last()
        .unwrap()
        .ends_with("Cannot complete data entry - not in data entry phase"));
}

#[test]
fn console_update_allowed_in_data_entry_and_setup_test() {
    let mut s = TheracState::new();
    let m = safe_xray25();
    update_console_meos(&mut s, m);
    assert_eq!(s.console_meos, Meos::default(), "ignored during reset");
    assert!(s.log.last().unwrap().ends_with("Console update ignored - not accepting input"));
    s.phase = TPhase::DataEntry;
    update_console_meos(&mut s, m);
    assert_eq!(s.console_meos, m);
    assert!(s
        .log
        .last()
        .unwrap()
        .ends_with("Console updated: X-Ray @ 25 MeV with collimator In Position"));
    s.phase = TPhase::SetupTest;
    let flipped = Meos { beam_type: BeamType::Electron, ..m };
    update_console_meos(&mut s, flipped);
    assert_eq!(s.console_meos, flipped);
}

#[test]
fn housekeeper_sync_cycle() {
    let mut s = TheracState::new();
    s.phase = TPhase::DataEntry;
    s.console_meos = Meos {
        beam_type: BeamType::XRay,
        beam_energy: BeamEnergy::E25,
        collimator: CollimatorPosition::OutOfPosition,
    };
    assert!(needs_hardware_sync(&s));

    let planned = begin_collimator_sync(&mut s);
    assert_eq!(planned, BeamType::XRay);
    assert_eq!(s.hardware_meos.collimator, CollimatorPosition::Transitioning);
    assert!(s.log.last().unwrap().ends_with("Collimator moving..."));

    // A second begin while already transitioning changes nothing.
    let entries = s.log.len();
    let planned_again = begin_collimator_sync(&mut s);
    assert_eq!(planned_again, BeamType::XRay);
    assert_eq!(s.log.len(), entries);

    finish_collimator_sync(&mut s, planned);
    assert_eq!(s.hardware_meos.collimator, CollimatorPosition::InPosition);
    assert_eq!(s.hardware_meos.beam_type, BeamType::XRay);
    assert_eq!(s.hardware_meos.beam_energy, BeamEnergy::E25);
    assert!(s
        .log
        .last()
        .unwrap()
        .ends_with("Hardware synced: X-Ray @ 25 MeV with collimator In Position"));
    // The hardware collimator now matches the console beam type, so no
    // further synchronization is needed.
    assert!(!needs_hardware_sync(&s));
}

#[test]
fn housekeeper_finish_copies_current_console_not_the_plan() {
    let mut s = TheracState::new();
    s.phase = TPhase::DataEntry;
    s.console_meos = Meos {
        beam_type: BeamType::XRay,
        beam_energy: BeamEnergy::E25,
        collimator: CollimatorPosition::OutOfPosition,
    };
    let planned = begin_collimator_sync(&mut s);
    // The operator flips the console to electron mode during the
    // mechanical delay.
    s.console_meos.beam_type = BeamType::Electron;
    finish_collimator_sync(&mut s, planned);
    // The collimator followed the stale plan, the beam type the current
    // console: an unsafe combination.
    assert_eq!(s.hardware_meos.collimator, CollimatorPosition::InPosition);
    assert_eq!(s.hardware_meos.beam_type, BeamType::Electron);
    assert!(!s.hardware_meos.is_safe());
}

#[test]
fn housekeeper_skips_sync_during_treatment() {
    let mut s = TheracState::new();
    s.phase = TPhase::PatientTreatment;
    s.console_meos = Meos {
        beam_type: BeamType::XRay,
        beam_energy: BeamEnergy::E25,
        collimator: CollimatorPosition::OutOfPosition,
    };
    assert!(!needs_hardware_sync(&s));
    s.console_params.gantry_angle = 45;
    assert!(!params_need_sync(&s));
    s.phase = TPhase::PauseTreatment;
    assert!(needs_hardware_sync(&s));
    assert!(params_need_sync(&s));
}

#[test]
fn parameter_sync_copies_console_wholesale() {
    let mut s = TheracState::new();
    s.phase = TPhase::DataEntry;
    s.console_params = TreatmentParams {
        gantry_angle: 123,
        collimator_angle: 45,
        field_size_x: 18,
        field_size_y: 7,
        dose_rate: 140,
    };
    assert!(params_need_sync(&s));
    sync_hardware_params(&mut s);
    assert_eq!(s.hardware_params, s.console_params);
    assert!(!params_need_sync(&s));
}

#[test]
fn random_configurations_are_always_safe() {
    for _ in 0..100 {
        let m = generate_random_parameters();
        assert!(m.is_safe());
        assert_ne!(m.beam_type, BeamType::Undefined);
    }
}
