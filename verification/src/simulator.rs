//! Treatment state machine steps, hardware synchronization steps and the
//! beam delivery routine.
//!
//! The two background loops of a simulation run — the treatment monitor and
//! the housekeeper — are cooperative polling loops that sleep between
//! steps.  Every decision and every mutation of the shared state is a
//! function in this module with a full contract; the caller owns the
//! scheduling: it takes the snapshots, sleeps through the simulated
//! mechanical delays and the race window, and then commits.  That split
//! into separate critical sections is deliberate: it reproduces the
//! check-then-act defect under study, in which a configuration read and the
//! check acting on it are not atomic.

use vstd::prelude::*;

use crate::bounded_log_push;
use crate::entropy;
use crate::stamped_entry;
use crate::text;
use crate::BeamEnergy;
use crate::BeamType;
use crate::CollimatorPosition;
use crate::Meos;
use crate::TPhase;
use crate::TheracState;

verus! {

/// Fields a treatment monitor step leaves untouched: everything but the
/// phase machinery (`phase`, `class3`, `data_entry_complete`,
/// `editing_taking_place`), the malfunction record and the log.
pub open spec fn monitor_frame(a: TheracState, b: TheracState) -> bool {
    &&& a.console_meos == b.console_meos
    &&& a.hardware_meos == b.hardware_meos
    &&& a.reference_meos == b.reference_meos
    &&& a.console_params == b.console_params
    &&& a.hardware_params == b.hardware_params
    &&& a.reference_params == b.reference_params
    &&& a.f_small == b.f_small
    &&& a.bending_magnet_flag == b.bending_magnet_flag
    &&& a.reset_pending == b.reset_pending
    &&& a.class3_ignore == b.class3_ignore
    &&& a.dose_delivered == b.dose_delivered
    &&& a.dose_target == b.dose_target
    &&& a.reference_dose_target == b.reference_dose_target
    &&& a.treatment_outcome == b.treatment_outcome
}

/// Fields the beam delivery routine leaves untouched: everything but the
/// phase, the dose counter, the malfunction record and the log.
pub open spec fn beam_frame(a: TheracState, b: TheracState) -> bool {
    &&& a.console_meos == b.console_meos
    &&& a.hardware_meos == b.hardware_meos
    &&& a.reference_meos == b.reference_meos
    &&& a.console_params == b.console_params
    &&& a.hardware_params == b.hardware_params
    &&& a.reference_params == b.reference_params
    &&& a.data_entry_complete == b.data_entry_complete
    &&& a.f_small == b.f_small
    &&& a.class3 == b.class3
    &&& a.bending_magnet_flag == b.bending_magnet_flag
    &&& a.editing_taking_place == b.editing_taking_place
    &&& a.reset_pending == b.reset_pending
    &&& a.class3_ignore == b.class3_ignore
    &&& a.dose_target == b.dose_target
    &&& a.reference_dose_target == b.reference_dose_target
    &&& a.treatment_outcome == b.treatment_outcome
}

/// Fields a housekeeper step leaves untouched: everything but the two
/// hardware slots and the log.
pub open spec fn housekeeper_frame(a: TheracState, b: TheracState) -> bool {
    &&& a.console_meos == b.console_meos
    &&& a.reference_meos == b.reference_meos
    &&& a.console_params == b.console_params
    &&& a.reference_params == b.reference_params
    &&& a.phase == b.phase
    &&& a.data_entry_complete == b.data_entry_complete
    &&& a.f_small == b.f_small
    &&& a.class3 == b.class3
    &&& a.bending_magnet_flag == b.bending_magnet_flag
    &&& a.editing_taking_place == b.editing_taking_place
    &&& a.reset_pending == b.reset_pending
    &&& a.class3_ignore == b.class3_ignore
    &&& a.malfunction_count == b.malfunction_count
    &&& a.dose_delivered == b.dose_delivered
    &&& a.dose_target == b.dose_target
    &&& a.reference_dose_target == b.reference_dose_target
    &&& a.treatment_outcome == b.treatment_outcome
    &&& a.last_malfunction == b.last_malfunction
}

/// The collimator position that matches a beam type: the flatness filter
/// is put in the beam path for X-rays and taken out otherwise.
pub open spec fn target_position_spec(beam_type: BeamType) -> CollimatorPosition {
    match beam_type {
        BeamType::XRay => CollimatorPosition::InPosition,
        BeamType::Electron => CollimatorPosition::OutOfPosition,
        BeamType::Undefined => CollimatorPosition::OutOfPosition,
    }
}

/// Compute the collimator position that matches a beam type.
pub fn target_position(beam_type: BeamType) -> (r: CollimatorPosition)
    ensures
        r == target_position_spec(beam_type),
{
    match beam_type {
        BeamType::XRay => CollimatorPosition::InPosition,
        BeamType::Electron => CollimatorPosition::OutOfPosition,
        BeamType::Undefined => CollimatorPosition::OutOfPosition,
    }
}

/// Base dose of one pulse for an energy level, in tenths of a cGy: the
/// dose scales monotonically with energy, 2.0 units at 5 MeV up to 10.0
/// units at 25 MeV.
pub open spec fn base_dose_tenths(energy: BeamEnergy) -> nat {
    match energy {
        BeamEnergy::E5 => 20,
        BeamEnergy::E10 => 40,
        BeamEnergy::E15 => 60,
        BeamEnergy::E20 => 80,
        BeamEnergy::E25 => 100,
    }
}

/// Dose of one normal pulse, in tenths of a cGy.  X-ray mode spreads the
/// beam through the flatness filter and delivers 0.8 of the electron dose;
/// an undefined beam delivers nothing.
pub open spec fn dose_pulse_tenths(meos: Meos) -> nat {
    match meos.beam_type {
        BeamType::XRay => base_dose_tenths(meos.beam_energy) * 8 / 10,
        BeamType::Electron => base_dose_tenths(meos.beam_energy),
        BeamType::Undefined => 0,
    }
}

/// Calculate the dose of a single beam pulse, in tenths of a cGy.
pub fn calculate_dose(meos: &Meos) -> (dose: u64)
    ensures
        dose == dose_pulse_tenths(*meos),
        dose <= 100,
{
    let base: u64 = match meos.beam_energy {
        BeamEnergy::E5 => 20,
        BeamEnergy::E10 => 40,
        BeamEnergy::E15 => 60,
        BeamEnergy::E20 => 80,
        BeamEnergy::E25 => 100,
    };
    match meos.beam_type {
        BeamType::XRay => base * 8 / 10,
        BeamType::Electron => base,
        BeamType::Undefined => 0,
    }
}

/// Build a beam configuration from two uniform draws: `beam_pick` selects
/// the beam type (0 is X-ray, 1 is electron), `energy_pick` one of the five
/// energy levels, and the collimator is set to the position that is safe
/// for the chosen beam type.
pub fn meos_from_picks(beam_pick: u64, energy_pick: u64) -> (m: Meos)
    requires
        beam_pick < 2,
        energy_pick < 5,
    ensures
        m.beam_type == if beam_pick == 0 {
            BeamType::XRay
        } else {
            BeamType::Electron
        },
        m.beam_energy == if energy_pick == 0 {
            BeamEnergy::E5
        } else if energy_pick == 1 {
            BeamEnergy::E10
        } else if energy_pick == 2 {
            BeamEnergy::E15
        } else if energy_pick == 3 {
            BeamEnergy::E20
        } else {
            BeamEnergy::E25
        },
        m.collimator == target_position_spec(m.beam_type),
        m.is_safe_spec(),
{
    let beam_type = if beam_pick == 0 {
        BeamType::XRay
    } else {
        BeamType::Electron
    };
    let beam_energy = if energy_pick == 0 {
        BeamEnergy::E5
    } else if energy_pick == 1 {
        BeamEnergy::E10
    } else if energy_pick == 2 {
        BeamEnergy::E15
    } else if energy_pick == 3 {
        BeamEnergy::E20
    } else {
        BeamEnergy::E25
    };
    Meos { beam_type, beam_energy, collimator: target_position(beam_type) }
}

/// Produce a randomized beam configuration with the collimator in the safe
/// position for the chosen beam type: beam type uniformly X-ray or
/// electron, energy uniformly one of the five levels.
pub fn generate_random_parameters() -> (m: Meos)
    ensures
        m.is_safe_spec(),
        m.beam_type != BeamType::Undefined,
{
    let beam_pick = entropy::draw(0, 2);
    let energy_pick = entropy::draw(0, 5);
    meos_from_picks(beam_pick, energy_pick)
}

/// Flip the beam type of `current` while keeping its collimator position:
/// the configuration an operator produces by a quick late correction.
/// Applied to a safe configuration the result is always unsafe, because
/// the collimator still matches the old beam type.
pub fn generate_race_condition_parameters(current: Meos) -> (m: Meos)
    ensures
        m.beam_type == match current.beam_type {
            BeamType::XRay => BeamType::Electron,
            BeamType::Electron => BeamType::XRay,
            BeamType::Undefined => BeamType::Electron,
        },
        m.beam_energy == current.beam_energy,
        m.collimator == current.collimator,
        current.is_safe_spec() ==> !m.is_safe_spec(),
{
    let new_beam_type = match current.beam_type {
        BeamType::XRay => BeamType::Electron,
        BeamType::Electron => BeamType::XRay,
        BeamType::Undefined => BeamType::Electron,
    };
    Meos {
        beam_type: new_beam_type,
        beam_energy: current.beam_energy,
        collimator: current.collimator,
    }
}

/// Dose multiplier applied when the beam fires in an unsafe configuration,
/// in tenths of the nominal factor: X-rays without the flatness filter
/// concentrate the whole beam in a small spot (100x overdose), electrons
/// through the filter are mostly blocked (0.1x underdose), and every other
/// unsafe combination fires at the nominal dose.
pub open spec fn dose_multiplier_tenths(meos: Meos) -> nat {
    if meos.beam_type == BeamType::XRay && meos.collimator == CollimatorPosition::OutOfPosition {
        1000
    } else if meos.beam_type == BeamType::Electron && meos.collimator
        == CollimatorPosition::InPosition {
        1
    } else {
        10
    }
}

/// Compute the unsafe-fire dose multiplier, in tenths.
pub fn dose_multiplier(meos: &Meos) -> (r: u64)
    ensures
        r == dose_multiplier_tenths(*meos),
{
    if matches!(meos.beam_type, BeamType::XRay) && matches!(
        meos.collimator,
        CollimatorPosition::OutOfPosition,
    ) {
        1000
    } else if matches!(meos.beam_type, BeamType::Electron) && matches!(
        meos.collimator,
        CollimatorPosition::InPosition,
    ) {
        1
    } else {
        10
    }
}

/// Dose of one pulse fired in an unsafe configuration, in tenths of a cGy.
pub open spec fn violation_pulse_tenths(meos: Meos) -> nat {
    dose_pulse_tenths(meos) * dose_multiplier_tenths(meos) / 10
}

/// No single pulse, safe or not, exceeds this many tenths of a cGy (the
/// worst case is a 25 MeV X-ray fired without the flatness filter).
pub const MAX_PULSE_TENTHS: u64 = 8000;

/// Log line recorded for a stale-snapshot parameter mismatch.
pub open spec fn mismatch_message(count: u32, console: Meos, hardware: Meos) -> Seq<char> {
    "MALFUNCTION 54 - Parameter mismatch (occurrence #"@ + text::dec_rep(count as nat)
        + ") - Console: "@ + console.beam_label_spec() + "/"@ + console.collimator_label_spec()
        + ", Hardware: "@ + hardware.beam_label_spec() + "/"@ + hardware.collimator_label_spec()
}

fn build_mismatch_message(count: u32, console: &Meos, hardware: &Meos) -> (s: String)
    ensures
        s@ == mismatch_message(count, *console, *hardware),
{
    let mut s = String::from_str("MALFUNCTION 54 - Parameter mismatch (occurrence #");
    s.append(text::u64_to_string(count as u64).as_str());
    s.append(") - Console: ");
    s.append(console.beam_label());
    s.append("/");
    s.append(console.collimator_label());
    s.append(", Hardware: ");
    s.append(hardware.beam_label());
    s.append("/");
    s.append(hardware.collimator_label());
    proof {
        assert(s@ =~= mismatch_message(count, *console, *hardware));
    }
    s
}

/// Log line recorded when the beam fires in an unsafe configuration.
pub open spec fn violation_message(multiplier: nat, pulse: nat, total: nat, target: nat) -> Seq<
    char,
> {
    "CRITICAL SAFETY VIOLATION! Beam fired with unsafe configuration! Dose multiplier: "@
        + text::dec_rep_tenths(multiplier) + "x - Delivered "@ + text::dec_rep_tenths(pulse)
        + " cGy this pulse (total: "@ + text::dec_rep_tenths(total) + "/"@ + text::dec_rep_tenths(
        target,
    ) + " cGy)"@
}

fn build_violation_message(multiplier: u64, pulse: u64, total: u64, target: u64) -> (s: String)
    ensures
        s@ == violation_message(multiplier as nat, pulse as nat, total as nat, target as nat),
{
    let mut s = String::from_str(
        "CRITICAL SAFETY VIOLATION! Beam fired with unsafe configuration! Dose multiplier: ",
    );
    s.append(text::tenths_to_string(multiplier).as_str());
    s.append("x - Delivered ");
    s.append(text::tenths_to_string(pulse).as_str());
    s.append(" cGy this pulse (total: ");
    s.append(text::tenths_to_string(total).as_str());
    s.append("/");
    s.append(text::tenths_to_string(target).as_str());
    s.append(" cGy)");
    proof {
        assert(s@ =~= violation_message(
            multiplier as nat,
            pulse as nat,
            total as nat,
            target as nat,
        ));
    }
    s
}

/// Log line recorded for a synthetic random hardware fault.
pub open spec fn fault_message(sample: u64) -> Seq<char> {
    "MALFUNCTION "@ + text::dec_rep(sample as nat) + " - Random hardware fault"@
}

fn build_fault_message(sample: u64) -> (s: String)
    ensures
        s@ == fault_message(sample),
{
    let mut s = String::from_str("MALFUNCTION ");
    s.append(text::u64_to_string(sample).as_str());
    s.append(" - Random hardware fault");
    proof {
        assert(s@ =~= fault_message(sample));
    }
    s
}

/// Log line recorded for a normal delivered pulse.
pub open spec fn delivery_message(pulse: nat, total: nat, target: nat) -> Seq<char> {
    "Beam delivered: "@ + text::dec_rep_tenths(pulse) + " cGy (total: "@ + text::dec_rep_tenths(
        total,
    ) + "/"@ + text::dec_rep_tenths(target) + " cGy)"@
}

fn build_delivery_message(pulse: u64, total: u64, target: u64) -> (s: String)
    ensures
        s@ == delivery_message(pulse as nat, total as nat, target as nat),
{
    let mut s = String::from_str("Beam delivered: ");
    s.append(text::tenths_to_string(pulse).as_str());
    s.append(" cGy (total: ");
    s.append(text::tenths_to_string(total).as_str());
    s.append("/");
    s.append(text::tenths_to_string(target).as_str());
    s.append(" cGy)");
    proof {
        assert(s@ =~= delivery_message(pulse as nat, total as nat, target as nat));
    }
    s
}

/// Log line recorded when a treatment terminates.
pub open spec fn terminate_message(total: nat, target: nat) -> Seq<char> {
    "Treatment terminated. Dose delivered: "@ + text::dec_rep_tenths(total) + "/"@
        + text::dec_rep_tenths(target) + " cGy"@
}

fn build_terminate_message(total: u64, target: u64) -> (s: String)
    ensures
        s@ == terminate_message(total as nat, target as nat),
{
    let mut s = String::from_str("Treatment terminated. Dose delivered: ");
    s.append(text::tenths_to_string(total).as_str());
    s.append("/");
    s.append(text::tenths_to_string(target).as_str());
    s.append(" cGy");
    proof {
        assert(s@ =~= terminate_message(total as nat, target as nat));
    }
    s
}

/// Log line recorded when the hardware slots have been synchronized.
pub open spec fn sync_message(m: Meos) -> Seq<char> {
    "Hardware synced: "@ + m.beam_label_spec() + " @ "@ + m.energy_label_spec()
        + " with collimator "@ + m.collimator_label_spec()
}

fn build_sync_message(m: &Meos) -> (s: String)
    ensures
        s@ == sync_message(*m),
{
    let mut s = String::from_str("Hardware synced: ");
    s.append(m.beam_label());
    s.append(" @ ");
    s.append(m.energy_label());
    s.append(" with collimator ");
    s.append(m.collimator_label());
    proof {
        assert(s@ =~= sync_message(*m));
    }
    s
}

/// Log line recorded when the console configuration is replaced wholesale.
pub open spec fn console_update_message(m: Meos) -> Seq<char> {
    "Console updated: "@ + m.beam_label_spec() + " @ "@ + m.energy_label_spec()
        + " with collimator "@ + m.collimator_label_spec()
}

fn build_console_update_message(m: &Meos) -> (s: String)
    ensures
        s@ == console_update_message(*m),
{
    let mut s = String::from_str("Console updated: ");
    s.append(m.beam_label());
    s.append(" @ ");
    s.append(m.energy_label());
    s.append(" with collimator ");
    s.append(m.collimator_label());
    proof {
        assert(s@ =~= console_update_message(*m));
    }
    s
}

/// The setup test moves on once the verification counter has passed this
/// threshold.
pub const SETUP_TEST_THRESHOLD: u8 = 10;

/// Reliability samples above this threshold count as a synthetic random
/// hardware fault.
pub const FAULT_THRESHOLD: u64 = 22;

/// Monitor step in the `Reset` phase: after the settle delay (which the
/// caller sleeps through) the machine enters data entry.
pub fn handle_reset(state: &mut TheracState)
    requires
        old(state).wf(),
    ensures
        final(state).wf(),
        final(state).phase == TPhase::DataEntry,
        final(state).class3 == old(state).class3,
        final(state).data_entry_complete == old(state).data_entry_complete,
        final(state).editing_taking_place == old(state).editing_taking_place,
        final(state).malfunction_count == old(state).malfunction_count,
        final(state).last_malfunction == old(state).last_malfunction,
        monitor_frame(*old(state), *final(state)),
        TheracState::logged(*old(state), *final(state), "Entering data entry mode"@),
{
    self_log_transition(state, TPhase::DataEntry, "Entering data entry mode")
}

/// Monitor step in the `DataEntry` phase: once an external command has
/// completed data entry, start the setup test with a cleared verification
/// counter.
pub fn handle_data_entry(state: &mut TheracState)
    requires
        old(state).wf(),
    ensures
        final(state).wf(),
        !old(state).data_entry_complete ==> *final(state) == *old(state),
        old(state).data_entry_complete ==> {
            &&& final(state).phase == TPhase::SetupTest
            &&& final(state).class3 == 0
            &&& final(state).data_entry_complete == old(state).data_entry_complete
            &&& final(state).editing_taking_place == old(state).editing_taking_place
            &&& final(state).malfunction_count == old(state).malfunction_count
            &&& final(state).last_malfunction == old(state).last_malfunction
            &&& monitor_frame(*old(state), *final(state))
            &&& TheracState::logged(
                *old(state),
                *final(state),
                "Data entry complete, starting setup test"@,
            )
        },
{
    if state.data_entry_complete {
        state.phase = TPhase::SetupTest;
        state.class3 = 0;
        state.add_log(String::from_str("Data entry complete, starting setup test"));
    }
}

/// Monitor step in the `SetupTest` phase: each tick increments the
/// verification counter (wrapping at its width); once it exceeds
/// [`SETUP_TEST_THRESHOLD`] the setup is done.
pub fn handle_setup_test(state: &mut TheracState)
    requires
        old(state).wf(),
    ensures
        final(state).wf(),
        final(state).class3 == if old(state).class3 == 255 {
            0u8
        } else {
            (old(state).class3 + 1) as u8
        },
        final(state).data_entry_complete == old(state).data_entry_complete,
        final(state).editing_taking_place == old(state).editing_taking_place,
        final(state).malfunction_count == old(state).malfunction_count,
        final(state).last_malfunction == old(state).last_malfunction,
        monitor_frame(*old(state), *final(state)),
        final(state).class3 > SETUP_TEST_THRESHOLD ==> {
            &&& final(state).phase == TPhase::SetupDone
            &&& TheracState::logged(*old(state), *final(state), "Setup test complete"@)
        },
        final(state).class3 <= SETUP_TEST_THRESHOLD ==> {
            &&& final(state).phase == old(state).phase
            &&& final(state).log@ == old(state).log@
        },
{
    state.class3 = if state.class3 == 255 {
        0
    } else {
        state.class3 + 1
    };
    if state.class3 > SETUP_TEST_THRESHOLD {
        state.phase = TPhase::SetupDone;
        state.add_log(String::from_str("Setup test complete"));
    }
}

/// Monitor step in the `TerminateTreatment` phase: log the final dose
/// summary and loop back to `Reset`.
pub fn handle_terminate_treatment(state: &mut TheracState)
    requires
        old(state).wf(),
    ensures
        final(state).wf(),
        final(state).phase == TPhase::Reset,
        final(state).class3 == old(state).class3,
        final(state).data_entry_complete == old(state).data_entry_complete,
        final(state).editing_taking_place == old(state).editing_taking_place,
        final(state).malfunction_count == old(state).malfunction_count,
        final(state).last_malfunction == old(state).last_malfunction,
        monitor_frame(*old(state), *final(state)),
        TheracState::logged(
            *old(state),
            *final(state),
            terminate_message(old(state).dose_delivered as nat, old(state).dose_target as nat),
        ),
{
    let message = build_terminate_message(state.dose_delivered, state.dose_target);
    state.add_log(message);
    state.phase = TPhase::Reset;
}

/// Monitor step in the `DateTimeIdChanges` phase: after the fixed delay
/// (which the caller sleeps through) go back to data entry.
pub fn handle_datetime_changes(state: &mut TheracState)
    requires
        old(state).wf(),
    ensures
        final(state).wf(),
        final(state).phase == TPhase::DataEntry,
        final(state).class3 == old(state).class3,
        final(state).data_entry_complete == old(state).data_entry_complete,
        final(state).editing_taking_place == old(state).editing_taking_place,
        final(state).malfunction_count == old(state).malfunction_count,
        final(state).last_malfunction == old(state).last_malfunction,
        final(state).log@ == old(state).log@,
        monitor_frame(*old(state), *final(state)),
{
    state.phase = TPhase::DataEntry;
}

/// Start treatment: accepted only when setup is done; in any other phase
/// the command is ignored except for a log entry recording the refusal.
pub fn start_treatment(state: &mut TheracState)
    requires
        old(state).wf(),
    ensures
        final(state).wf(),
        old(state).phase != TPhase::SetupDone ==> {
            &&& TheracState::same_but_log(*old(state), *final(state))
            &&& TheracState::logged(
                *old(state),
                *final(state),
                "Cannot start treatment - setup not complete"@,
            )
        },
        old(state).phase == TPhase::SetupDone ==> {
            &&& final(state).phase == TPhase::PatientTreatment
            &&& final(state).class3 == old(state).class3
            &&& final(state).data_entry_complete == old(state).data_entry_complete
            &&& final(state).editing_taking_place == old(state).editing_taking_place
            &&& final(state).malfunction_count == old(state).malfunction_count
            &&& final(state).last_malfunction == old(state).last_malfunction
            &&& monitor_frame(*old(state), *final(state))
            &&& TheracState::logged(*old(state), *final(state), "Starting patient treatment"@)
        },
{
    if state.phase == TPhase::SetupDone {
        self_log_transition(state, TPhase::PatientTreatment, "Starting patient treatment")
    } else {
        state.add_log(String::from_str("Cannot start treatment - setup not complete"));
    }
}

/// Stop (pause) treatment: accepted only during patient treatment; in any
/// other phase the command is ignored except for a log entry recording
/// the refusal.
pub fn stop_treatment(state: &mut TheracState)
    requires
        old(state).wf(),
    ensures
        final(state).wf(),
        old(state).phase != TPhase::PatientTreatment ==> {
            &&& TheracState::same_but_log(*old(state), *final(state))
            &&& TheracState::logged(
                *old(state),
                *final(state),
                "Cannot stop treatment - no treatment in progress"@,
            )
        },
        old(state).phase == TPhase::PatientTreatment ==> {
            &&& final(state).phase == TPhase::PauseTreatment
            &&& final(state).class3 == old(state).class3
            &&& final(state).data_entry_complete == old(state).data_entry_complete
            &&& final(state).editing_taking_place == old(state).editing_taking_place
            &&& final(state).malfunction_count == old(state).malfunction_count
            &&& final(state).last_malfunction == old(state).last_malfunction
            &&& monitor_frame(*old(state), *final(state))
            &&& TheracState::logged(*old(state), *final(state), "Treatment paused by operator"@)
        },
{
    if state.phase == TPhase::PatientTreatment {
        self_log_transition(state, TPhase::PauseTreatment, "Treatment paused by operator")
    } else {
        state.add_log(String::from_str("Cannot stop treatment - no treatment in progress"));
    }
}

/// Resume a paused treatment, clearing the malfunction message; accepted
/// only while paused; in any other phase the command is ignored except
/// for a log entry recording the refusal.
pub fn resume_treatment(state: &mut TheracState)
    requires
        old(state).wf(),
    ensures
        final(state).wf(),
        old(state).phase != TPhase::PauseTreatment ==> {
            &&& TheracState::same_but_log(*old(state), *final(state))
            &&& TheracState::logged(
                *old(state),
                *final(state),
                "Cannot resume treatment - not paused"@,
            )
        },
        old(state).phase == TPhase::PauseTreatment ==> {
            &&& final(state).phase == TPhase::PatientTreatment
            &&& final(state).last_malfunction is None
            &&& final(state).class3 == old(state).class3
            &&& final(state).data_entry_complete == old(state).data_entry_complete
            &&& final(state).editing_taking_place == old(state).editing_taking_place
            &&& final(state).malfunction_count == old(state).malfunction_count
            &&& monitor_frame(*old(state), *final(state))
            &&& TheracState::logged(*old(state), *final(state), "Treatment resumed"@)
        },
{
    if state.phase == TPhase::PauseTreatment {
        state.phase = TPhase::PatientTreatment;
        state.last_malfunction = None;
        state.add_log(String::from_str("Treatment resumed"));
    } else {
        state.add_log(String::from_str("Cannot resume treatment - not paused"));
    }
}

/// Complete data entry.  This does not synchronize the hardware; the
/// housekeeper does that asynchronously later, which opens the race
/// window.  Accepted only during data entry; in any other phase the
/// command is ignored except for a log entry recording the refusal.
pub fn complete_data_entry(state: &mut TheracState)
    requires
        old(state).wf(),
    ensures
        final(state).wf(),
        old(state).phase != TPhase::DataEntry ==> {
            &&& TheracState::same_but_log(*old(state), *final(state))
            &&& TheracState::logged(
                *old(state),
                *final(state),
                "Cannot complete data entry - not in data entry phase"@,
            )
        },
        old(state).phase == TPhase::DataEntry ==> {
            &&& final(state).phase == old(state).phase
            &&& final(state).data_entry_complete
            &&& !final(state).editing_taking_place
            &&& final(state).class3 == old(state).class3
            &&& final(state).malfunction_count == old(state).malfunction_count
            &&& final(state).last_malfunction == old(state).last_malfunction
            &&& monitor_frame(*old(state), *final(state))
            &&& TheracState::logged(
                *old(state),
                *final(state),
                "Data entry complete - hardware sync pending"@,
            )
        },
{
    if state.phase == TPhase::DataEntry {
        state.data_entry_complete = true;
        state.editing_taking_place = false;
        state.add_log(String::from_str("Data entry complete - hardware sync pending"));
    } else {
        state.add_log(String::from_str("Cannot complete data entry - not in data entry phase"));
    }
}

/// Replace the console configuration wholesale (operator input); accepted
/// during data entry and setup test; in any other phase the command is
/// ignored except for a log entry recording the refusal.
pub fn update_console_meos(state: &mut TheracState, meos: Meos)
    requires
        old(state).wf(),
    ensures
        final(state).wf(),
        old(state).phase != TPhase::DataEntry && old(state).phase != TPhase::SetupTest ==> {
            &&& TheracState::same_but_log(*old(state), *final(state))
            &&& TheracState::logged(
                *old(state),
                *final(state),
                "Console update ignored - not accepting input"@,
            )
        },
        old(state).phase == TPhase::DataEntry || old(state).phase == TPhase::SetupTest ==> {
            &&& final(state).console_meos == meos
            &&& final(state).console_params == old(state).console_params
            &&& final(state).dose_target == old(state).dose_target
            &&& TheracState::same_but_log_and_console(*old(state), *final(state))
            &&& TheracState::logged(*old(state), *final(state), console_update_message(meos))
        },
{
    if state.phase == TPhase::DataEntry || state.phase == TPhase::SetupTest {
        state.console_meos = meos;
        let message = build_console_update_message(&meos);
        state.add_log(message);
    } else {
        state.add_log(String::from_str("Console update ignored - not accepting input"));
    }
}

/// The console selection as it would fire right now: the console beam
/// type and energy against the hardware's current collimator position.
pub open spec fn pending_configuration_spec(state: TheracState) -> Meos {
    Meos {
        beam_type: state.console_meos.beam_type,
        beam_energy: state.console_meos.beam_energy,
        collimator: state.hardware_meos.collimator,
    }
}

/// Housekeeper check: hardware synchronization is needed when the machine
/// is not treating, the console selection is unsafe relative to the
/// hardware's current collimator, and that collimator is not already
/// moving.
pub fn needs_hardware_sync(state: &TheracState) -> (r: bool)
    ensures
        r == (state.phase != TPhase::PatientTreatment && pending_configuration_spec(
            *state,
        ).needs_collimator_sync_spec()),
{
    let pending = Meos {
        beam_type: state.console_meos.beam_type,
        beam_energy: state.console_meos.beam_energy,
        collimator: state.hardware_meos.collimator,
    };
    !(state.phase == TPhase::PatientTreatment) && pending.needs_collimator_sync()
}

/// First housekeeper critical section: plan the move from the console beam
/// type and mark the collimator as transitioning (logging the start of the
/// move unless it was already under way).  The caller then sleeps through
/// the simulated mechanical delay before calling
/// [`finish_collimator_sync`]; the plan is deliberately made before that
/// delay, so it can go stale while the hardware moves.
pub fn begin_collimator_sync(state: &mut TheracState) -> (planned: BeamType)
    requires
        old(state).wf(),
    ensures
        final(state).wf(),
        planned == old(state).console_meos.beam_type,
        old(state).hardware_meos.collimator == CollimatorPosition::Transitioning ==> *final(state)
            == *old(state),
        old(state).hardware_meos.collimator != CollimatorPosition::Transitioning ==> {
            &&& final(state).hardware_meos.collimator == CollimatorPosition::Transitioning
            &&& final(state).hardware_meos.beam_type == old(state).hardware_meos.beam_type
            &&& final(state).hardware_meos.beam_energy == old(state).hardware_meos.beam_energy
            &&& final(state).hardware_params == old(state).hardware_params
            &&& housekeeper_frame(*old(state), *final(state))
            &&& TheracState::logged(*old(state), *final(state), "Collimator moving..."@)
        },
{
    let planned = state.console_meos.beam_type;
    if !(state.hardware_meos.collimator == CollimatorPosition::Transitioning) {
        state.hardware_meos.collimator = CollimatorPosition::Transitioning;
        state.add_log(String::from_str("Collimator moving..."));
    }
    planned
}

/// Second housekeeper critical section: move the collimator to the
/// position implied by the beam type planned *before* the mechanical
/// delay, and copy the *current* console beam type and energy into the
/// hardware slot.  A console change during the delay therefore leaves the
/// hardware with a collimator position that no longer matches its beam.
pub fn finish_collimator_sync(state: &mut TheracState, planned: BeamType)
    requires
        old(state).wf(),
    ensures
        final(state).wf(),
        final(state).hardware_meos.collimator == target_position_spec(planned),
        final(state).hardware_meos.beam_type == old(state).console_meos.beam_type,
        final(state).hardware_meos.beam_energy == old(state).console_meos.beam_energy,
        final(state).hardware_params == old(state).hardware_params,
        housekeeper_frame(*old(state), *final(state)),
        TheracState::logged(*old(state), *final(state), sync_message(final(state).hardware_meos)),
{
    state.hardware_meos.collimator = target_position(planned);
    state.hardware_meos.beam_type = state.console_meos.beam_type;
    state.hardware_meos.beam_energy = state.console_meos.beam_energy;
    let message = build_sync_message(&state.hardware_meos);
    state.add_log(message);
}

/// Housekeeper check: the mechanical parameters still have to be copied
/// when the machine is not treating and console and hardware differ.
pub fn params_need_sync(state: &TheracState) -> (r: bool)
    ensures
        r == (state.phase != TPhase::PatientTreatment && state.console_params
            != state.hardware_params),
{
    !(state.phase == TPhase::PatientTreatment) && !(state.console_params == state.hardware_params)
}

/// Copy the console mechanical parameters onto the hardware wholesale.
pub fn sync_hardware_params(state: &mut TheracState)
    requires
        old(state).wf(),
    ensures
        final(state).wf(),
        final(state).hardware_params == old(state).console_params,
        final(state).hardware_meos == old(state).hardware_meos,
        final(state).log@ == old(state).log@,
        housekeeper_frame(*old(state), *final(state)),
{
    state.hardware_params = state.console_params;
}

/// Draw the reliability sample for one beam delivery.
pub fn draw_reliability_sample() -> (r: u64)
    ensures
        12 <= r <= 53,
{
    entropy::draw(12, 54)
}

/// First beam delivery critical section: the unsynchronized read.  The
/// returned pair is a snapshot of console and hardware configuration taken
/// under a shared lock that is released before any check runs; the caller
/// waits through the race window and then hands the stale pair to
/// [`zap_the_specimen`].
pub fn beam_snapshot(state: &TheracState) -> (r: (Meos, Meos))
    ensures
        r.0 == state.console_meos,
        r.1 == state.hardware_meos,
{
    (state.console_meos, state.hardware_meos)
}

/// Second beam delivery critical section: check the stale snapshot and
/// commit one pulse.
///
/// The check-then-act defect is reproduced on purpose: the equality check
/// compares the snapshots taken before the race window, while the dose is
/// computed from the hardware configuration as it is *now*.  A concurrent
/// hardware move inside the window can therefore pass the check and fire
/// an unsafe configuration, or fail the check although the configurations
/// agree.
///
/// Exactly one of four outcomes happens:
/// - the snapshots differ: a parameter mismatch malfunction, no dose;
/// - the current hardware configuration is unsafe: the beam fires anyway,
///   scaled by [`dose_multiplier_tenths`], and a critical safety violation
///   is recorded;
/// - the reliability sample exceeds [`FAULT_THRESHOLD`]: a synthetic
///   random hardware fault, no dose;
/// - otherwise a normal pulse is delivered, and reaching the dose target
///   terminates the treatment.
///
/// The dose counter never decreases.
#[verifier::rlimit(100)]
pub fn zap_the_specimen(
    state: &mut TheracState,
    console_snapshot: Meos,
    hardware_snapshot: Meos,
    reliability_sample: u64,
)
    requires
        old(state).wf(),
        old(state).phase == TPhase::PatientTreatment,
        12 <= reliability_sample <= 53,
        old(state).dose_delivered + MAX_PULSE_TENTHS <= u64::MAX,
        old(state).malfunction_count < u32::MAX,
    ensures
        final(state).wf(),
        beam_frame(*old(state), *final(state)),
        final(state).dose_delivered >= old(state).dose_delivered,
        console_snapshot != hardware_snapshot ==> {
            &&& final(state).malfunction_count == old(state).malfunction_count + 1
            &&& final(state).phase == TPhase::PauseTreatment
            &&& final(state).dose_delivered == old(state).dose_delivered
            &&& (final(state).last_malfunction matches Some(m) && m@ == mismatch_message(
                (old(state).malfunction_count + 1) as u32,
                console_snapshot,
                hardware_snapshot,
            ))
            &&& TheracState::logged(
                *old(state),
                *final(state),
                mismatch_message(
                    (old(state).malfunction_count + 1) as u32,
                    console_snapshot,
                    hardware_snapshot,
                ),
            )
        },
        console_snapshot == hardware_snapshot && !old(state).hardware_meos.is_safe_spec() ==> {
            &&& final(state).malfunction_count == old(state).malfunction_count + 1
            &&& final(state).phase == TPhase::PauseTreatment
            &&& final(state).dose_delivered == old(state).dose_delivered
                + violation_pulse_tenths(old(state).hardware_meos)
            &&& (final(state).last_malfunction matches Some(m) && m@ == violation_message(
                dose_multiplier_tenths(old(state).hardware_meos),
                violation_pulse_tenths(old(state).hardware_meos),
                (old(state).dose_delivered + violation_pulse_tenths(old(state).hardware_meos)) as nat,
                old(state).dose_target as nat,
            ))
            &&& TheracState::logged(
                *old(state),
                *final(state),
                violation_message(
                    dose_multiplier_tenths(old(state).hardware_meos),
                    violation_pulse_tenths(old(state).hardware_meos),
                    (old(state).dose_delivered + violation_pulse_tenths(old(state).hardware_meos)) as nat,
                    old(state).dose_target as nat,
                ),
            )
        },
        console_snapshot == hardware_snapshot && old(state).hardware_meos.is_safe_spec()
            && reliability_sample > FAULT_THRESHOLD ==> {
            &&& final(state).malfunction_count == old(state).malfunction_count + 1
            &&& final(state).phase == TPhase::PauseTreatment
            &&& final(state).dose_delivered == old(state).dose_delivered
            &&& (final(state).last_malfunction matches Some(m) && m@ == fault_message(
                reliability_sample,
            ))
            &&& TheracState::logged(*old(state), *final(state), fault_message(reliability_sample))
        },
        console_snapshot == hardware_snapshot && old(state).hardware_meos.is_safe_spec()
            && reliability_sample <= FAULT_THRESHOLD ==> {
            &&& final(state).malfunction_count == old(state).malfunction_count
            &&& final(state).last_malfunction == old(state).last_malfunction
            &&& final(state).dose_delivered == old(state).dose_delivered + dose_pulse_tenths(
                old(state).hardware_meos,
            )
            &&& final(state).phase == if final(state).dose_delivered >= old(state).dose_target {
                TPhase::TerminateTreatment
            } else {
                TPhase::PatientTreatment
            }
            &&& final(state).dose_delivered < old(state).dose_target
                ==> TheracState::logged(
                *old(state),
                *final(state),
                delivery_message(
                    dose_pulse_tenths(old(state).hardware_meos),
                    final(state).dose_delivered as nat,
                    old(state).dose_target as nat,
                ),
            )
            &&& final(state).dose_delivered >= old(state).dose_target ==> {
                &&& final(state).log@.len() >= 2
                &&& stamped_entry(
                    final(state).log@[final(state).log@.len() - 2]@,
                    delivery_message(
                        dose_pulse_tenths(old(state).hardware_meos),
                        final(state).dose_delivered as nat,
                        old(state).dose_target as nat,
                    ),
                )
                &&& stamped_entry(final(state).log@.last()@, "Target dose reached"@)
                &&& final(state).log@ == bounded_log_push(
                    bounded_log_push(
                        old(state).log@,
                        final(state).log@[final(state).log@.len() - 2],
                    ),
                    final(state).log@.last(),
                )
            }
        },
{
    // Check the *stale* pair read before the race window.
    if !(console_snapshot == hardware_snapshot) {
        state.malfunction_count = state.malfunction_count + 1;
        state.phase = TPhase::PauseTreatment;
        let message = build_mismatch_message(
            state.malfunction_count,
            &console_snapshot,
            &hardware_snapshot,
        );
        state.last_malfunction = Some(message.clone());
        state.add_log(message);
        return ;
    }
    // Re-read the *current* hardware configuration, which may have changed
    // since the snapshot was taken.
    let hardware_now = state.hardware_meos;
    if !hardware_now.is_safe() {
        state.malfunction_count = state.malfunction_count + 1;
        let multiplier = dose_multiplier(&hardware_now);
        let base = calculate_dose(&hardware_now);
        let pulse = base * multiplier / 10;
        state.dose_delivered = state.dose_delivered + pulse;
        state.phase = TPhase::PauseTreatment;
        let message = build_violation_message(
            multiplier,
            pulse,
            state.dose_delivered,
            state.dose_target,
        );
        state.last_malfunction = Some(message.clone());
        state.add_log(message);
        return ;
    }
    if reliability_sample > FAULT_THRESHOLD {
        state.malfunction_count = state.malfunction_count + 1;
        state.phase = TPhase::PauseTreatment;
        let message = build_fault_message(reliability_sample);
        state.last_malfunction = Some(message.clone());
        state.add_log(message);
        return ;
    }
    // Normal beam delivery.
    let pulse = calculate_dose(&hardware_now);
    state.dose_delivered = state.dose_delivered + pulse;
    let message = build_delivery_message(pulse, state.dose_delivered, state.dose_target);
    state.add_log(message);
    if state.dose_delivered >= state.dose_target {
        state.phase = TPhase::TerminateTreatment;
        state.add_log(String::from_str("Target dose reached"));
    }
}

/// Change the phase and log the transition.
fn self_log_transition(state: &mut TheracState, phase: TPhase, message: &str)
    requires
        old(state).wf(),
    ensures
        final(state).wf(),
        final(state).phase == phase,
        final(state).class3 == old(state).class3,
        final(state).data_entry_complete == old(state).data_entry_complete,
        final(state).editing_taking_place == old(state).editing_taking_place,
        final(state).malfunction_count == old(state).malfunction_count,
        final(state).last_malfunction == old(state).last_malfunction,
        monitor_frame(*old(state), *final(state)),
        TheracState::logged(*old(state), *final(state), message@),
{
    state.phase = phase;
    state.add_log(String::from_str(message));
}

} // verus!
