//! Core of an educational radiation-therapy machine simulator.
//!
//! The library models the control software of a two-mode therapy machine:
//! an operator-facing *console* configuration, the physical *hardware*
//! configuration, and a prescribed *reference* configuration, together with
//! the treatment phase state machine, the dose bookkeeping and the event log.
//!
//! The machine is only safe to fire when the collimator (the beam-shaping
//! turntable) matches the selected beam type: the flatness filter must be in
//! the beam path for X-ray mode and out of it for electron mode.  The beam
//! delivery routine in [`simulator`] deliberately re-creates a classic
//! check-then-act race around that rule: it compares a *stale* snapshot of
//! the configuration against the *current* hardware state, so a concurrent
//! hardware synchronization can let an unsafe configuration fire.
//!
//! Doses are bookkept in fixed point, as tenths of a centigray (0.1 cGy
//! units), so that all dose arithmetic is exact integer arithmetic.

use vstd::prelude::*;

mod clock;
mod entropy;
pub mod simulator;
pub mod text;

verus! {

/// Beam type selected for a treatment.
#[derive(Clone, Copy, Debug, PartialEq, Eq, Structural)]
pub enum BeamType {
    /// X-ray mode: requires the flatness filter (turntable in position).
    XRay,
    /// Electron beam mode: direct beam (turntable out of position).
    Electron,
    /// Not yet selected.
    Undefined,
}

impl Default for BeamType {
    fn default() -> (r: Self)
        ensures
            r == BeamType::Undefined,
    {
        BeamType::Undefined
    }
}

/// Beam energy level in MeV.
#[derive(Clone, Copy, Debug, PartialEq, Eq, Structural)]
pub enum BeamEnergy {
    /// 5 MeV
    E5,
    /// 10 MeV
    E10,
    /// 15 MeV
    E15,
    /// 20 MeV
    E20,
    /// 25 MeV
    E25,
}

impl Default for BeamEnergy {
    fn default() -> (r: Self)
        ensures
            r == BeamEnergy::E10,
    {
        BeamEnergy::E10
    }
}

/// Position of the collimator turntable, which carries the flatness filter.
#[derive(Clone, Copy, Debug, PartialEq, Eq, Structural)]
pub enum CollimatorPosition {
    /// Flatness filter in the beam path (required for X-ray mode).
    InPosition,
    /// No filter in the beam path (electron mode).
    OutOfPosition,
    /// Moving between positions.
    Transitioning,
}

impl Default for CollimatorPosition {
    fn default() -> (r: Self)
        ensures
            r == CollimatorPosition::OutOfPosition,
    {
        CollimatorPosition::OutOfPosition
    }
}

/// A complete beam configuration: mode, energy and collimator position.
#[derive(Clone, Copy, Debug, PartialEq, Eq, Structural)]
pub struct Meos {
    pub beam_type: BeamType,
    pub beam_energy: BeamEnergy,
    pub collimator: CollimatorPosition,
}

impl Default for Meos {
    fn default() -> (r: Self)
        ensures
            r == (Meos {
                beam_type: BeamType::Undefined,
                beam_energy: BeamEnergy::E10,
                collimator: CollimatorPosition::OutOfPosition,
            }),
    {
        Meos {
            beam_type: BeamType::Undefined,
            beam_energy: BeamEnergy::E10,
            collimator: CollimatorPosition::OutOfPosition,
        }
    }
}

impl Meos {
    /// A configuration is safe to fire exactly when the collimator matches
    /// the beam type; an undefined beam type is never safe.
    pub open spec fn is_safe_spec(self) -> bool {
        match self.beam_type {
            BeamType::XRay => self.collimator == CollimatorPosition::InPosition,
            BeamType::Electron => self.collimator == CollimatorPosition::OutOfPosition,
            BeamType::Undefined => false,
        }
    }

    /// Decide whether this configuration is physically safe to fire.
    pub fn is_safe(&self) -> (r: bool)
        ensures
            r == self.is_safe_spec(),
            r == ((self.beam_type == BeamType::XRay
                && self.collimator == CollimatorPosition::InPosition)
                || (self.beam_type == BeamType::Electron
                    && self.collimator == CollimatorPosition::OutOfPosition)),
    {
        match self.beam_type {
            BeamType::XRay => self.collimator == CollimatorPosition::InPosition,
            BeamType::Electron => self.collimator == CollimatorPosition::OutOfPosition,
            BeamType::Undefined => false,
        }
    }

    /// The collimator has to move exactly when the configuration is unsafe
    /// and the collimator is not already on its way.
    pub open spec fn needs_collimator_sync_spec(self) -> bool {
        !self.is_safe_spec() && self.collimator != CollimatorPosition::Transitioning
    }

    /// Decide whether the collimator needs to move to match the beam type.
    pub fn needs_collimator_sync(&self) -> (r: bool)
        ensures
            r == self.needs_collimator_sync_spec(),
            r == (!self.is_safe_spec()
                && self.collimator != CollimatorPosition::Transitioning),
    {
        !self.is_safe() && !(self.collimator == CollimatorPosition::Transitioning)
    }

    /// Short display name of the beam type of this configuration.
    pub open spec fn beam_label_spec(self) -> Seq<char> {
        match self.beam_type {
            BeamType::XRay => "X-Ray"@,
            BeamType::Electron => "Electron"@,
            BeamType::Undefined => "Undefined"@,
        }
    }

    pub fn beam_label(&self) -> (r: &'static str)
        ensures
            r@ == self.beam_label_spec(),
    {
        match self.beam_type {
            BeamType::XRay => "X-Ray",
            BeamType::Electron => "Electron",
            BeamType::Undefined => "Undefined",
        }
    }

    /// Short display name of the energy level of this configuration.
    pub open spec fn energy_label_spec(self) -> Seq<char> {
        match self.beam_energy {
            BeamEnergy::E5 => "5 MeV"@,
            BeamEnergy::E10 => "10 MeV"@,
            BeamEnergy::E15 => "15 MeV"@,
            BeamEnergy::E20 => "20 MeV"@,
            BeamEnergy::E25 => "25 MeV"@,
        }
    }

    pub fn energy_label(&self) -> (r: &'static str)
        ensures
            r@ == self.energy_label_spec(),
    {
        match self.beam_energy {
            BeamEnergy::E5 => "5 MeV",
            BeamEnergy::E10 => "10 MeV",
            BeamEnergy::E15 => "15 MeV",
            BeamEnergy::E20 => "20 MeV",
            BeamEnergy::E25 => "25 MeV",
        }
    }

    /// Short display name of the collimator position of this configuration.
    pub open spec fn collimator_label_spec(self) -> Seq<char> {
        match self.collimator {
            CollimatorPosition::InPosition => "In Position"@,
            CollimatorPosition::OutOfPosition => "Out"@,
            CollimatorPosition::Transitioning => "Moving..."@,
        }
    }

    pub fn collimator_label(&self) -> (r: &'static str)
        ensures
            r@ == self.collimator_label_spec(),
    {
        match self.collimator {
            CollimatorPosition::InPosition => "In Position",
            CollimatorPosition::OutOfPosition => "Out",
            CollimatorPosition::Transitioning => "Moving...",
        }
    }
}

/// Mechanical treatment parameters beyond the beam configuration.
///
/// Angles are in whole degrees, field sizes in whole centimetres and the
/// dose rate in whole cGy/min.
#[derive(Clone, Copy, Debug, PartialEq, Eq, Structural)]
pub struct TreatmentParams {
    /// Gantry angle in degrees (0-360).
    pub gantry_angle: u16,
    /// Collimator rotation angle in degrees (0-360).
    pub collimator_angle: u16,
    /// Field size X in cm (0-40).
    pub field_size_x: u16,
    /// Field size Y in cm (0-40).
    pub field_size_y: u16,
    /// Dose rate in cGy/min.
    pub dose_rate: u16,
}

impl Default for TreatmentParams {
    fn default() -> (r: Self)
        ensures
            r == (TreatmentParams {
                gantry_angle: 0,
                collimator_angle: 0,
                field_size_x: 10,
                field_size_y: 10,
                dose_rate: 100,
            }),
    {
        TreatmentParams {
            gantry_angle: 0,
            collimator_angle: 0,
            field_size_x: 10,
            field_size_y: 10,
            dose_rate: 100,
        }
    }
}

/// Treatment phase state machine.
#[derive(Clone, Copy, Debug, PartialEq, Eq, Structural)]
pub enum TPhase {
    /// System reset/initialization.
    Reset,
    /// Operator entering treatment parameters.
    DataEntry,
    /// Setup verification in progress.
    SetupTest,
    /// Setup complete, ready for treatment.
    SetupDone,
    /// Patient treatment in progress.
    PatientTreatment,
    /// Treatment paused (for example after a malfunction).
    PauseTreatment,
    /// Treatment terminated.
    TerminateTreatment,
    /// Date/time/ID changes.
    DateTimeIdChanges,
}

impl Default for TPhase {
    fn default() -> (r: Self)
        ensures
            r == TPhase::Reset,
    {
        TPhase::Reset
    }
}

impl TPhase {
    /// Display name of the phase.
    pub open spec fn label_spec(self) -> Seq<char> {
        match self {
            TPhase::Reset => "Reset"@,
            TPhase::DataEntry => "Data Entry"@,
            TPhase::SetupTest => "Setup Test"@,
            TPhase::SetupDone => "Setup Done"@,
            TPhase::PatientTreatment => "Patient Treatment"@,
            TPhase::PauseTreatment => "Paused"@,
            TPhase::TerminateTreatment => "Terminated"@,
            TPhase::DateTimeIdChanges => "Date/Time/ID Changes"@,
        }
    }

    pub fn label(&self) -> (r: &'static str)
        ensures
            r@ == self.label_spec(),
    {
        match self {
            TPhase::Reset => "Reset",
            TPhase::DataEntry => "Data Entry",
            TPhase::SetupTest => "Setup Test",
            TPhase::SetupDone => "Setup Done",
            TPhase::PatientTreatment => "Patient Treatment",
            TPhase::PauseTreatment => "Paused",
            TPhase::TerminateTreatment => "Terminated",
            TPhase::DateTimeIdChanges => "Date/Time/ID Changes",
        }
    }
}

/// The log keeps at most this many entries.
pub const LOG_CAPACITY: usize = 100;

/// Initial and post-reset dose target, in tenths of a cGy (200.0 cGy).
pub const DEFAULT_DOSE_TARGET: u64 = 2000;

/// Appending to the bounded log: the entry goes to the back, and if the log
/// would then hold more than [`LOG_CAPACITY`] entries, the oldest entries
/// are evicted from the front.
pub open spec fn bounded_log_push(log: Seq<String>, entry: String) -> Seq<String> {
    let grown = log.push(entry);
    if grown.len() <= LOG_CAPACITY {
        grown
    } else {
        grown.subrange(grown.len() - LOG_CAPACITY, grown.len() as int)
    }
}

/// A log entry is a bracketed eight-character clock reading followed by the
/// message: `[HH:MM:SS] message`.
pub open spec fn stamped_entry(entry: Seq<char>, message: Seq<char>) -> bool {
    &&& entry.len() == message.len() + 11
    &&& entry[0] == '['
    &&& entry[9] == ']'
    &&& entry[10] == ' '
    &&& entry.subrange(11, entry.len() as int) == message
}

/// The oldest entries are evicted first: appending to a full log keeps the
/// newest [`LOG_CAPACITY`] entries, order preserved, with the new entry
/// last; below capacity nothing is evicted.
pub proof fn lemma_bounded_log_push(log: Seq<String>, entry: String)
    requires
        log.len() <= LOG_CAPACITY,
    ensures
        bounded_log_push(log, entry).len() <= LOG_CAPACITY,
        bounded_log_push(log, entry).last() == entry,
        log.len() < LOG_CAPACITY ==> bounded_log_push(log, entry) == log.push(entry),
        log.len() == LOG_CAPACITY ==> bounded_log_push(log, entry) == log.subrange(
            1,
            log.len() as int,
        ).push(entry),
{
    if log.len() == LOG_CAPACITY {
        assert(bounded_log_push(log, entry) =~= log.subrange(1, log.len() as int).push(entry));
    }
}

/// The log line recorded for a fresh prescription.
pub open spec fn prescription_message(m: Meos, dose: u64, p: TreatmentParams) -> Seq<char> {
    "New prescription: "@ + m.beam_label_spec() + " @ "@ + m.energy_label_spec() + " - "@
        + crate::text::dec_rep_tenths(dose as nat) + " cGy - Gantry "@ + crate::text::dec_rep(
        p.gantry_angle as nat,
    ) + " deg - Field "@ + crate::text::dec_rep(p.field_size_x as nat) + "x"@
        + crate::text::dec_rep(p.field_size_y as nat) + " cm"@
}

fn build_prescription_message(m: &Meos, dose: u64, p: &TreatmentParams) -> (s: String)
    ensures
        s@ == prescription_message(*m, dose, *p),
{
    let mut s = String::from_str("New prescription: ");
    s.append(m.beam_label());
    s.append(" @ ");
    s.append(m.energy_label());
    s.append(" - ");
    s.append(crate::text::tenths_to_string(dose).as_str());
    s.append(" cGy - Gantry ");
    s.append(crate::text::u64_to_string(p.gantry_angle as u64).as_str());
    s.append(" deg - Field ");
    s.append(crate::text::u64_to_string(p.field_size_x as u64).as_str());
    s.append("x");
    s.append(crate::text::u64_to_string(p.field_size_y as u64).as_str());
    s.append(" cm");
    proof {
        assert(s@ =~= prescription_message(*m, dose, *p));
    }
    s
}

/// The root aggregate: the shared record of truth for one simulation run.
///
/// All dose fields are held in tenths of a cGy.
#[derive(Clone, Debug)]
pub struct TheracState {
    /// Configuration entered at the operator console.
    pub console_meos: Meos,
    /// Configuration believed to be physically active.
    pub hardware_meos: Meos,
    /// Prescribed configuration.
    pub reference_meos: Meos,
    /// Treatment parameters entered at the console.
    pub console_params: TreatmentParams,
    /// Treatment parameters believed to be physically active.
    pub hardware_params: TreatmentParams,
    /// Prescribed treatment parameters.
    pub reference_params: TreatmentParams,
    /// Current treatment phase.
    pub phase: TPhase,
    /// Data entry complete flag.
    pub data_entry_complete: bool,
    /// Set by collimator verification failure.
    pub f_small: bool,
    /// Verification-iteration counter for the setup test.
    pub class3: u8,
    /// Electron beam bending magnet status.
    pub bending_magnet_flag: bool,
    /// Operator is modifying parameters.
    pub editing_taking_place: bool,
    /// A system reset has been requested.
    pub reset_pending: bool,
    /// Ignore the setup verification counter.
    pub class3_ignore: bool,
    /// Cumulative malfunction counter; never cleared during a run.
    pub malfunction_count: u32,
    /// Total dose delivered, in tenths of a cGy.
    pub dose_delivered: u64,
    /// Target dose, in tenths of a cGy.
    pub dose_target: u64,
    /// Prescribed dose target, in tenths of a cGy.
    pub reference_dose_target: u64,
    /// Treatment outcome message.
    pub treatment_outcome: String,
    /// Event log, most recent entry last.
    pub log: Vec<String>,
    /// Last malfunction message.
    pub last_malfunction: Option<String>,
}

impl TheracState {
    /// Well-formedness: the log never holds more than [`LOG_CAPACITY`]
    /// entries.
    pub open spec fn wf(self) -> bool {
        self.log@.len() <= LOG_CAPACITY
    }

    /// All fields but the log agree between `a` and `b`.
    pub open spec fn same_but_log(a: TheracState, b: TheracState) -> bool {
        &&& a.console_meos == b.console_meos
        &&& a.hardware_meos == b.hardware_meos
        &&& a.reference_meos == b.reference_meos
        &&& a.console_params == b.console_params
        &&& a.hardware_params == b.hardware_params
        &&& a.reference_params == b.reference_params
        &&& a.phase == b.phase
        &&& a.data_entry_complete == b.data_entry_complete
        &&& a.f_small == b.f_small
        &&& a.class3 == b.class3
        &&& a.bending_magnet_flag == b.bending_magnet_flag
        &&& a.editing_taking_place == b.editing_taking_place
        &&& a.reset_pending == b.reset_pending
        &&& a.class3_ignore == b.class3_ignore
        &&& a.malfunction_count == b.malfunction_count
        &&& a.dose_delivered == b.dose_delivered
        &&& a.dose_target == b.dose_target
        &&& a.reference_dose_target == b.reference_dose_target
        &&& a.treatment_outcome == b.treatment_outcome
        &&& a.last_malfunction == b.last_malfunction
    }

    /// The log was extended by exactly one stamped entry carrying
    /// `message`, with the oldest entry evicted if the log was full.
    pub open spec fn logged(pre: TheracState, post: TheracState, message: Seq<char>) -> bool {
        &&& post.log@ == bounded_log_push(pre.log@, post.log@.last())
        &&& stamped_entry(post.log@.last()@, message)
    }

    /// Timestamp `message` and append it to the bounded log.
    pub fn add_log(&mut self, message: String)
        requires
            old(self).wf(),
        ensures
            final(self).wf(),
            TheracState::logged(*old(self), *final(self), message@),
            TheracState::same_but_log(*old(self), *final(self)),
    {
        let stamp = crate::clock::clock_hhmmss();
        let mut entry = String::from_str("[");
        entry.append(stamp.as_str());
        entry.append("] ");
        entry.append(message.as_str());
        proof {
            reveal_strlit("[");
            reveal_strlit("] ");
            assert(entry@.subrange(11, entry@.len() as int) =~= message@);
        }
        self.log.push(entry);
        if self.log.len() > LOG_CAPACITY {
            self.log.remove(0);
            proof {
                assert(self.log@ =~= bounded_log_push(old(self).log@, self.log@.last()));
            }
        }
    }

    /// All fields but the log, the console slots and the dose target agree
    /// between `a` and `b`.
    pub open spec fn same_but_log_and_console(a: TheracState, b: TheracState) -> bool {
        &&& a.hardware_meos == b.hardware_meos
        &&& a.reference_meos == b.reference_meos
        &&& a.hardware_params == b.hardware_params
        &&& a.reference_params == b.reference_params
        &&& a.phase == b.phase
        &&& a.data_entry_complete == b.data_entry_complete
        &&& a.f_small == b.f_small
        &&& a.class3 == b.class3
        &&& a.bending_magnet_flag == b.bending_magnet_flag
        &&& a.editing_taking_place == b.editing_taking_place
        &&& a.reset_pending == b.reset_pending
        &&& a.class3_ignore == b.class3_ignore
        &&& a.malfunction_count == b.malfunction_count
        &&& a.dose_delivered == b.dose_delivered
        &&& a.reference_dose_target == b.reference_dose_target
        &&& a.treatment_outcome == b.treatment_outcome
        &&& a.last_malfunction == b.last_malfunction
    }

    /// Current treatment phase.
    pub fn get_phase(&self) -> (r: TPhase)
        ensures
            r == self.phase,
    {
        self.phase
    }

    /// Treatment may be started exactly when setup is done.
    pub fn can_treat(&self) -> (r: bool)
        ensures
            r == (self.phase == TPhase::SetupDone),
    {
        self.phase == TPhase::SetupDone
    }

    /// Whether the hardware configuration is safe to fire.
    pub fn is_hardware_safe(&self) -> (r: bool)
        ensures
            r == self.hardware_meos.is_safe_spec(),
    {
        self.hardware_meos.is_safe()
    }

    /// Total dose delivered so far, in tenths of a cGy.
    pub fn get_dose_delivered(&self) -> (r: u64)
        ensures
            r == self.dose_delivered,
    {
        self.dose_delivered
    }

    /// Current dose target, in tenths of a cGy.
    pub fn get_dose_target(&self) -> (r: u64)
        ensures
            r == self.dose_target,
    {
        self.dose_target
    }

    /// Number of malfunctions recorded so far in this run.
    pub fn get_malfunction_count(&self) -> (r: u32)
        ensures
            r == self.malfunction_count,
    {
        self.malfunction_count
    }

    /// The message of the most recent malfunction, if any.
    pub fn get_last_malfunction(&self) -> (r: Option<String>)
        ensures
            r == self.last_malfunction,
    {
        match &self.last_malfunction {
            Some(message) => Some(message.clone()),
            None => None,
        }
    }

    /// The most recent `n` log entries, oldest first and newest last; the
    /// whole log if it holds fewer than `n` entries.
    pub fn get_log(&self, n: usize) -> (r: Vec<String>)
        ensures
            r@.len() == if n <= self.log@.len() {
                n as nat
            } else {
                self.log@.len()
            },
            r@ == self.log@.subrange(self.log@.len() - r@.len(), self.log@.len() as int),
    {
        let len = self.log.len();
        let start = if n >= len {
            0
        } else {
            len - n
        };
        let mut r: Vec<String> = Vec::new();
        let mut i = start;
        while i < len
            invariant
                start <= i <= len,
                len == self.log@.len(),
                r@ == self.log@.subrange(start as int, i as int),
            decreases len - i,
        {
            proof {
                assert(self.log@.subrange(start as int, i + 1) =~= self.log@.subrange(
                    start as int,
                    i as int,
                ).push(self.log@[i as int]));
            }
            r.push(self.log[i].clone());
            i += 1;
        }
        r
    }

    /// Set the console beam type; accepted only during data entry, and
    /// logged.
    pub fn set_beam_type(&mut self, beam_type: BeamType)
        requires
            old(self).wf(),
        ensures
            final(self).wf(),
            old(self).phase != TPhase::DataEntry ==> {
                &&& TheracState::same_but_log(*old(self), *final(self))
                &&& TheracState::logged(
                    *old(self),
                    *final(self),
                    "Beam type change ignored - not in data entry phase"@,
                )
            },
            old(self).phase == TPhase::DataEntry ==> {
                &&& final(self).console_meos.beam_type == beam_type
                &&& final(self).console_meos.beam_energy == old(self).console_meos.beam_energy
                &&& final(self).console_meos.collimator == old(self).console_meos.collimator
                &&& final(self).console_params == old(self).console_params
                &&& final(self).dose_target == old(self).dose_target
                &&& TheracState::same_but_log_and_console(*old(self), *final(self))
                &&& TheracState::logged(
                    *old(self),
                    *final(self),
                    "Beam type set to "@ + final(self).console_meos.beam_label_spec(),
                )
            },
    {
        if self.phase == TPhase::DataEntry {
            self.console_meos.beam_type = beam_type;
            let message = crate::text::compose3(
                "Beam type set to ",
                self.console_meos.beam_label(),
                "",
            );
            proof {
                reveal_strlit("");
                assert(message@ =~= "Beam type set to "@
                    + self.console_meos.beam_label_spec());
            }
            self.add_log(message);
        } else {
            self.add_log(String::from_str("Beam type change ignored - not in data entry phase"));
        }
    }

    /// Set the console beam energy; accepted only during data entry, and
    /// logged.
    pub fn set_beam_energy(&mut self, energy: BeamEnergy)
        requires
            old(self).wf(),
        ensures
            final(self).wf(),
            old(self).phase != TPhase::DataEntry ==> {
                &&& TheracState::same_but_log(*old(self), *final(self))
                &&& TheracState::logged(
                    *old(self),
                    *final(self),
                    "Beam energy change ignored - not in data entry phase"@,
                )
            },
            old(self).phase == TPhase::DataEntry ==> {
                &&& final(self).console_meos.beam_energy == energy
                &&& final(self).console_meos.beam_type == old(self).console_meos.beam_type
                &&& final(self).console_meos.collimator == old(self).console_meos.collimator
                &&& final(self).console_params == old(self).console_params
                &&& final(self).dose_target == old(self).dose_target
                &&& TheracState::same_but_log_and_console(*old(self), *final(self))
                &&& TheracState::logged(
                    *old(self),
                    *final(self),
                    "Beam energy set to "@ + final(self).console_meos.energy_label_spec(),
                )
            },
    {
        if self.phase == TPhase::DataEntry {
            self.console_meos.beam_energy = energy;
            let message = crate::text::compose3(
                "Beam energy set to ",
                self.console_meos.energy_label(),
                "",
            );
            proof {
                reveal_strlit("");
                assert(message@ =~= "Beam energy set to "@
                    + self.console_meos.energy_label_spec());
            }
            self.add_log(message);
        } else {
            self.add_log(String::from_str("Beam energy change ignored - not in data entry phase"));
        }
    }

    /// Toggle the console collimator position between in and out of the
    /// beam path; a transitioning collimator is forced in.  Logged.
    pub fn toggle_collimator(&mut self)
        requires
            old(self).wf(),
        ensures
            final(self).wf(),
            final(self).console_meos.collimator == match old(self).console_meos.collimator {
                CollimatorPosition::InPosition => CollimatorPosition::OutOfPosition,
                CollimatorPosition::OutOfPosition => CollimatorPosition::InPosition,
                CollimatorPosition::Transitioning => CollimatorPosition::InPosition,
            },
            final(self).console_meos.beam_type == old(self).console_meos.beam_type,
            final(self).console_meos.beam_energy == old(self).console_meos.beam_energy,
            final(self).console_params == old(self).console_params,
            final(self).dose_target == old(self).dose_target,
            TheracState::same_but_log_and_console(*old(self), *final(self)),
            TheracState::logged(
                *old(self),
                *final(self),
                "Collimator set to "@ + final(self).console_meos.collimator_label_spec(),
            ),
    {
        self.console_meos.collimator = match self.console_meos.collimator {
            CollimatorPosition::InPosition => CollimatorPosition::OutOfPosition,
            CollimatorPosition::OutOfPosition => CollimatorPosition::InPosition,
            CollimatorPosition::Transitioning => CollimatorPosition::InPosition,
        };
        let message = crate::text::compose3(
            "Collimator set to ",
            self.console_meos.collimator_label(),
            "",
        );
        proof {
            reveal_strlit("");
            assert(message@ =~= "Collimator set to "@
                + self.console_meos.collimator_label_spec());
        }
        self.add_log(message);
    }

    /// Set the dose target, in tenths of a cGy.  Logged.
    pub fn set_dose_target(&mut self, target: u64)
        requires
            old(self).wf(),
        ensures
            final(self).wf(),
            final(self).dose_target == target,
            final(self).console_meos == old(self).console_meos,
            final(self).console_params == old(self).console_params,
            TheracState::same_but_log_and_console(*old(self), *final(self)),
            TheracState::logged(
                *old(self),
                *final(self),
                "Dose target set to "@ + crate::text::dec_rep_tenths(target as nat) + " cGy"@,
            ),
    {
        self.dose_target = target;
        let message = crate::text::compose3(
            "Dose target set to ",
            crate::text::tenths_to_string(target).as_str(),
            " cGy",
        );
        self.add_log(message);
    }

    /// Set the console gantry angle, clamped to 360 degrees; accepted only
    /// during data entry, and logged.
    pub fn set_gantry_angle(&mut self, angle: u16)
        requires
            old(self).wf(),
        ensures
            final(self).wf(),
            old(self).phase != TPhase::DataEntry ==> {
                &&& TheracState::same_but_log(*old(self), *final(self))
                &&& TheracState::logged(
                    *old(self),
                    *final(self),
                    "Gantry angle change ignored - not in data entry phase"@,
                )
            },
            old(self).phase == TPhase::DataEntry ==> {
                &&& final(self).console_params.gantry_angle == if angle <= 360 {
                    angle
                } else {
                    360u16
                }
                &&& final(self).console_params.collimator_angle == old(
                    self,
                ).console_params.collimator_angle
                &&& final(self).console_params.field_size_x == old(
                    self,
                ).console_params.field_size_x
                &&& final(self).console_params.field_size_y == old(
                    self,
                ).console_params.field_size_y
                &&& final(self).console_params.dose_rate == old(self).console_params.dose_rate
                &&& final(self).console_meos == old(self).console_meos
                &&& final(self).dose_target == old(self).dose_target
                &&& TheracState::same_but_log_and_console(*old(self), *final(self))
                &&& TheracState::logged(
                    *old(self),
                    *final(self),
                    "Gantry angle set to "@ + crate::text::dec_rep(
                        final(self).console_params.gantry_angle as nat,
                    ) + " deg"@,
                )
            },
    {
        if self.phase == TPhase::DataEntry {
            self.console_params.gantry_angle = if angle <= 360 {
                angle
            } else {
                360
            };
            let message = crate::text::compose3(
                "Gantry angle set to ",
                crate::text::u64_to_string(self.console_params.gantry_angle as u64).as_str(),
                " deg",
            );
            self.add_log(message);
        } else {
            self.add_log(String::from_str("Gantry angle change ignored - not in data entry phase"));
        }
    }

    /// Set the console field size X in cm, clamped to 40; accepted only
    /// during data entry, and logged.
    pub fn set_field_size_x(&mut self, size: u16)
        requires
            old(self).wf(),
        ensures
            final(self).wf(),
            old(self).phase != TPhase::DataEntry ==> {
                &&& TheracState::same_but_log(*old(self), *final(self))
                &&& TheracState::logged(
                    *old(self),
                    *final(self),
                    "Field size X change ignored - not in data entry phase"@,
                )
            },
            old(self).phase == TPhase::DataEntry ==> {
                &&& final(self).console_params.field_size_x == if size <= 40 {
                    size
                } else {
                    40u16
                }
                &&& final(self).console_params.gantry_angle == old(
                    self,
                ).console_params.gantry_angle
                &&& final(self).console_params.collimator_angle == old(
                    self,
                ).console_params.collimator_angle
                &&& final(self).console_params.field_size_y == old(
                    self,
                ).console_params.field_size_y
                &&& final(self).console_params.dose_rate == old(self).console_params.dose_rate
                &&& final(self).console_meos == old(self).console_meos
                &&& final(self).dose_target == old(self).dose_target
                &&& TheracState::same_but_log_and_console(*old(self), *final(self))
                &&& TheracState::logged(
                    *old(self),
                    *final(self),
                    "Field size X set to "@ + crate::text::dec_rep(
                        final(self).console_params.field_size_x as nat,
                    ) + " cm"@,
                )
            },
    {
        if self.phase == TPhase::DataEntry {
            self.console_params.field_size_x = if size <= 40 {
                size
            } else {
                40
            };
            let message = crate::text::compose3(
                "Field size X set to ",
                crate::text::u64_to_string(self.console_params.field_size_x as u64).as_str(),
                " cm",
            );
            self.add_log(message);
        } else {
            self.add_log(String::from_str("Field size X change ignored - not in data entry phase"));
        }
    }

    /// Set the console field size Y in cm, clamped to 40; accepted only
    /// during data entry, and logged.
    pub fn set_field_size_y(&mut self, size: u16)
        requires
            old(self).wf(),
        ensures
            final(self).wf(),
            old(self).phase != TPhase::DataEntry ==> {
                &&& TheracState::same_but_log(*old(self), *final(self))
                &&& TheracState::logged(
                    *old(self),
                    *final(self),
                    "Field size Y change ignored - not in data entry phase"@,
                )
            },
            old(self).phase == TPhase::DataEntry ==> {
                &&& final(self).console_params.field_size_y == if size <= 40 {
                    size
                } else {
                    40u16
                }
                &&& final(self).console_params.gantry_angle == old(
                    self,
                ).console_params.gantry_angle
                &&& final(self).console_params.collimator_angle == old(
                    self,
                ).console_params.collimator_angle
                &&& final(self).console_params.field_size_x == old(
                    self,
                ).console_params.field_size_x
                &&& final(self).console_params.dose_rate == old(self).console_params.dose_rate
                &&& final(self).console_meos == old(self).console_meos
                &&& final(self).dose_target == old(self).dose_target
                &&& TheracState::same_but_log_and_console(*old(self), *final(self))
                &&& TheracState::logged(
                    *old(self),
                    *final(self),
                    "Field size Y set to "@ + crate::text::dec_rep(
                        final(self).console_params.field_size_y as nat,
                    ) + " cm"@,
                )
            },
    {
        if self.phase == TPhase::DataEntry {
            self.console_params.field_size_y = if size <= 40 {
                size
            } else {
                40
            };
            let message = crate::text::compose3(
                "Field size Y set to ",
                crate::text::u64_to_string(self.console_params.field_size_y as u64).as_str(),
                " cm",
            );
            self.add_log(message);
        } else {
            self.add_log(String::from_str("Field size Y change ignored - not in data entry phase"));
        }
    }

    /// Set the console dose rate in cGy/min; accepted only during data
    /// entry, and logged.
    pub fn set_dose_rate(&mut self, rate: u16)
        requires
            old(self).wf(),
        ensures
            final(self).wf(),
            old(self).phase != TPhase::DataEntry ==> {
                &&& TheracState::same_but_log(*old(self), *final(self))
                &&& TheracState::logged(
                    *old(self),
                    *final(self),
                    "Dose rate change ignored - not in data entry phase"@,
                )
            },
            old(self).phase == TPhase::DataEntry ==> {
                &&& final(self).console_params.dose_rate == rate
                &&& final(self).console_params.gantry_angle == old(
                    self,
                ).console_params.gantry_angle
                &&& final(self).console_params.collimator_angle == old(
                    self,
                ).console_params.collimator_angle
                &&& final(self).console_params.field_size_x == old(
                    self,
                ).console_params.field_size_x
                &&& final(self).console_params.field_size_y == old(
                    self,
                ).console_params.field_size_y
                &&& final(self).console_meos == old(self).console_meos
                &&& final(self).dose_target == old(self).dose_target
                &&& TheracState::same_but_log_and_console(*old(self), *final(self))
                &&& TheracState::logged(
                    *old(self),
                    *final(self),
                    "Dose rate set to "@ + crate::text::dec_rep(
                        final(self).console_params.dose_rate as nat,
                    ) + " cGy/min"@,
                )
            },
    {
        if self.phase == TPhase::DataEntry {
            self.console_params.dose_rate = rate;
            let message = crate::text::compose3(
                "Dose rate set to ",
                crate::text::u64_to_string(self.console_params.dose_rate as u64).as_str(),
                " cGy/min",
            );
            self.add_log(message);
        } else {
            self.add_log(String::from_str("Dose rate change ignored - not in data entry phase"));
        }
    }

    /// The prescribed treatment lies in the documented ranges and its
    /// configuration is safe for its beam type.
    pub open spec fn reference_plausible(self) -> bool {
        &&& self.reference_meos.is_safe_spec()
        &&& self.reference_meos.beam_type != BeamType::Undefined
        &&& self.reference_meos.collimator == crate::simulator::target_position_spec(
            self.reference_meos.beam_type,
        )
        &&& 1500 <= self.reference_dose_target <= 2500
        &&& self.reference_dose_target % 10 == 0
        &&& self.reference_params.gantry_angle < 360
        &&& self.reference_params.collimator_angle < 360
        &&& 5 <= self.reference_params.field_size_x <= 20
        &&& 5 <= self.reference_params.field_size_y <= 20
        &&& if self.reference_meos.beam_type == BeamType::XRay {
            80 <= self.reference_params.dose_rate <= 120
        } else {
            100 <= self.reference_params.dose_rate <= 200
        }
    }

    /// The transient fields hold their initial values: console cleared,
    /// phase `Reset`, no dose delivered, default dose target, no recorded
    /// malfunction message.  The cumulative malfunction counter is not a
    /// transient.
    pub open spec fn initial_transients(self) -> bool {
        &&& self.console_meos == (Meos {
            beam_type: BeamType::Undefined,
            beam_energy: BeamEnergy::E10,
            collimator: CollimatorPosition::OutOfPosition,
        })
        &&& self.console_params == (TreatmentParams {
            gantry_angle: 0,
            collimator_angle: 0,
            field_size_x: 10,
            field_size_y: 10,
            dose_rate: 100,
        })
        &&& self.phase == TPhase::Reset
        &&& !self.data_entry_complete
        &&& !self.f_small
        &&& self.class3 == 0
        &&& !self.bending_magnet_flag
        &&& !self.editing_taking_place
        &&& !self.reset_pending
        &&& !self.class3_ignore
        &&& self.dose_delivered == 0
        &&& self.dose_target == DEFAULT_DOSE_TARGET
        &&& self.treatment_outcome@ == Seq::<char>::empty()
        &&& self.last_malfunction is None
    }

    /// All fields but the log and the three reference slots agree between
    /// `a` and `b`.
    pub open spec fn same_but_log_and_reference(a: TheracState, b: TheracState) -> bool {
        &&& a.console_meos == b.console_meos
        &&& a.hardware_meos == b.hardware_meos
        &&& a.console_params == b.console_params
        &&& a.hardware_params == b.hardware_params
        &&& a.phase == b.phase
        &&& a.data_entry_complete == b.data_entry_complete
        &&& a.f_small == b.f_small
        &&& a.class3 == b.class3
        &&& a.bending_magnet_flag == b.bending_magnet_flag
        &&& a.editing_taking_place == b.editing_taking_place
        &&& a.reset_pending == b.reset_pending
        &&& a.class3_ignore == b.class3_ignore
        &&& a.malfunction_count == b.malfunction_count
        &&& a.dose_delivered == b.dose_delivered
        &&& a.dose_target == b.dose_target
        &&& a.treatment_outcome == b.treatment_outcome
        &&& a.last_malfunction == b.last_malfunction
    }

    /// Draw a fresh prescription: a safe configuration, a dose target and
    /// mechanical parameters, each uniform in its documented range.
    fn draw_reference() -> (r: (Meos, u64, TreatmentParams))
        ensures
            r.0.is_safe_spec(),
            r.0.beam_type != BeamType::Undefined,
            r.0.collimator == crate::simulator::target_position_spec(r.0.beam_type),
            1500 <= r.1 <= 2500,
            r.1 % 10 == 0,
            r.2.gantry_angle < 360,
            r.2.collimator_angle < 360,
            5 <= r.2.field_size_x <= 20,
            5 <= r.2.field_size_y <= 20,
            if r.0.beam_type == BeamType::XRay {
                80 <= r.2.dose_rate <= 120
            } else {
                100 <= r.2.dose_rate <= 200
            },
    {
        let meos = crate::simulator::generate_random_parameters();
        let dose_cgy: u64 = crate::entropy::draw(150, 251);
        let gantry: u64 = crate::entropy::draw(0, 360);
        let collimator_angle: u64 = crate::entropy::draw(0, 360);
        let field_x: u64 = crate::entropy::draw(5, 21);
        let field_y: u64 = crate::entropy::draw(5, 21);
        let rate: u64 = if meos.beam_type == BeamType::XRay {
            crate::entropy::draw(80, 121)
        } else {
            crate::entropy::draw(100, 201)
        };
        let params = TreatmentParams {
            gantry_angle: gantry as u16,
            collimator_angle: collimator_angle as u16,
            field_size_x: field_x as u16,
            field_size_y: field_y as u16,
            dose_rate: rate as u16,
        };
        (meos, dose_cgy * 10, params)
    }

    /// Allocate a fresh treatment state with a randomized prescription.
    pub fn new() -> (r: Self)
        ensures
            r.wf(),
            r.initial_transients(),
            r.reference_plausible(),
            r.hardware_meos == (Meos {
                beam_type: BeamType::Undefined,
                beam_energy: BeamEnergy::E10,
                collimator: CollimatorPosition::OutOfPosition,
            }),
            r.hardware_params == (TreatmentParams {
                gantry_angle: 0,
                collimator_angle: 0,
                field_size_x: 10,
                field_size_y: 10,
                dose_rate: 100,
            }),
            r.malfunction_count == 0,
            r.log@.len() == 0,
    {
        let (reference_meos, reference_dose_target, reference_params) = Self::draw_reference();
        TheracState {
            console_meos: Meos {
                beam_type: BeamType::Undefined,
                beam_energy: BeamEnergy::E10,
                collimator: CollimatorPosition::OutOfPosition,
            },
            hardware_meos: Meos {
                beam_type: BeamType::Undefined,
                beam_energy: BeamEnergy::E10,
                collimator: CollimatorPosition::OutOfPosition,
            },
            reference_meos,
            console_params: TreatmentParams {
                gantry_angle: 0,
                collimator_angle: 0,
                field_size_x: 10,
                field_size_y: 10,
                dose_rate: 100,
            },
            hardware_params: TreatmentParams {
                gantry_angle: 0,
                collimator_angle: 0,
                field_size_x: 10,
                field_size_y: 10,
                dose_rate: 100,
            },
            reference_params,
            phase: TPhase::Reset,
            data_entry_complete: false,
            f_small: false,
            class3: 0,
            bending_magnet_flag: false,
            editing_taking_place: false,
            reset_pending: false,
            class3_ignore: false,
            malfunction_count: 0,
            dose_delivered: 0,
            dose_target: DEFAULT_DOSE_TARGET,
            reference_dose_target,
            treatment_outcome: String::new(),
            log: Vec::new(),
            last_malfunction: None,
        }
    }

    /// Draw a new prescription into the reference slots and log it.
    pub fn generate_new_reference(&mut self)
        requires
            old(self).wf(),
        ensures
            final(self).wf(),
            final(self).reference_plausible(),
            TheracState::logged(
                *old(self),
                *final(self),
                prescription_message(
                    final(self).reference_meos,
                    final(self).reference_dose_target,
                    final(self).reference_params,
                ),
            ),
            TheracState::same_but_log_and_reference(*old(self), *final(self)),
    {
        let (meos, dose, params) = Self::draw_reference();
        self.reference_meos = meos;
        self.reference_dose_target = dose;
        self.reference_params = params;
        let message = build_prescription_message(&meos, dose, &params);
        self.add_log(message);
    }

    /// Reinitialize the run: clear the transient fields, keep the hardware
    /// slots and the cumulative malfunction counter, log the reset and
    /// draw a fresh prescription.
    pub fn reset(&mut self)
        requires
            old(self).wf(),
        ensures
            final(self).wf(),
            final(self).initial_transients(),
            final(self).reference_plausible(),
            final(self).malfunction_count == old(self).malfunction_count,
            final(self).hardware_meos == old(self).hardware_meos,
            final(self).hardware_params == old(self).hardware_params,
            final(self).log@.len() == if old(self).log@.len() + 2 <= LOG_CAPACITY {
                old(self).log@.len() + 2
            } else {
                LOG_CAPACITY as nat
            },
            stamped_entry(final(self).log@[final(self).log@.len() - 2]@, "System reset"@),
            stamped_entry(
                final(self).log@.last()@,
                prescription_message(
                    final(self).reference_meos,
                    final(self).reference_dose_target,
                    final(self).reference_params,
                ),
            ),
            final(self).log@ == bounded_log_push(
                bounded_log_push(old(self).log@, final(self).log@[final(self).log@.len() - 2]),
                final(self).log@.last(),
            ),
    {
        self.phase = TPhase::Reset;
        self.data_entry_complete = false;
        self.f_small = false;
        self.class3 = 0;
        self.bending_magnet_flag = false;
        self.editing_taking_place = false;
        self.reset_pending = false;
        self.class3_ignore = false;
        self.dose_delivered = 0;
        self.dose_target = DEFAULT_DOSE_TARGET;
        self.last_malfunction = None;
        self.treatment_outcome = String::new();
        self.console_meos = Meos {
            beam_type: BeamType::Undefined,
            beam_energy: BeamEnergy::E10,
            collimator: CollimatorPosition::OutOfPosition,
        };
        self.console_params = TreatmentParams {
            gantry_angle: 0,
            collimator_angle: 0,
            field_size_x: 10,
            field_size_y: 10,
            dose_rate: 100,
        };
        self.add_log(String::from_str("System reset"));
        self.generate_new_reference();
    }
}

impl Default for TheracState {
    fn default() -> (r: Self)
        ensures
            r.wf(),
            r.initial_transients(),
            r.reference_plausible(),
            r.hardware_meos == (Meos {
                beam_type: BeamType::Undefined,
                beam_energy: BeamEnergy::E10,
                collimator: CollimatorPosition::OutOfPosition,
            }),
            r.hardware_params == (TreatmentParams {
                gantry_angle: 0,
                collimator_angle: 0,
                field_size_x: 10,
                field_size_y: 10,
                dose_rate: 100,
            }),
            r.malfunction_count == 0,
            r.log@.len() == 0,
    {
        Self::new()
    }
}

} // verus!
