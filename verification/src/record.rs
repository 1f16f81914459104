//! The collaborator record and its validation state machine.
//!
//! A record starts with no validation rounds. Every accepted round stores the
//! reported percentage and counts one round; the round that brings the count
//! to [`REQUIRED_ROUNDS`] decides the outcome once and for all: a reward when
//! the percentage reported in that round reaches [`PASS_PERCENTAGE`], a
//! penalty otherwise. A decided record no longer changes.
use vstd::prelude::*;

verus! {

/// Number of validation rounds after which the outcome is decided.
pub const REQUIRED_ROUNDS: u8 = 3;

/// Lowest percentage, reported in the deciding round, that earns the reward.
pub const PASS_PERCENTAGE: u8 = 90;

/// Amount transferred to a collaborator who passes the validation.
pub const REWARD: u128 = 10;

/// What a validation call did to the record it was aimed at.
#[derive(Clone, Copy, Debug, PartialEq, Eq, Structural)]
pub enum Outcome {
    /// No record is kept for the account; nothing changed.
    UnknownCollaborator,
    /// The record had already been decided; nothing changed.
    AlreadyConcluded,
    /// The round was counted and the decision is still open.
    RoundRecorded,
    /// The round was counted and decided the record: the collaborator passed.
    Rewarded,
    /// The round was counted and decided the record: the collaborator failed.
    Penalized,
}

/// Mathematical model of a collaborator record.
pub struct Record {
    pub account: Seq<char>,
    pub dataset_id: u64,
    pub rounds: u8,
    pub percentage: u8,
    pub rewarded: bool,
    pub penalized: bool,
}

impl Record {
    /// The record that registration creates.
    pub open spec fn fresh(account: Seq<char>, dataset_id: u64) -> Record {
        Record { account, dataset_id, rounds: 0, percentage: 0, rewarded: false, penalized: false }
    }

    /// A decided record: rewarded or penalized.
    pub open spec fn terminal(self) -> bool {
        self.rewarded || self.penalized
    }

    /// A validation round can be applied without leaving the range of the
    /// round counter.
    pub open spec fn can_count(self) -> bool {
        self.terminal() || self.rounds < u8::MAX
    }

    /// The round counted next is the deciding one.
    pub open spec fn decides_next(self) -> bool {
        !self.terminal() && self.rounds + 1 == REQUIRED_ROUNDS
    }

    /// The record after a validation round reporting `percentage`.
    pub open spec fn after_round(self, percentage: u8) -> Record {
        if self.terminal() {
            self
        } else {
            Record {
                account: self.account,
                dataset_id: self.dataset_id,
                rounds: (self.rounds + 1) as u8,
                percentage,
                rewarded: self.decides_next() && percentage >= PASS_PERCENTAGE,
                penalized: self.decides_next() && percentage < PASS_PERCENTAGE,
            }
        }
    }

    /// What a validation round reporting `percentage` does to the record.
    pub open spec fn outcome_of(self, percentage: u8) -> Outcome {
        if self.terminal() {
            Outcome::AlreadyConcluded
        } else if !self.decides_next() {
            Outcome::RoundRecorded
        } else if percentage >= PASS_PERCENTAGE {
            Outcome::Rewarded
        } else {
            Outcome::Penalized
        }
    }

    /// The states that registration and validation rounds can produce: a
    /// positive dataset, at most [`REQUIRED_ROUNDS`] rounds, and an outcome
    /// flag exactly when the last of them has been counted, chosen by the
    /// percentage reported in it.
    pub open spec fn well_formed(self) -> bool {
        &&& self.dataset_id > 0
        &&& self.rounds <= REQUIRED_ROUNDS
        &&& self.rewarded <==> (self.rounds == REQUIRED_ROUNDS && self.percentage >= PASS_PERCENTAGE)
        &&& self.penalized <==> (self.rounds == REQUIRED_ROUNDS && self.percentage < PASS_PERCENTAGE)
    }
}

/// A contributor tracked against one dataset.
#[derive(Debug, PartialEq, Eq)]
pub struct Colaborador {
    pub cuenta: String,
    pub dataset_id: u64,
    pub num_colaboraciones: u8,
    pub porcentaje_validado: u8,
    pub reconpensa: bool,
    pub castigo: bool,
}

impl View for Colaborador {
    type V = Record;

    open spec fn view(&self) -> Record {
        Record {
            account: self.cuenta@,
            dataset_id: self.dataset_id,
            rounds: self.num_colaboraciones,
            percentage: self.porcentaje_validado,
            rewarded: self.reconpensa,
            penalized: self.castigo,
        }
    }
}

impl Default for Colaborador {
    fn default() -> (r: Colaborador)
        ensures
            r@ == Record::fresh(Seq::empty(), 0),
    {
        Colaborador {
            cuenta: String::new(),
            dataset_id: 0,
            num_colaboraciones: 0,
            porcentaje_validado: 0,
            reconpensa: false,
            castigo: false,
        }
    }
}

impl Colaborador {
    /// A record for `cuenta` on `dataset_id` with no rounds and no outcome.
    pub fn new(cuenta: String, dataset_id: u64) -> (r: Colaborador)
        ensures
            r@ == Record::fresh(cuenta@, dataset_id),
    {
        Colaborador {
            cuenta,
            dataset_id,
            num_colaboraciones: 0,
            porcentaje_validado: 0,
            reconpensa: false,
            castigo: false,
        }
    }

    /// Whether a validation round can be applied: the record is decided, or
    /// its round counter has room for one more round.
    pub fn admite_ronda(&self) -> (r: bool)
        ensures
            r == self@.can_count(),
    {
        self.reconpensa || self.castigo || self.num_colaboraciones < u8::MAX
    }

    /// Whether the record has been decided.
    pub fn concluido(&self) -> (r: bool)
        ensures
            r == self@.terminal(),
    {
        self.reconpensa || self.castigo
    }

    /// Applies one validation round reporting `porc_validado`.
    ///
    /// A decided record is left as it is. Otherwise the percentage is stored
    /// and the round counted, and the round that completes the required
    /// number sets exactly one of the two outcome flags.
    pub fn validar(&mut self, porc_validado: u8) -> (r: Outcome)
        requires
            old(self)@.can_count(),
        ensures
            final(self)@ == old(self)@.after_round(porc_validado),
            r == old(self)@.outcome_of(porc_validado),
    {
        if self.concluido() {
            return Outcome::AlreadyConcluded;
        }
        self.porcentaje_validado = porc_validado;
        self.num_colaboraciones = self.num_colaboraciones + 1;
        if self.num_colaboraciones != REQUIRED_ROUNDS {
            return Outcome::RoundRecorded;
        }
        if self.porcentaje_validado >= PASS_PERCENTAGE {
            self.reconpensa = true;
            Outcome::Rewarded
        } else {
            self.castigo = true;
            Outcome::Penalized
        }
    }
}

} // verus!
