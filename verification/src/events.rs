//! What the ledger reports of a call, and what it owes after one.
use crate::record::{Outcome, REWARD};
use vstd::prelude::*;

verus! {

/// A line of the call's log.
#[derive(Clone, Copy, Debug, PartialEq, Eq, Structural)]
pub enum Event {
    /// A record was created.
    Registered,
    /// The account named in a validation has no record.
    UnknownCollaborator,
    /// The record named in a validation had been decided before.
    AlreadyConcluded,
    /// The collaborator passed and the reward was issued.
    RewardIssued,
    /// The collaborator failed and forfeits the stake.
    StakeForfeited,
    /// A validation round was counted.
    ValidationCompleted,
}

impl Event {
    /// The text of the log line.
    pub open spec fn text(self) -> Seq<char> {
        match self {
            Event::Registered => "Registro creado exitosamente."@,
            Event::UnknownCollaborator => "La cuenta ingresada no es el de un colaborador"@,
            Event::AlreadyConcluded => "El colaborador ya concluyó la validación, puede colaborar con otro dataset"@,
            Event::RewardIssued => "El colaborador pasó la validación, se desbloqueará los NEAR en staking y se transfiere 10 NEAR"@,
            Event::StakeForfeited => "El colaborador NO pasó la validación, pierde los NEAR en staking"@,
            Event::ValidationCompleted => "Validación completada"@,
        }
    }

    /// The text of the log line.
    pub fn message(&self) -> (r: &'static str)
        ensures
            r@ == self.text(),
    {
        match self {
            Event::Registered => "Registro creado exitosamente.",
            Event::UnknownCollaborator => "La cuenta ingresada no es el de un colaborador",
            Event::AlreadyConcluded => "El colaborador ya concluyó la validación, puede colaborar con otro dataset",
            Event::RewardIssued => "El colaborador pasó la validación, se desbloqueará los NEAR en staking y se transfiere 10 NEAR",
            Event::StakeForfeited => "El colaborador NO pasó la validación, pierde los NEAR en staking",
            Event::ValidationCompleted => "Validación completada",
        }
    }
}

impl Outcome {
    /// The log lines of a validation call with this outcome, in their order.
    pub open spec fn event_seq(self) -> Seq<Event> {
        match self {
            Outcome::UnknownCollaborator => seq![Event::UnknownCollaborator],
            Outcome::AlreadyConcluded => seq![Event::AlreadyConcluded],
            Outcome::RoundRecorded => seq![Event::ValidationCompleted],
            Outcome::Rewarded => seq![Event::RewardIssued, Event::ValidationCompleted],
            Outcome::Penalized => seq![Event::StakeForfeited, Event::ValidationCompleted],
        }
    }

    /// The amount owed to the collaborator after a call with this outcome.
    pub open spec fn owed(self) -> Option<u128> {
        if self == Outcome::Rewarded {
            Some(REWARD)
        } else {
            None
        }
    }

    /// The log lines of a validation call with this outcome, in their order.
    pub fn events(&self) -> (r: Vec<Event>)
        ensures
            r@ == self.event_seq(),
    {
        let mut lines: Vec<Event> = Vec::new();
        match self {
            Outcome::UnknownCollaborator => lines.push(Event::UnknownCollaborator),
            Outcome::AlreadyConcluded => lines.push(Event::AlreadyConcluded),
            Outcome::RoundRecorded => {},
            Outcome::Rewarded => lines.push(Event::RewardIssued),
            Outcome::Penalized => lines.push(Event::StakeForfeited),
        }
        match self {
            Outcome::UnknownCollaborator | Outcome::AlreadyConcluded => {},
            _ => lines.push(Event::ValidationCompleted),
        }
        assert(lines@ =~= self.event_seq());
        lines
    }

    /// The amount owed to the collaborator after a call with this outcome:
    /// the reward when the call decided that the collaborator passed, and
    /// nothing after any other call.
    pub fn payout(&self) -> (r: Option<u128>)
        ensures
            r == self.owed(),
    {
        match self {
            Outcome::Rewarded => Some(REWARD),
            _ => None,
        }
    }
}

} // verus!
