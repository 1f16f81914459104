//! What a call asks of the caller that keeps the records.
//!
//! The records live in the storage of the running contract, and value moves
//! through its runtime. The ledger touches neither: a call is handed the
//! record that was read for it and answers with what is to be done, which the
//! caller then carries out as a whole or not at all.
use crate::events::Event;
use crate::record::{Colaborador, Outcome, Record};
use vstd::prelude::*;

verus! {

/// A transfer of value, as plain values.
pub struct TransferView {
    pub to: Seq<char>,
    pub amount: u128,
}

/// What a call asks of its caller, as plain values.
pub struct EffectsView {
    pub write: Option<Record>,
    pub transfer: Option<TransferView>,
    pub events: Seq<Event>,
}

/// A transfer of `amount` to the account `to`.
#[derive(Debug, PartialEq, Eq)]
pub struct Transfer {
    pub to: String,
    pub amount: u128,
}

impl View for Transfer {
    type V = TransferView;

    open spec fn view(&self) -> TransferView {
        TransferView { to: self.to@, amount: self.amount }
    }
}

/// What a call asks of its caller: a record to write under its own account,
/// a transfer to schedule, and the lines to log, in their order.
#[derive(Debug, PartialEq, Eq)]
pub struct Effects {
    pub write: Option<Colaborador>,
    pub transfer: Option<Transfer>,
    pub events: Vec<Event>,
}

impl View for Effects {
    type V = EffectsView;

    open spec fn view(&self) -> EffectsView {
        EffectsView {
            write: found_record(self.write),
            transfer: match self.transfer {
                Some(transfer) => Some(transfer@),
                None => None,
            },
            events: self.events@,
        }
    }
}

/// The record that was read, as plain values.
pub open spec fn found_record(found: Option<Colaborador>) -> Option<Record> {
    match found {
        Some(c) => Some(c@),
        None => None,
    }
}

/// What a validation round reporting `percentage` does, given the record
/// that is kept for the account.
pub open spec fn outcome_for(found: Option<Record>, percentage: u8) -> Outcome {
    match found {
        None => Outcome::UnknownCollaborator,
        Some(record) => record.outcome_of(percentage),
    }
}

/// What the registration of `account` on a positive `dataset_id` asks for:
/// a new record is written, nothing is transferred, the creation is logged.
pub open spec fn registration_effects(account: Seq<char>, dataset_id: u64) -> EffectsView {
    EffectsView {
        write: Some(Record::fresh(account, dataset_id)),
        transfer: None,
        events: seq![Event::Registered],
    }
}

/// What a validation round reporting `percentage` for `account` asks for,
/// given the record that is kept for the account: an undecided record is
/// written back with the round applied, the reward is transferred to the
/// account after the round that earned it, and the outcome is logged.
pub open spec fn validation_effects(account: Seq<char>, found: Option<Record>, percentage: u8) -> EffectsView {
    EffectsView {
        write: match found {
            Some(record) => if record.terminal() {
                None
            } else {
                Some(record.after_round(percentage))
            },
            None => None,
        },
        transfer: match outcome_for(found, percentage).owed() {
            Some(amount) => Some(TransferView { to: account, amount }),
            None => None,
        },
        events: outcome_for(found, percentage).event_seq(),
    }
}

} // verus!
