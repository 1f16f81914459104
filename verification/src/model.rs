//! The ledger as a mathematical object: the sequence of its records, in the
//! order in which their accounts were first registered, and what it becomes
//! when the caller carries out what a call asked for.
//!
//! The model is that of a caller who keeps one record for an account, finds
//! it by the account, writes a record in the place of the one that its
//! account had or else after all others, and hands to a validation call the
//! record that it finds for the account named.
use crate::effects::{outcome_for, registration_effects, validation_effects};
use crate::keys::{lemma_place, lemma_place_push, place};
use crate::record::{Outcome, Record};
use vstd::prelude::*;

verus! {

/// The accounts of the records, position by position.
pub open spec fn accounts(s: Seq<Record>) -> Seq<Seq<char>> {
    s.map_values(|record: Record| record.account)
}

/// A record is kept for `account`.
pub open spec fn knows(s: Seq<Record>, account: Seq<char>) -> bool {
    accounts(s).contains(account)
}

/// The record kept for `account`, if there is one.
pub open spec fn lookup(s: Seq<Record>, account: Seq<char>) -> Option<Record> {
    if knows(s, account) {
        Some(s[place(accounts(s), account)])
    } else {
        None
    }
}

/// The ledger after `record` has been written under its account: in the
/// place of the record that the account had, or at the end when it had none.
pub open spec fn with_record(s: Seq<Record>, record: Record) -> Seq<Record> {
    if knows(s, record.account) {
        s.update(place(accounts(s), record.account), record)
    } else {
        s.push(record)
    }
}

/// The ledger after the caller has written what a call asked it to write.
pub open spec fn written(s: Seq<Record>, write: Option<Record>) -> Seq<Record> {
    match write {
        Some(record) => with_record(s, record),
        None => s,
    }
}

/// The ledger after `account` asked to be registered for `dataset_id`: as it
/// was when the call was refused, and else with what the call asked to write.
pub open spec fn registered(s: Seq<Record>, account: Seq<char>, dataset_id: u64) -> Seq<Record> {
    if dataset_id == 0 {
        s
    } else {
        written(s, registration_effects(account, dataset_id).write)
    }
}

/// What a validation round reporting `percentage` for `account` finds in the
/// ledger.
pub open spec fn outcome(s: Seq<Record>, account: Seq<char>, percentage: u8) -> Outcome {
    outcome_for(lookup(s, account), percentage)
}

/// The ledger after a validation round reporting `percentage` for `account`,
/// made on the record that the ledger keeps for the account.
pub open spec fn validated(s: Seq<Record>, account: Seq<char>, percentage: u8) -> Seq<Record> {
    written(s, validation_effects(account, lookup(s, account), percentage).write)
}

/// Every record of the ledger is in a state that registration and validation
/// rounds can produce.
pub open spec fn all_well_formed(s: Seq<Record>) -> bool {
    forall|i: int| 0 <= i < s.len() ==> (#[trigger] s[i]).well_formed()
}

/// The record found for an account is a record of the ledger, and it is the
/// record of that account.
pub proof fn lemma_lookup_is_member(s: Seq<Record>, account: Seq<char>)
    requires
        knows(s, account),
    ensures
        0 <= place(accounts(s), account) < s.len(),
        lookup(s, account).unwrap().account == account,
{
    lemma_place(accounts(s), account);
}

/// Writing a record makes it the record of its account and leaves the record
/// of every other account as it was.
pub proof fn lemma_lookup_with_record(s: Seq<Record>, record: Record, account: Seq<char>)
    ensures
        lookup(with_record(s, record), account) == if account == record.account {
            Some(record)
        } else {
            lookup(s, account)
        },
{
    let t = with_record(s, record);
    if knows(s, record.account) {
        lemma_place(accounts(s), record.account);
        assert(accounts(t) =~= accounts(s));
        if account != record.account && knows(s, account) {
            lemma_place(accounts(s), account);
        }
    } else {
        assert(accounts(t) =~= accounts(s).push(record.account));
        lemma_place_push(accounts(s), record.account, account);
        if knows(s, account) {
            lemma_place(accounts(s), account);
        }
    }
}

} // verus!
