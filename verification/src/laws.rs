//! What holds of every record and of every ledger.
//!
//! Each law is stated over the functions with which the operations state
//! their own results: [`Record::after_round`] and [`Record::outcome_of`] for
//! a record, [`registration_effects`] and [`validation_effects`] for what a
//! call asks for, and [`registered`], [`validated`], [`outcome`] and
//! [`lookup`] for the ledger that results when it is carried out.
use crate::effects::{outcome_for, registration_effects, validation_effects, TransferView};
use crate::keys::lemma_place;
use crate::model::{accounts, all_well_formed, knows, lemma_lookup_is_member, lemma_lookup_with_record, lookup, outcome, registered, validated};
use crate::record::{Outcome, Record, PASS_PERCENTAGE, REQUIRED_ROUNDS, REWARD};
use vstd::prelude::*;

verus! {

/// A new record on a positive dataset is well-formed, and an account that
/// registers on a positive dataset is then found with exactly that record: no
/// rounds, no percentage, no outcome, and the dataset given. The registration
/// asks for no transfer.
pub proof fn law_register_then_get(s: Seq<Record>, account: Seq<char>, dataset_id: u64)
    requires
        dataset_id > 0,
    ensures
        Record::fresh(account, dataset_id).well_formed(),
        lookup(registered(s, account, dataset_id), account) == Some(
            Record {
                account,
                dataset_id,
                rounds: 0,
                percentage: 0,
                rewarded: false,
                penalized: false,
            },
        ),
        registration_effects(account, dataset_id).transfer.is_none(),
{
    lemma_lookup_with_record(s, Record::fresh(account, dataset_id), account);
}

/// A registration on dataset zero leaves the ledger as it was.
pub proof fn law_register_zero(s: Seq<Record>, account: Seq<char>)
    ensures
        registered(s, account, 0) == s,
{
}

/// A registration replaces or adds one record: the ledger keeps its length
/// when the account was known and grows by one record when it was not, and
/// the record of every other account stays as it was.
pub proof fn law_register_touches_one(s: Seq<Record>, account: Seq<char>, dataset_id: u64, other: Seq<char>)
    requires
        other != account,
    ensures
        lookup(registered(s, account, dataset_id), other) == lookup(s, other),
        registered(s, account, dataset_id).len() == if dataset_id > 0 && !knows(s, account) {
            s.len() + 1
        } else {
            s.len()
        },
{
    if dataset_id > 0 {
        lemma_lookup_with_record(s, Record::fresh(account, dataset_id), other);
        if knows(s, account) {
            lemma_place(accounts(s), account);
        }
    }
}

/// The two outcome flags of a well-formed record are never both set, and one
/// of them is set exactly when the required rounds have been counted. Such a
/// record can always take a validation round.
pub proof fn law_flags_exclusive(record: Record)
    requires
        record.well_formed(),
    ensures
        !(record.rewarded && record.penalized),
        record.terminal() <==> record.rounds == REQUIRED_ROUNDS,
        record.can_count(),
{
}

/// A validation round never changes the account or the dataset of a record,
/// never clears an outcome flag, and keeps a well-formed record well-formed.
pub proof fn law_round_preserves(record: Record, percentage: u8)
    ensures
        record.after_round(percentage).account == record.account,
        record.after_round(percentage).dataset_id == record.dataset_id,
        record.rewarded ==> record.after_round(percentage).rewarded,
        record.penalized ==> record.after_round(percentage).penalized,
        record.well_formed() ==> record.after_round(percentage).well_formed(),
{
}

/// A validation round on an undecided, well-formed record counts exactly one
/// round and stores the percentage reported.
pub proof fn law_round_counts_one(record: Record, percentage: u8)
    requires
        record.well_formed(),
        !record.terminal(),
    ensures
        record.after_round(percentage).rounds == record.rounds + 1,
        record.after_round(percentage).percentage == percentage,
        record.outcome_of(percentage) != Outcome::AlreadyConcluded,
        record.outcome_of(percentage) != Outcome::UnknownCollaborator,
{
}

/// A validation round on a decided record is refused as concluded and leaves
/// every field of the record as it was: the call asks for nothing to be
/// written and for no transfer.
pub proof fn law_decided_is_final(account: Seq<char>, record: Record, percentage: u8)
    requires
        record.terminal(),
    ensures
        record.after_round(percentage) == record,
        record.outcome_of(percentage) == Outcome::AlreadyConcluded,
        validation_effects(account, Some(record), percentage).write.is_none(),
        validation_effects(account, Some(record), percentage).transfer.is_none(),
{
}

/// A validation call asks for a transfer exactly when its round earned the
/// reward, and then for one transfer of the reward to the account validated.
pub proof fn law_transfer_only_for_reward(account: Seq<char>, found: Option<Record>, percentage: u8)
    ensures
        validation_effects(account, found, percentage).transfer == if outcome_for(found, percentage)
            == Outcome::Rewarded {
            Some(TransferView { to: account, amount: REWARD })
        } else {
            None
        },
{
}

/// Three validation rounds decide a new record, by the percentage of the
/// third alone: the first two rounds are only counted, the third rewards the
/// collaborator when its percentage reaches the pass mark and penalizes the
/// collaborator otherwise. One transfer of the reward is asked for after the
/// third round of a collaborator who passed, and none after any other round.
pub proof fn law_third_round_decides(account: Seq<char>, dataset_id: u64, first: u8, second: u8, third: u8)
    ensures
        ({
            let r0 = Record::fresh(account, dataset_id);
            let r1 = r0.after_round(first);
            let r2 = r1.after_round(second);
            let r3 = r2.after_round(third);
            &&& r0.outcome_of(first) == Outcome::RoundRecorded
            &&& r1.outcome_of(second) == Outcome::RoundRecorded
            &&& r2.outcome_of(third) == if third >= PASS_PERCENTAGE {
                Outcome::Rewarded
            } else {
                Outcome::Penalized
            }
            &&& validation_effects(account, Some(r0), first).write == Some(r1)
            &&& validation_effects(account, Some(r1), second).write == Some(r2)
            &&& validation_effects(account, Some(r2), third).write == Some(r3)
            &&& validation_effects(account, Some(r0), first).transfer.is_none()
            &&& validation_effects(account, Some(r1), second).transfer.is_none()
            &&& validation_effects(account, Some(r2), third).transfer == if third >= PASS_PERCENTAGE {
                Some(TransferView { to: account, amount: REWARD })
            } else {
                None
            }
            &&& r3.rounds == 3
            &&& r3.percentage == third
            &&& r3.rewarded == (third >= PASS_PERCENTAGE)
            &&& r3.penalized == (third < PASS_PERCENTAGE)
            &&& r3.account == account
            &&& r3.dataset_id == dataset_id
        }),
{
}

/// A validation round for a known account changes the record of that account
/// as a round changes a record, and reports what the round did to it.
pub proof fn law_validate_known(s: Seq<Record>, account: Seq<char>, percentage: u8)
    requires
        knows(s, account),
    ensures
        lookup(validated(s, account, percentage), account) == Some(
            lookup(s, account).unwrap().after_round(percentage),
        ),
        outcome(s, account, percentage) == lookup(s, account).unwrap().outcome_of(percentage),
        validated(s, account, percentage).len() == s.len(),
{
    let record = lookup(s, account).unwrap();
    lemma_lookup_is_member(s, account);
    if !record.terminal() {
        lemma_lookup_with_record(s, record.after_round(percentage), account);
    }
}

/// A validation round for an account whose record is decided leaves the
/// whole ledger as it was.
pub proof fn law_validate_decided(s: Seq<Record>, account: Seq<char>, percentage: u8)
    requires
        knows(s, account),
        lookup(s, account).unwrap().terminal(),
    ensures
        validated(s, account, percentage) == s,
        outcome(s, account, percentage) == Outcome::AlreadyConcluded,
{
}

/// A validation round for an account without a record asks for nothing to be
/// written and for no transfer: it leaves the whole ledger as it was and
/// creates no record.
pub proof fn law_validate_unknown(s: Seq<Record>, account: Seq<char>, percentage: u8)
    requires
        !knows(s, account),
    ensures
        validation_effects(account, lookup(s, account), percentage).write.is_none(),
        validation_effects(account, lookup(s, account), percentage).transfer.is_none(),
        validated(s, account, percentage) == s,
        !knows(validated(s, account, percentage), account),
        outcome(s, account, percentage) == Outcome::UnknownCollaborator,
{
}

/// A validation round for one account leaves the record of every other
/// account as it was.
pub proof fn law_validate_touches_one(s: Seq<Record>, account: Seq<char>, percentage: u8, other: Seq<char>)
    requires
        other != account,
    ensures
        lookup(validated(s, account, percentage), other) == lookup(s, other),
{
    if knows(s, account) {
        let record = lookup(s, account).unwrap();
        lemma_lookup_is_member(s, account);
        if !record.terminal() {
            lemma_lookup_with_record(s, record.after_round(percentage), other);
        }
    }
}

/// Registration and validation keep every record of the ledger well-formed:
/// in a ledger that the operations have made, no record ever has both
/// outcome flags set or more rounds than are required.
pub proof fn law_ledger_stays_well_formed(s: Seq<Record>, account: Seq<char>, dataset_id: u64, percentage: u8)
    requires
        all_well_formed(s),
    ensures
        all_well_formed(registered(s, account, dataset_id)),
        all_well_formed(validated(s, account, percentage)),
{
    if knows(s, account) {
        lemma_lookup_is_member(s, account);
    }
}

} // verus!
