//! The rules of the ledger of collaborators: who may register, who may
//! report a validation round, and what each call does to a record.
//!
//! A record is created by registration, changed only by validation rounds
//! while it is undecided, and never removed. Only the administrator may
//! report a validation round. The ledger decides; it does not keep the
//! records itself and asks the runtime nothing. Each call is handed who makes
//! it and what was read for it, and answers with the [`Effects`] that its
//! caller is to carry out.
use crate::effects::{found_record, outcome_for, registration_effects, validation_effects, Effects, Transfer};
use crate::events::Event;
use crate::record::{Colaborador, Outcome, Record};
use vstd::prelude::*;

verus! {

/// The administrator of a ledger made by `Contract::default`.
pub const DEFAULT_ADMINISTRATOR: &'static str = "eber.testnet";

/// Why a call was refused. A refused call asks for nothing.
#[derive(Clone, Copy, Debug, PartialEq, Eq, Structural)]
pub enum LedgerError {
    /// An argument is outside of what the operation accepts.
    InvalidInput,
    /// The caller is not the administrator.
    Unauthorized,
}

impl LedgerError {
    /// The words with which the refusal is reported.
    pub open spec fn text(self) -> Seq<char> {
        match self {
            LedgerError::InvalidInput => "ID de dataset inválido."@,
            LedgerError::Unauthorized => "No eres el administrador, no puedes realizar la validación"@,
        }
    }

    /// The words with which the refusal is reported.
    pub fn message(&self) -> (r: &'static str)
        ensures
            r@ == self.text(),
    {
        match self {
            LedgerError::InvalidInput => "ID de dataset inválido.",
            LedgerError::Unauthorized => "No eres el administrador, no puedes realizar la validación",
        }
    }
}

/// The ledger: the administrator who may report validation rounds, and the
/// rules by which records are created and decided.
pub struct Contract {
    administrador: String,
}

impl Default for Contract {
    /// A ledger administered by [`DEFAULT_ADMINISTRATOR`].
    fn default() -> (r: Contract)
        ensures
            r.administrator() == DEFAULT_ADMINISTRATOR@,
    {
        Contract::new(DEFAULT_ADMINISTRATOR.to_owned())
    }
}

impl Contract {
    /// The account that may report validation rounds.
    pub closed spec fn administrator(&self) -> Seq<char> {
        self.administrador@
    }

    /// A ledger administered by `administrador`.
    pub fn new(administrador: String) -> (r: Contract)
        ensures
            r.administrator() == administrador@,
    {
        Contract { administrador }
    }

    /// The account that may report validation rounds.
    pub fn administrador(&self) -> (r: &String)
        ensures
            r@ == self.administrator(),
    {
        &self.administrador
    }

    /// Registers `firmante`, the account that makes the call, as a
    /// collaborator on `dataset_id`.
    ///
    /// A `dataset_id` of zero is refused with `InvalidInput`. Otherwise the
    /// call asks for a record with no rounds and no outcome to be written for
    /// the account, in the place of any record that it had, for no transfer,
    /// and for the creation to be logged.
    pub fn set_colaborador(&self, firmante: String, dataset_id: u64) -> (r: Result<Effects, LedgerError>)
        ensures
            (r is Err) == (dataset_id == 0),
            match r {
                Err(e) => e == LedgerError::InvalidInput,
                Ok(effects) => effects@ == registration_effects(firmante@, dataset_id),
            },
    {
        if dataset_id == 0 {
            return Err(LedgerError::InvalidInput);
        }
        let nuevo = Colaborador::new(firmante, dataset_id);
        let mut events: Vec<Event> = Vec::new();
        events.push(Event::Registered);
        let effects = Effects { write: Some(nuevo), transfer: None, events };
        assert(effects@.events =~= registration_effects(firmante@, dataset_id).events);
        Ok(effects)
    }

    /// A validation call by `firmante` can be answered when `found` is the
    /// record of the account that it names: a call that is refused always
    /// can, and a call of the administrator can unless the round counter of
    /// an undecided record is full.
    pub open spec fn admits(&self, firmante: Seq<char>, found: Option<Record>) -> bool {
        firmante == self.administrator() ==> match found {
            Some(record) => record.can_count(),
            None => true,
        }
    }

    /// Whether a validation call by `firmante` can be answered when `hallado`
    /// is the record of the account that it names.
    pub fn admite_validacion(&self, firmante: &String, hallado: &Option<Colaborador>) -> (r: bool)
        ensures
            r == self.admits(firmante@, found_record(*hallado)),
    {
        if !(*firmante == self.administrador) {
            return true;
        }
        match hallado {
            Some(c) => c.admite_ronda(),
            None => true,
        }
    }

    /// Reports, in the name of `firmante`, the account that makes the call, a
    /// validation round of `porc_validado` for `cuenta`, whose record, if it
    /// has one, is `hallado`.
    ///
    /// Unless `firmante` is the administrator the call is refused with
    /// `Unauthorized`, whatever it names. Otherwise the call says what the
    /// round did and asks for it to be carried out. With no record, or with a
    /// record that has been decided, nothing is to be written. An undecided
    /// record takes the round as [`Colaborador::validar`] describes and is to
    /// be written back. After the round that earned it, the reward is to be
    /// transferred to `cuenta`. The lines to log are those of
    /// [`Outcome::events`].
    pub fn set_validacion(&self, firmante: &String, cuenta: String, hallado: Option<Colaborador>, porc_validado: u8) -> (r: Result<(Outcome, Effects), LedgerError>)
        requires
            self.admits(firmante@, found_record(hallado)),
        ensures
            (r is Err) == (firmante@ != self.administrator()),
            match r {
                Err(e) => e == LedgerError::Unauthorized,
                Ok(done) => {
                    &&& done.0 == outcome_for(found_record(hallado), porc_validado)
                    &&& done.1@ == validation_effects(cuenta@, found_record(hallado), porc_validado)
                },
            },
    {
        if !(*firmante == self.administrador) {
            return Err(LedgerError::Unauthorized);
        }
        let mut outcome = Outcome::UnknownCollaborator;
        let mut write: Option<Colaborador> = None;
        match hallado {
            None => {},
            Some(c) => {
                let mut colaborador = c;
                outcome = colaborador.validar(porc_validado);
                if outcome != Outcome::AlreadyConcluded {
                    write = Some(colaborador);
                }
            },
        }
        let transfer = match outcome.payout() {
            Some(amount) => Some(Transfer { to: cuenta, amount }),
            None => None,
        };
        let events = outcome.events();
        Ok((outcome, Effects { write, transfer, events }))
    }
}

} // verus!
