//! The record that the vault keeps: a phase and one credential.

use crate::errors::CustomContractError;
use vstd::prelude::*;
use vstd::std_specs::convert::FromSpecImpl;

verus! {

/// Whether the vault holds a usable secret.
#[derive(Clone, Copy, Debug, PartialEq, Eq, Structural)]
pub enum ContractState {
    /// No secret is held; one may be submitted.
    Init,
    /// A secret is held and codes can be derived from it.
    Done,
}

/// The phase that a number stands for: 1 for `Done`, every other for `Init`.
pub open spec fn phase_of_number(num: u8) -> ContractState {
    if num == 1 {
        ContractState::Done
    } else {
        ContractState::Init
    }
}

/// The number that stands for a phase: 0 for `Init`, 1 for `Done`.
pub open spec fn number_of_phase(state: ContractState) -> u8 {
    match state {
        ContractState::Init => 0,
        ContractState::Done => 1,
    }
}

impl Default for ContractState {
    fn default() -> (phase: Self)
        ensures
            phase == ContractState::Init,
    {
        ContractState::Init
    }
}

impl From<u8> for ContractState {
    /// 1 stands for `Done`; every other number for `Init`.
    fn from(num: u8) -> (phase: Self) {
        match num {
            1 => ContractState::Done,
            _ => ContractState::Init,
        }
    }
}

impl FromSpecImpl<u8> for ContractState {
    open spec fn obeys_from_spec() -> bool {
        true
    }

    open spec fn from_spec(num: u8) -> Self {
        phase_of_number(num)
    }
}

impl From<ContractState> for u8 {
    /// 0 for `Init`, 1 for `Done`.
    fn from(state: ContractState) -> (num: u8) {
        match state {
            ContractState::Init => 0,
            ContractState::Done => 1,
        }
    }
}

impl FromSpecImpl<ContractState> for u8 {
    open spec fn obeys_from_spec() -> bool {
        true
    }

    open spec fn from_spec(state: ContractState) -> u8 {
        number_of_phase(state)
    }
}

/// A phase survives the way through its number.
pub proof fn lemma_phase_number_round_trip(state: ContractState)
    ensures
        phase_of_number(number_of_phase(state)) == state,
{
}

/// What a credential is: a label and the shared secret, as text.
pub struct Credential {
    pub name: Seq<char>,
    pub secret: Seq<char>,
}

impl Credential {
    /// The credential of a vault that never took one.
    pub open spec fn empty() -> Credential {
        Credential { name: Seq::empty(), secret: Seq::empty() }
    }
}

/// A named secret.
#[derive(Debug, PartialEq, Eq)]
pub struct Service {
    name: String,
    secret: String,
}

impl View for Service {
    type V = Credential;

    closed spec fn view(&self) -> Credential {
        Credential { name: self.name@, secret: self.secret@ }
    }
}

impl Service {
    /// A credential of the given label and secret.
    pub fn new(name: String, secret: String) -> (service: Service)
        ensures
            service@ == (Credential { name: name@, secret: secret@ }),
    {
        return Service { name, secret }
    }

    /// The label.
    pub fn name(&self) -> (name: &String)
        ensures
            name@ == self@.name,
    {
        &self.name
    }

    /// The shared secret.
    pub fn secret(&self) -> (secret: &String)
        ensures
            secret@ == self@.secret,
    {
        &self.secret
    }
}

impl Default for Service {
    fn default() -> (service: Self)
        ensures
            service@ == Credential::empty(),
    {
        Service { name: String::new(), secret: String::new() }
    }
}

impl Clone for Service {
    fn clone(&self) -> (copy: Self)
        ensures
            copy@ == self@,
    {
        Service { name: self.name.clone(), secret: self.secret.clone() }
    }
}

/// What a record is: the phase and the credential last stored. While the
/// phase is `Init` the credential counts as unset, whatever it holds.
pub struct Record {
    pub phase: ContractState,
    pub credential: Credential,
}

impl Record {
    /// The record of a new vault.
    pub open spec fn initial() -> Record {
        Record { phase: ContractState::Init, credential: Credential::empty() }
    }

    /// A record that is `Done` holds a secret that is not empty.
    pub open spec fn wf(self) -> bool {
        self.phase == ContractState::Done ==> self.credential.secret.len() > 0
    }

    /// The record after a secret was submitted: taken in `Init`, turned down
    /// in `Done` without a change.
    pub open spec fn submit(self, name: Seq<char>, secret: Seq<char>) -> Record {
        match self.phase {
            ContractState::Init => Record {
                phase: ContractState::Done,
                credential: Credential { name, secret },
            },
            ContractState::Done => self,
        }
    }

    /// Whether a submission is taken.
    pub open spec fn submit_result(self) -> Result<(), CustomContractError> {
        match self.phase {
            ContractState::Init => Ok(()),
            ContractState::Done => Err(CustomContractError::AlreadyAddedSecret),
        }
    }

    /// The record after a reset: `Init`, with the credential left in place.
    pub open spec fn reset(self) -> Record {
        Record { phase: ContractState::Init, credential: self.credential }
    }

    /// The secret from which codes are derived, where there is one.
    pub open spec fn usable_secret(self) -> Result<Seq<char>, CustomContractError> {
        match self.phase {
            ContractState::Init => Err(CustomContractError::SecretNotReady),
            ContractState::Done => Ok(self.credential.secret),
        }
    }
}

/// Once a submission was taken the vault is `Done`, and it turns down every
/// further submission, whatever is submitted, without a change.
pub proof fn lemma_submit_is_single_shot(
    record: Record,
    name: Seq<char>,
    secret: Seq<char>,
    next_name: Seq<char>,
    next_secret: Seq<char>,
)
    requires
        record.submit_result() is Ok,
    ensures
        record.submit(name, secret).phase == ContractState::Done,
        record.submit(name, secret).credential == (Credential { name, secret }),
        record.submit(name, secret).submit_result() == Err::<(), _>(
            CustomContractError::AlreadyAddedSecret,
        ),
        record.submit(name, secret).submit(next_name, next_secret) == record.submit(name, secret),
{
}

/// A reset lands in `Init` from every record, and a submission is then taken.
pub proof fn lemma_reset_lands_in_init(record: Record)
    ensures
        record.reset().phase == ContractState::Init,
        record.reset().submit_result() is Ok,
        record.reset().usable_secret() == Err::<Seq<char>, _>(CustomContractError::SecretNotReady),
{
}

/// A credential submitted after a reset replaces the one before it whole.
pub proof fn lemma_reset_then_submit(record: Record, name: Seq<char>, secret: Seq<char>)
    ensures
        record.reset().submit(name, secret) == (Record {
            phase: ContractState::Done,
            credential: Credential { name, secret },
        }),
        record.reset().submit(name, secret).usable_secret() == Ok::<_, CustomContractError>(secret),
{
}

/// The new record is well formed, and a well-formed record stays so under a
/// reset and under the submission of a secret that is not empty.
pub proof fn lemma_wf_is_kept(record: Record, name: Seq<char>, secret: Seq<char>)
    requires
        record.wf(),
        secret.len() > 0,
    ensures
        Record::initial().wf(),
        record.reset().wf(),
        record.submit(name, secret).wf(),
{
}

/// The record as it is stored.
#[derive(Debug, PartialEq, Eq)]
pub struct State {
    pub state: ContractState,
    pub service: Service,
}

impl View for State {
    type V = Record;

    open spec fn view(&self) -> Record {
        Record { phase: self.state, credential: self.service@ }
    }
}

impl Default for State {
    fn default() -> (state: Self)
        ensures
            state@ == Record::initial(),
    {
        State { state: ContractState::Init, service: Service::default() }
    }
}

impl Clone for State {
    fn clone(&self) -> (copy: Self)
        ensures
            copy@ == self@,
    {
        State { state: self.state, service: self.service.clone() }
    }
}

} // verus!
