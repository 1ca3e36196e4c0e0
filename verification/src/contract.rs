//! The vault's operations: each takes the record as it was loaded and leaves
//! it as it is to be stored.

use crate::errors::CustomContractError;
use crate::msg::{ExecuteMsg, InstantiateMsg, QueryMsg, Response, TOTPResponse};
use crate::state::{ContractState, Record, Service, State};
use crate::totp::{
    counter, derive_code, is_six_digit_code, lemma_code_shape, lemma_same_step_same_code, totp_code,
};
use vstd::prelude::*;
use vstd::string::*;
use vstd::utf8::encode_utf8;

verus! {

/// What a reset reports: one attribute that names the action.
pub open spec fn reset_report() -> Seq<(Seq<char>, Seq<char>)> {
    seq![("action"@, "reset state"@)]
}

/// What submitting a credential to `before` answers.
pub open spec fn submit_answer(before: Record) -> Result<Seq<(Seq<char>, Seq<char>)>, CustomContractError> {
    match before.submit_result() {
        Ok(_) => Ok(Seq::empty()),
        Err(e) => Err(e),
    }
}

/// What asking `record` for a code at `time` answers: the code of the
/// secret's UTF-8 bytes, where a secret is held.
pub open spec fn token_answer(record: Record, time: u64) -> Result<Seq<char>, CustomContractError> {
    match record.usable_secret() {
        Ok(secret) => Ok(totp_code(encode_utf8(secret), time)),
        Err(e) => Err(e),
    }
}

/// The answer as a value of the model: the attributes of a response, or the
/// error.
pub open spec fn answer_view(res: Result<Response, CustomContractError>) -> Result<
    Seq<(Seq<char>, Seq<char>)>,
    CustomContractError,
> {
    match res {
        Ok(response) => Ok(response@),
        Err(e) => Err(e),
    }
}

/// The token of an answer, or the error.
pub open spec fn token_view(res: Result<TOTPResponse, CustomContractError>) -> Result<
    Seq<char>,
    CustomContractError,
> {
    match res {
        Ok(response) => Ok(response.token@),
        Err(e) => Err(e),
    }
}

/// A vault in `Init` gives no code, at any time.
pub proof fn lemma_no_token_in_init(record: Record, time: u64)
    requires
        record.phase == ContractState::Init,
    ensures
        token_answer(record, time) == Err::<Seq<char>, _>(CustomContractError::SecretNotReady),
{
}

/// A vault in `Done` gives a code of six decimal digits, and the same code
/// at any two instants of one time step.
pub proof fn lemma_token_in_done(record: Record, first: u64, second: u64)
    requires
        record.phase == ContractState::Done,
    ensures
        token_answer(record, first) is Ok,
        is_six_digit_code(token_answer(record, first)->Ok_0),
        counter(first) == counter(second) ==> token_answer(record, first) == token_answer(
            record,
            second,
        ),
{
    let secret = encode_utf8(record.credential.secret);
    lemma_code_shape(secret, first);
    if counter(first) == counter(second) {
        lemma_same_step_same_code(secret, first, second);
    }
}

/// A new vault: the record to store, and the answer.
pub fn instantiate(_msg: InstantiateMsg) -> (out: (State, Response))
    ensures
        out.0@ == Record::initial(),
        out.1@ == Seq::<(Seq<char>, Seq<char>)>::empty(),
{
    (State::default(), Response::new())
}

/// Carries out a request that changes the record.
pub fn execute(state: &mut State, msg: ExecuteMsg) -> (res: Result<Response, CustomContractError>)
    ensures
        match msg {
            ExecuteMsg::SubmitSecret { name, secret } => {
                &&& final(state)@ == old(state)@.submit(name@, secret@)
                &&& answer_view(res) == submit_answer(old(state)@)
            },
            ExecuteMsg::Reset {  } => {
                &&& final(state)@ == old(state)@.reset()
                &&& answer_view(res) == Ok::<_, CustomContractError>(reset_report())
            },
        },
{
    match msg {
        ExecuteMsg::SubmitSecret { name, secret } => try_submit_secret(state, name, secret),
        ExecuteMsg::Reset {  } => try_reset(state),
    }
}

/// Carries out a request that only reads the record, at `time` in seconds
/// since the epoch.
pub fn query(state: &State, time: u64, msg: QueryMsg) -> (res: Result<
    TOTPResponse,
    CustomContractError,
>)
    ensures
        token_view(res) == token_answer(state@, time),
        res is Ok ==> is_six_digit_code(res->Ok_0.token@),
{
    match msg {
        QueryMsg::GetToken {  } => query_get_totp(state, time),
    }
}

/// Stores a credential in a vault that holds none. A vault that holds one
/// keeps it and answers `AlreadyAddedSecret`.
pub fn try_submit_secret(state: &mut State, name: String, secret: String) -> (res: Result<
    Response,
    CustomContractError,
>)
    ensures
        final(state)@ == old(state)@.submit(name@, secret@),
        answer_view(res) == submit_answer(old(state)@),
        old(state).state == ContractState::Done ==> *final(state) == *old(state),
{
    match state.state {
        ContractState::Init => {
            state.service = Service::new(name, secret);
            state.state = ContractState::Done;
        },
        ContractState::Done => {
            return Err(CustomContractError::AlreadyAddedSecret);
        },
    }
    Ok(Response::new())
}

/// Returns the vault to `Init`, from either phase. The credential stays where
/// it is and no longer counts.
pub fn try_reset(state: &mut State) -> (res: Result<Response, CustomContractError>)
    ensures
        final(state)@ == old(state)@.reset(),
        final(state).service == old(state).service,
        answer_view(res) == Ok::<_, CustomContractError>(reset_report()),
{
    state.state = ContractState::Init;
    Ok(Response::new().add_attribute("action", "reset state"))
}

/// The code of the stored secret at `time`, in seconds since the epoch. A
/// vault that holds no secret answers `SecretNotReady`.
pub fn query_get_totp(state: &State, time: u64) -> (res: Result<TOTPResponse, CustomContractError>)
    ensures
        token_view(res) == token_answer(state@, time),
        res is Ok ==> is_six_digit_code(res->Ok_0.token@),
{
    if state.state != ContractState::Done {
        return Err(CustomContractError::SecretNotReady);
    }
    let secret = state.service.secret().as_str().as_bytes();
    let resp = TOTPResponse { token: derive_code(secret, time) };
    Ok(resp)
}

} // verus!
