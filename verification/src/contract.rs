//! The entry points: setting the contract up, creating a poll, voting, and
//! reading a poll back.

use crate::error::{ContractError, ErrorKind};
use crate::host::{
    addr_validate, address_verdict, config_may_load, config_save, deps_as_ref, polls_has,
    polls_load, polls_may_load, polls_save, response_attributes, response_data, response_events,
    response_messages, response_with_attribute, set_contract_version, stored_version, HostMut,
    HostRef,
};
use crate::msg::{ExecuteMsg, GetPollResponse, InstantiateMsg, QueryMsg};
use crate::state::{Config, Ledger, Poll};
use cosmwasm_std::{Env, MessageInfo, Response, StdError};
use vstd::prelude::*;

verus! {

/// The name under which the contract registers itself with the host.
pub const CONTRACT_NAME: &'static str = "crates.io:cosmwasm-zero-to-hero:shaunkh";

/// The version under which the contract registers itself with the host.
pub const CONTRACT_VERSION: &'static str = "0.1.0";

/// The attributes of the response to a successful call: its action, and no more.
pub open spec fn action_attributes(action: Seq<char>) -> Seq<(Seq<char>, Seq<char>)> {
    seq![("action"@, action)]
}

/// `response` is the answer to a successful `action`: the one attribute, and no
/// messages, events or payload.
pub open spec fn is_action_response(response: Response, action: Seq<char>) -> bool {
    &&& response_attributes(response) == action_attributes(action)
    &&& response_messages(response) == 0
    &&& response_events(response) == 0
    &&& response_data(response) is None
}

/// What a state-changing call leaves behind when `planned` is what the ledger
/// asks for. A planned change is made and answered with the action. A planned
/// refusal is returned as it is and nothing is written.
pub open spec fn carried_out(
    before: Ledger,
    after: Ledger,
    r: Result<Response, ContractError>,
    planned: Result<Ledger, ErrorKind>,
    action: Seq<char>,
) -> bool {
    match planned {
        Ok(next) => r matches Ok(response) && is_action_response(response, action) && after
            == next,
        Err(kind) => r matches Err(e) && e.kind_of() == kind && after == before,
    }
}

impl<'a> HostMut<'a> {
    /// The same storage, for reading only.
    pub fn as_ref(&self) -> (reader: HostRef<'_>)
        ensures
            reader@ == self@,
    {
        deps_as_ref(self)
    }
}

/// The response to a successful call: the one attribute `action`.
pub fn action_response(action: &str) -> (response: Response)
    ensures
        is_action_response(response, action@),
{
    proof {
        reveal_strlit("action");
    }
    response_with_attribute("action", action)
}

/// What the host's verdict on the administrator's address means for the call:
/// an accepted address becomes the settings, a rejected one ends the call with
/// the host's error.
pub fn validated_config(verdict: Result<String, StdError>) -> (r: Result<Config, ContractError>)
    ensures
        match verdict {
            Ok(address) => r matches Ok(config) && config.admin_address == address,
            Err(e) => r == Err::<Config, ContractError>(ContractError::InvalidAddress(e)),
        },
{
    match verdict {
        Ok(address) => Ok(Config { admin_address: address }),
        Err(e) => Err(ContractError::InvalidAddress(e)),
    }
}

/// What the host's answer to a write means for the call: a write that was made
/// is answered with `action`, an error of the host ends the call.
pub fn written(outcome: Result<(), StdError>, action: &str) -> (r: Result<Response, ContractError>)
    ensures
        match outcome {
            Ok(_) => r matches Ok(response) && is_action_response(response, action@),
            Err(e) => r == Err::<Response, ContractError>(ContractError::Storage(e)),
        },
{
    match outcome {
        Ok(_) => Ok(action_response(action)),
        Err(e) => Err(ContractError::Storage(e)),
    }
}

/// Sets the contract up: registers its name and version, has the host validate
/// the administrator's address and writes it as the settings.
///
/// The call succeeds exactly when the host accepts the address. The settings then
/// hold the address as it was given. A rejected address fails with the host's
/// error as `ContractError::InvalidAddress`, and the settings stay as they were.
/// The polls are untouched, and the name and version are registered either way.
pub fn instantiate(host: &mut HostMut, _env: Env, _info: MessageInfo, msg: InstantiateMsg) -> (r:
    Result<Response, ContractError>)
    ensures
        match address_verdict(*old(host), msg.admin_address@) {
            None => {
                &&& r matches Ok(response) && is_action_response(response, "instantiate"@)
                &&& final(host)@ == old(host)@.with_config(msg.admin_address@)
            },
            Some(e) => {
                &&& r == Err::<Response, ContractError>(ContractError::InvalidAddress(e))
                &&& final(host)@ == old(host)@
            },
        },
        stored_version(*final(host)) == Some((CONTRACT_NAME@, CONTRACT_VERSION@)),
        forall|human: Seq<char>| #[trigger]
            address_verdict(*final(host), human) == address_verdict(*old(host), human),
{
    match set_contract_version(host, CONTRACT_NAME, CONTRACT_VERSION) {
        Ok(_) => {},
        Err(e) => {
            return Err(ContractError::Storage(e));
        },
    }
    let config = match validated_config(addr_validate(host, msg.admin_address.as_str())) {
        Ok(config) => config,
        Err(e) => {
            return Err(e);
        },
    };
    written(config_save(host, &config.admin_address), "instantiate")
}

/// Carries out a state-changing request: creating a poll or casting a vote.
pub fn execute(host: &mut HostMut, env: Env, info: MessageInfo, msg: ExecuteMsg) -> (r: Result<
    Response,
    ContractError,
>)
    ensures
        match msg {
            ExecuteMsg::CreatePoll { question } => carried_out(
                old(host)@,
                final(host)@,
                r,
                old(host)@.create_poll(question@),
                "create_poll"@,
            ),
            ExecuteMsg::Vote { question, choice } => carried_out(
                old(host)@,
                final(host)@,
                r,
                old(host)@.vote(question@, choice@),
                "vote"@,
            ),
        },
        stored_version(*final(host)) == stored_version(*old(host)),
        forall|human: Seq<char>| #[trigger]
            address_verdict(*final(host), human) == address_verdict(*old(host), human),
{
    match msg {
        ExecuteMsg::CreatePoll { question } => execute_create_poll(host, env, info, question),
        ExecuteMsg::Vote { question, choice } => execute_vote(host, env, info, question, choice),
    }
}

/// Creates a poll on `question` with both tallies at zero. It succeeds exactly
/// when the question is free. A question that is already taken is refused with
/// `ErrorKind::AlreadyExists`, and the poll that holds it stays as it is.
pub fn execute_create_poll(
    host: &mut HostMut,
    _env: Env,
    _info: MessageInfo,
    question: String,
) -> (r: Result<Response, ContractError>)
    ensures
        carried_out(
            old(host)@,
            final(host)@,
            r,
            old(host)@.create_poll(question@),
            "create_poll"@,
        ),
        stored_version(*final(host)) == stored_version(*old(host)),
        forall|human: Seq<char>| #[trigger]
            address_verdict(*final(host), human) == address_verdict(*old(host), human),
{
    if polls_has(&host.as_ref(), &question) {
        return Err(ContractError::AlreadyExists);
    }
    let poll = Poll::new(question.clone());
    written(polls_save(host, question, &poll), "create_poll")
}

/// Casts one vote in the poll on `question`. The poll must exist
/// (`ErrorKind::NotFound`), then the choice must be "yes" or "no"
/// (`ErrorKind::InvalidChoice`). The tally of the choice goes up by one; a tally
/// that cannot go higher refuses the vote (`ErrorKind::Overflow`). Who votes is
/// not recorded, and nobody is kept from voting again.
pub fn execute_vote(
    host: &mut HostMut,
    _env: Env,
    _info: MessageInfo,
    question: String,
    choice: String,
) -> (r: Result<Response, ContractError>)
    ensures
        carried_out(
            old(host)@,
            final(host)@,
            r,
            old(host)@.vote(question@, choice@),
            "vote"@,
        ),
        stored_version(*final(host)) == stored_version(*old(host)),
        forall|human: Seq<char>| #[trigger]
            address_verdict(*final(host), human) == address_verdict(*old(host), human),
{
    if !polls_has(&host.as_ref(), &question) {
        return Err(ContractError::NotFound);
    }
    if !crate::state::is_valid_choice(&choice) {
        return Err(ContractError::InvalidChoice);
    }
    let mut poll = match polls_load(&host.as_ref(), question.clone()) {
        Ok(poll) => poll,
        Err(e) => {
            return Err(ContractError::Storage(e));
        },
    };
    match poll.vote(&choice) {
        Ok(_) => {},
        Err(e) => {
            return Err(e);
        },
    }
    written(polls_save(host, question, &poll), "vote")
}

/// Answers a read-only request.
pub fn query(host: HostRef, env: Env, msg: QueryMsg) -> (r: Result<GetPollResponse, ContractError>)
    ensures
        match msg {
            QueryMsg::GetPoll { question } => match host@.get_poll(question@) {
                Ok(found) => r matches Ok(response) && response@ == found,
                Err(kind) => r matches Err(e) && e.kind_of() == kind,
            },
        },
{
    match msg {
        QueryMsg::GetPoll { question } => query_get_poll(host, env, question),
    }
}

/// Reads the poll on `question`. That no such poll exists is an answer, not a
/// failure: the response then holds `None`.
pub fn query_get_poll(host: HostRef, _env: Env, question: String) -> (r: Result<
    GetPollResponse,
    ContractError,
>)
    ensures
        match host@.get_poll(question@) {
            Ok(found) => r matches Ok(response) && response@ == found,
            Err(kind) => r matches Err(e) && e.kind_of() == kind,
        },
{
    match polls_may_load(&host, question) {
        Ok(poll) => Ok(GetPollResponse { poll }),
        Err(e) => Err(ContractError::Storage(e)),
    }
}

/// Reads the settings back. Before the contract is set up there are none:
/// `ErrorKind::NotFound`.
pub fn load_config(host: HostRef) -> (r: Result<Config, ContractError>)
    ensures
        match host@.load_config() {
            Ok(admin_address) => r matches Ok(config) && config@ == admin_address,
            Err(kind) => r matches Err(e) && e.kind_of() == kind,
        },
{
    match config_may_load(&host) {
        Ok(Some(admin_address)) => Ok(Config { admin_address }),
        Ok(None) => Err(ContractError::NotFound),
        Err(e) => Err(ContractError::Storage(e)),
    }
}

} // verus!
