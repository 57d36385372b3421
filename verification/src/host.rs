//! The host's side of a call: its storage, its address rules and the response it
//! takes back. Nothing in this module is proved. Each item says which function of
//! `cosmwasm_std`, `cw_storage_plus` or `cw2` it stands for and what is taken on
//! trust about it.
//!
//! Storage is described by what can be read back from it. The settings live in the
//! item `CONFIG_KEY` as a JSON string, the polls in the map `POLLS_NAMESPACE` under
//! their question as a JSON array of question and the two tallies, and the
//! contract's name and version in the item `"contract_info"`, where `cw2` keeps
//! them. A string, a number and an array of them always have a JSON form, so a
//! write of one of these records never fails, and each reads back as written.

use crate::state::{Ledger, Poll, PollView};
use cosmwasm_std::{Empty, Env, MessageInfo, Response, StdError};
use vstd::prelude::*;

verus! {

/// The key of the item that holds the settings.
pub const CONFIG_KEY: &'static str = "config";

/// The namespace of the map that holds the polls.
pub const POLLS_NAMESPACE: &'static str = "polls";

/// `cosmwasm_std::StdError`, carried through unread.
#[verifier::external_type_specification]
#[verifier::external_body]
pub struct ExStdError(StdError);

/// `cosmwasm_std::Env`, carried through unread.
#[verifier::external_type_specification]
#[verifier::external_body]
pub struct ExEnv(Env);

/// `cosmwasm_std::MessageInfo`, carried through unread.
#[verifier::external_type_specification]
#[verifier::external_body]
pub struct ExMessageInfo(MessageInfo);

/// `cosmwasm_std::Empty`, the message type of a response that sends nothing on.
#[verifier::external_type_specification]
#[verifier::external_body]
pub struct ExEmpty(Empty);

/// `cosmwasm_std::Response`, known only by `response_attributes`,
/// `response_messages`, `response_events` and `response_data`.
#[verifier::external_type_specification]
#[verifier::external_body]
#[verifier::reject_recursive_types(T)]
pub struct ExResponse<T>(Response<T>);

/// What a state-changing call gets from the host: `cosmwasm_std::DepsMut`, with
/// the storage it may write and the address rules of the chain. The caller puts
/// the host's handle into the field; verified code never looks inside and knows
/// the storage only by `stored_version`, `stored_config` and `stored_polls`, and
/// the address rules only by `address_verdict`.
#[verifier::external_body]
pub struct HostMut<'a> {
    pub deps: cosmwasm_std::DepsMut<'a>,
}

/// What a query gets from the host: `cosmwasm_std::Deps`, with storage it may
/// only read. The caller puts the host's handle into the field; verified code
/// knows the storage only by `visible_config` and `visible_polls`.
#[verifier::external_body]
pub struct HostRef<'a> {
    pub deps: cosmwasm_std::Deps<'a>,
}

/// The contract name and version that `cw2` would read back from the storage
/// behind `host`; `None` where nothing readable is stored for them.
pub uninterp spec fn stored_version(host: HostMut) -> Option<(Seq<char>, Seq<char>)>;

/// The settings in the storage behind `host`: `None` where nothing is stored for
/// them, `Some(None)` where what is stored cannot be read as an address, else the
/// administrator's address.
pub uninterp spec fn stored_config(host: HostMut) -> Option<Option<Seq<char>>>;

/// The polls in the storage behind `host`. A question is in the domain when
/// anything at all is stored under it; its value is the poll that can be read
/// back, or `None` where what is stored cannot be read as a poll.
pub uninterp spec fn stored_polls(host: HostMut) -> Map<Seq<char>, Option<PollView>>;

/// As `stored_config`, for the storage that a query sees.
pub uninterp spec fn visible_config(host: HostRef) -> Option<Option<Seq<char>>>;

/// As `stored_polls`, for the storage that a query sees.
pub uninterp spec fn visible_polls(host: HostRef) -> Map<Seq<char>, Option<PollView>>;

/// What the host's address rules say of `human`: `None` where they accept it, else
/// the error with which they turn it down. The rules belong to the chain and do
/// not depend on what is stored.
pub uninterp spec fn address_verdict(host: HostMut, human: Seq<char>) -> Option<StdError>;

/// The attributes of a response, in order, each as key and value.
pub uninterp spec fn response_attributes(response: Response) -> Seq<(Seq<char>, Seq<char>)>;

/// How many messages a response sends on.
pub uninterp spec fn response_messages(response: Response) -> nat;

/// How many events of its own a response carries.
pub uninterp spec fn response_events(response: Response) -> nat;

/// The binary payload of a response, if it has one.
pub uninterp spec fn response_data(response: Response) -> Option<Seq<u8>>;

impl<'a> View for HostMut<'a> {
    type V = Ledger;

    open spec fn view(&self) -> Ledger {
        Ledger { config: stored_config(*self), polls: stored_polls(*self) }
    }
}

impl<'a> View for HostRef<'a> {
    type V = Ledger;

    open spec fn view(&self) -> Ledger {
        Ledger { config: visible_config(*self), polls: visible_polls(*self) }
    }
}

/// `DepsMut::as_ref`: the same storage, for reading only. What can be read
/// through the result is what is stored behind `host`.
#[verifier::external_body]
pub(crate) fn deps_as_ref<'b>(host: &'b HostMut) -> (r: HostRef<'b>)
    ensures
        visible_config(r) == stored_config(*host),
        visible_polls(r) == stored_polls(*host),
{
    HostRef { deps: host.deps.as_ref() }
}

/// `cw2::set_contract_version` on the host's storage. It writes the item
/// `"contract_info"` and nothing else, so the settings and the polls stay as they
/// are. Two strings always have a JSON form, so it returns `Ok`, and the name and
/// version read back as given.
#[verifier::external_body]
pub(crate) fn set_contract_version(host: &mut HostMut, name: &str, version: &str) -> (r: Result<
    (),
    StdError,
>)
    ensures
        r is Ok,
        stored_version(*final(host)) == Some((name@, version@)),
        stored_config(*final(host)) == stored_config(*old(host)),
        stored_polls(*final(host)) == stored_polls(*old(host)),
        forall|human: Seq<char>| #[trigger]
            address_verdict(*final(host), human) == address_verdict(*old(host), human),
{
    cw2::set_contract_version(&mut *host.deps.storage, name, version)
}

/// `Api::addr_validate` of the host. Which addresses it accepts is the chain's
/// business, and the same for every call with the same text. An accepted address
/// comes back spelled as it went in; a rejected one gives the host's error.
#[verifier::external_body]
pub(crate) fn addr_validate(host: &HostMut, human: &str) -> (r: Result<String, StdError>)
    ensures
        match address_verdict(*host, human@) {
            None => r matches Ok(address) && address@ == human@,
            Some(e) => r == Err::<String, StdError>(e),
        },
{
    match host.deps.api.addr_validate(human) {
        Ok(address) => Ok(address.into_string()),
        Err(e) => Err(e),
    }
}

/// `Item::save` of `cw_storage_plus` on the item `CONFIG_KEY`. It writes that
/// item and nothing else. A string always has a JSON form, so it returns `Ok`,
/// and the address reads back as given.
#[verifier::external_body]
pub(crate) fn config_save(host: &mut HostMut, admin_address: &String) -> (r: Result<(), StdError>)
    ensures
        r is Ok,
        stored_config(*final(host)) == Some(Some(admin_address@)),
        stored_version(*final(host)) == stored_version(*old(host)),
        stored_polls(*final(host)) == stored_polls(*old(host)),
        forall|human: Seq<char>| #[trigger]
            address_verdict(*final(host), human) == address_verdict(*old(host), human),
{
    cw_storage_plus::Item::<String>::new(CONFIG_KEY).save(&mut *host.deps.storage, admin_address)
}

/// `Item::may_load` of `cw_storage_plus` on the item `CONFIG_KEY`: `None` where
/// nothing is stored, the stored address where one can be read, an error where
/// what is stored cannot be read.
#[verifier::external_body]
pub(crate) fn config_may_load(host: &HostRef) -> (r: Result<Option<String>, StdError>)
    ensures
        match visible_config(*host) {
            None => r matches Ok(None),
            Some(Some(admin_address)) => r matches Ok(Some(loaded)) && loaded@ == admin_address,
            Some(None) => r is Err,
        },
{
    cw_storage_plus::Item::<String>::new(CONFIG_KEY).may_load(host.deps.storage)
}

/// `Map::has` of `cw_storage_plus` on the map `POLLS_NAMESPACE`: whether anything
/// is stored under `question`, readable or not.
#[verifier::external_body]
pub(crate) fn polls_has(host: &HostRef, question: &String) -> (r: bool)
    ensures
        r == visible_polls(*host).dom().contains(question@),
{
    cw_storage_plus::Map::<String, (String, u64, u64)>::new(POLLS_NAMESPACE).has(
        host.deps.storage,
        question.clone(),
    )
}

/// `Map::save` of `cw_storage_plus` on the map `POLLS_NAMESPACE`. It writes the
/// entry under `question` and nothing else. A string and two numbers always have
/// a JSON form, so it returns `Ok`, and the poll reads back as given.
#[verifier::external_body]
pub(crate) fn polls_save(host: &mut HostMut, question: String, poll: &Poll) -> (r: Result<
    (),
    StdError,
>)
    ensures
        r is Ok,
        stored_polls(*final(host)) == stored_polls(*old(host)).insert(question@, Some(poll@)),
        stored_version(*final(host)) == stored_version(*old(host)),
        stored_config(*final(host)) == stored_config(*old(host)),
        forall|human: Seq<char>| #[trigger]
            address_verdict(*final(host), human) == address_verdict(*old(host), human),
{
    cw_storage_plus::Map::<String, (String, u64, u64)>::new(POLLS_NAMESPACE).save(
        &mut *host.deps.storage,
        question,
        &(poll.question.clone(), poll.yes_votes, poll.no_votes),
    )
}

/// `Map::load` of `cw_storage_plus` on the map `POLLS_NAMESPACE`: the poll under
/// `question` where one can be read, an error where nothing is stored there or
/// what is stored cannot be read.
#[verifier::external_body]
pub(crate) fn polls_load(host: &HostRef, question: String) -> (r: Result<Poll, StdError>)
    ensures
        match visible_polls(*host).get(question@) {
            Some(Some(poll)) => r matches Ok(loaded) && loaded@ == poll,
            _ => r is Err,
        },
{
    match cw_storage_plus::Map::<String, (String, u64, u64)>::new(POLLS_NAMESPACE).load(
        host.deps.storage,
        question,
    ) {
        Ok((question, yes_votes, no_votes)) => Ok(Poll { question, yes_votes, no_votes }),
        Err(e) => Err(e),
    }
}

/// `Map::may_load` of `cw_storage_plus` on the map `POLLS_NAMESPACE`: `None`
/// where nothing is stored under `question`, the poll where one can be read, an
/// error where what is stored cannot be read.
#[verifier::external_body]
pub(crate) fn polls_may_load(host: &HostRef, question: String) -> (r: Result<
    Option<Poll>,
    StdError,
>)
    ensures
        match visible_polls(*host).get(question@) {
            None => r matches Ok(None),
            Some(Some(poll)) => r matches Ok(Some(loaded)) && loaded@ == poll,
            Some(None) => r is Err,
        },
{
    match cw_storage_plus::Map::<String, (String, u64, u64)>::new(POLLS_NAMESPACE).may_load(
        host.deps.storage,
        question,
    ) {
        Ok(Some((question, yes_votes, no_votes))) => Ok(
            Some(Poll { question, yes_votes, no_votes }),
        ),
        Ok(None) => Ok(None),
        Err(e) => Err(e),
    }
}

/// `Response::new` followed by `Response::add_attribute`: a response with the one
/// attribute and nothing else: no messages, no events, no payload. Keys that
/// begin with an underscore are the host's own.
#[verifier::external_body]
pub(crate) fn response_with_attribute(key: &str, value: &str) -> (r: Response)
    requires
        key@.len() == 0 || key@[0] != '_',
    ensures
        response_attributes(r) == seq![(key@, value@)],
        response_messages(r) == 0,
        response_events(r) == 0,
        response_data(r) is None,
{
    Response::new().add_attribute(key, value)
}

} // verus!
