use crate::state::{Poll, PollView};
use vstd::prelude::*;

verus! {

/// What the contract is set up with.
#[derive(Clone, Debug, PartialEq)]
pub struct InstantiateMsg {
    pub admin_address: String,
}

/// A state-changing request.
#[derive(Clone, Debug, PartialEq)]
pub enum ExecuteMsg {
    CreatePoll { question: String },
    Vote { question: String, choice: String },
}

/// A read-only request.
#[derive(Clone, Debug, PartialEq)]
pub enum QueryMsg {
    GetPoll { question: String },
}

/// The answer to `QueryMsg::GetPoll`: the poll, or `None` where none is stored.
#[derive(Clone, Debug, PartialEq)]
pub struct GetPollResponse {
    pub poll: Option<Poll>,
}

impl View for GetPollResponse {
    type V = Option<PollView>;

    open spec fn view(&self) -> Option<PollView> {
        match self.poll {
            Some(poll) => Some(poll@),
            None => None,
        }
    }
}

} // verus!
