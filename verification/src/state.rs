use crate::error::{ContractError, ErrorKind};
use vstd::prelude::*;
use vstd::string::StringExecFns;

verus! {

/// The contract's settings, written once when it is set up.
#[derive(Clone, Debug, PartialEq)]
pub struct Config {
    /// The administrator's address, as the host validated it.
    pub admin_address: String,
}

/// A question with its two tallies.
#[derive(Clone, Debug, PartialEq)]
pub struct Poll {
    pub question: String,
    pub yes_votes: u64,
    pub no_votes: u64,
}

/// A poll as a mathematical value.
pub struct PollView {
    pub question: Seq<char>,
    pub yes_votes: nat,
    pub no_votes: nat,
}

impl View for Config {
    type V = Seq<char>;

    open spec fn view(&self) -> Seq<char> {
        self.admin_address@
    }
}

impl View for Poll {
    type V = PollView;

    open spec fn view(&self) -> PollView {
        PollView {
            question: self.question@,
            yes_votes: self.yes_votes as nat,
            no_votes: self.no_votes as nat,
        }
    }
}

/// What the contract keeps in the host's storage, as a mathematical value.
pub struct Ledger {
    /// The settings: `None` until they are written, `Some(None)` where what is
    /// stored cannot be read, else the administrator's address.
    pub config: Option<Option<Seq<char>>>,
    /// The polls by question. A question is in the domain when anything is stored
    /// under it; its value is `None` where what is stored cannot be read as a poll.
    pub polls: Map<Seq<char>, Option<PollView>>,
}

/// A vote counts only if it is spelled exactly "yes" or "no".
pub open spec fn valid_choice(choice: Seq<char>) -> bool {
    choice == "yes"@ || choice == "no"@
}

impl PollView {
    /// The poll as it is created: nobody has voted.
    pub open spec fn fresh(question: Seq<char>) -> PollView {
        PollView { question, yes_votes: 0, no_votes: 0 }
    }

    /// The poll after one more vote: "yes" raises the first tally by one,
    /// "no" the second, and nothing else changes.
    pub open spec fn voted(self, choice: Seq<char>) -> PollView {
        PollView {
            question: self.question,
            yes_votes: self.yes_votes + if choice == "yes"@ { 1nat } else { 0nat },
            no_votes: self.no_votes + if choice == "no"@ { 1nat } else { 0nat },
        }
    }

    /// Both tallies can be held in a record.
    pub open spec fn storable(self) -> bool {
        self.yes_votes <= u64::MAX && self.no_votes <= u64::MAX
    }
}

impl Ledger {
    /// Whether anything is stored under `question`.
    pub open spec fn has_poll(self, question: Seq<char>) -> bool {
        self.polls.dom().contains(question)
    }

    /// The ledger with `admin_address` written as the administrator.
    pub open spec fn with_config(self, admin_address: Seq<char>) -> Ledger {
        Ledger { config: Some(Some(admin_address)), polls: self.polls }
    }

    /// The ledger with `poll` written under `question`, in place of what was there.
    pub open spec fn with_poll(self, question: Seq<char>, poll: PollView) -> Ledger {
        Ledger { config: self.config, polls: self.polls.insert(question, Some(poll)) }
    }

    /// Creating a poll: refused where the question is taken, else a fresh poll is
    /// written under it.
    pub open spec fn create_poll(self, question: Seq<char>) -> Result<Ledger, ErrorKind> {
        if self.has_poll(question) {
            Err(ErrorKind::AlreadyExists)
        } else {
            Ok(self.with_poll(question, PollView::fresh(question)))
        }
    }

    /// Casting a vote. The poll must exist, then the choice must be valid; the
    /// stored poll must be readable and have room for the vote. The poll with the
    /// vote counted is then written back under the same question.
    pub open spec fn vote(self, question: Seq<char>, choice: Seq<char>) -> Result<
        Ledger,
        ErrorKind,
    > {
        if !self.has_poll(question) {
            Err(ErrorKind::NotFound)
        } else if !valid_choice(choice) {
            Err(ErrorKind::InvalidChoice)
        } else {
            match self.polls[question] {
                None => Err(ErrorKind::Storage),
                Some(poll) => if poll.voted(choice).storable() {
                    Ok(self.with_poll(question, poll.voted(choice)))
                } else {
                    Err(ErrorKind::Overflow)
                },
            }
        }
    }

    /// Reading a poll: `None` where nothing is stored under the question, the poll
    /// where one is, and a failure only where what is stored cannot be read.
    pub open spec fn get_poll(self, question: Seq<char>) -> Result<Option<PollView>, ErrorKind> {
        if !self.has_poll(question) {
            Ok(None)
        } else {
            match self.polls[question] {
                None => Err(ErrorKind::Storage),
                Some(poll) => Ok(Some(poll)),
            }
        }
    }

    /// Reading the settings: the administrator's address once it is written.
    /// Before that there is nothing to find.
    pub open spec fn load_config(self) -> Result<Seq<char>, ErrorKind> {
        match self.config {
            Some(Some(admin_address)) => Ok(admin_address),
            Some(None) => Err(ErrorKind::Storage),
            None => Err(ErrorKind::NotFound),
        }
    }
}

/// Whether `choice` is one of the two accepted spellings.
pub fn is_valid_choice(choice: &String) -> (valid: bool)
    ensures
        valid == valid_choice(choice@),
{
    *choice == String::from_str("yes") || *choice == String::from_str("no")
}

impl Poll {
    /// A poll on `question` that nobody has voted in.
    pub fn new(question: String) -> (poll: Poll)
        ensures
            poll@ == PollView::fresh(question@),
    {
        Poll { question, yes_votes: 0, no_votes: 0 }
    }

    /// Counts one vote. A choice other than "yes" or "no" is refused, and so is a
    /// vote that the tally has no room for; a refused vote leaves the poll as it was.
    pub fn vote(&mut self, choice: &String) -> (r: Result<(), ContractError>)
        ensures
            !valid_choice(choice@) ==> r == Err::<(), ContractError>(ContractError::InvalidChoice),
            valid_choice(choice@) && !old(self)@.voted(choice@).storable() ==> r == Err::<
                (),
                ContractError,
            >(ContractError::Overflow),
            valid_choice(choice@) && old(self)@.voted(choice@).storable() ==> r is Ok,
            r is Ok ==> final(self)@ == old(self)@.voted(choice@),
            r is Err ==> *final(self) == *old(self),
    {
        let yes = *choice == String::from_str("yes");
        let no = *choice == String::from_str("no");
        if !yes && !no {
            return Err(ContractError::InvalidChoice);
        }
        if yes && self.yes_votes == u64::MAX || no && self.no_votes == u64::MAX {
            return Err(ContractError::Overflow);
        }
        if yes {
            self.yes_votes = self.yes_votes + 1;
        }
        if no {
            self.no_votes = self.no_votes + 1;
        }
        Ok(())
    }
}

} // verus!
