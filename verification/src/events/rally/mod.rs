//! Rally webhook events (see Rally's webhook documentation): a change to an
//! artifact's discussion, with the text that was written, the artifact it is
//! on and the user who wrote it.

pub mod handler;

use vstd::prelude::*;
use crate::msg::time_spent::TimeSpentTrait;
use crate::text::{opt_view, str_eq};

verus! {

/// A Rally webhook event.
pub struct Event {
    pub message: Message,
}

/// The transaction that made the change.
pub struct Transaction {
    pub user: User,
}

/// A Rally user.
pub struct User {
    pub username: String,
}

/// The change itself.
pub struct Message {
    pub object_id: String,
    pub object_type: String,
    pub state: State,
    pub transaction: Transaction,
    pub action: String,
}

/// The state of the changed object: its text field and its artifact field.
pub struct State {
    pub text: Text,
    pub artifact: Artifact,
}

/// The artifact field of the changed object.
pub struct Artifact {
    pub value: Option<WorkProduct>,
}

/// A work product: a user story or a defect.
pub struct WorkProduct {
    pub formatted_id: String,
    pub name: String,
}

/// The text field of the changed object.
pub struct Text {
    pub value: Option<String>,
    pub name: String,
}

impl Event {
    /// The user who made the change.
    pub fn get_user_name(&self) -> (r: &str)
        ensures
            r@ == self.message.transaction.user.username@,
    {
        self.message.transaction.user.username.as_str()
    }

    /// What happened: `Created`, `Updated`, ...
    pub fn get_action(&self) -> (r: &str)
        ensures
            r@ == self.message.action@,
    {
        self.message.action.as_str()
    }

    /// Whether the event records a creation, the only action the gateway
    /// handles.
    pub fn is_created(&self) -> (r: bool)
        ensures
            r == (self.message.action@ == "Created"@),
    {
        str_eq(self.get_action(), "Created")
    }
}

impl TimeSpentTrait for Event {
    /// Rally events are not in a repository.
    open spec fn repo_name_view(&self) -> Option<Seq<char>> {
        None
    }

    /// Rally events are not on a pull request.
    open spec fn pr_number_view(&self) -> Option<u64> {
        None
    }

    /// The user who made the change.
    open spec fn user_name_view(&self) -> Seq<char> {
        self.message.transaction.user.username@
    }

    /// The formatted identifier of the artifact, if there is one.
    open spec fn work_product_view(&self) -> Option<Seq<char>> {
        match self.message.state.artifact.value {
            Some(a) => Some(a.formatted_id@),
            None => None,
        }
    }

    /// The text that was written, if any.
    open spec fn code_view(&self) -> Option<Seq<char>> {
        opt_view(self.message.state.text.value)
    }

    /// The user who made the change.
    open spec fn login_name_view(&self) -> Seq<char> {
        self.message.transaction.user.username@
    }

    fn get_repo_name(&self) -> (r: Option<&str>) {
        None
    }

    fn get_pr_number(&self) -> (r: Option<u64>) {
        None
    }

    fn get_code(&self) -> (r: Option<&str>) {
        match &self.message.state.text.value {
            Some(t) => Some(t.as_str()),
            None => None,
        }
    }

    fn get_user_name(&self) -> (r: String) {
        self.message.transaction.user.username.clone()
    }

    fn get_work_product(&self) -> (r: Option<String>) {
        match &self.message.state.artifact.value {
            Some(a) => Some(a.formatted_id.clone()),
            None => None,
        }
    }

    fn get_login_name(&self) -> (r: &str) {
        self.message.transaction.user.username.as_str()
    }
}

} // verus!
