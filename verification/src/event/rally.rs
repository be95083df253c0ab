//! A Rally webhook event as the first generation reads it: its text field
//! always holds a value.

use vstd::prelude::*;
use crate::text::opt_str_view;

verus! {

/// A Rally webhook event.
pub struct Event {
    pub message: Message,
}

/// The transaction that made the change.
pub struct Transaction {
    pub user: User,
}

/// A Rally user.
pub struct User {
    pub username: String,
}

/// The change itself.
pub struct Message {
    pub object_id: String,
    pub object_type: String,
    pub state: State,
    pub transaction: Transaction,
}

/// The state of the changed object: its text field and its artifact field.
pub struct State {
    pub text: Text,
    pub artifact: Artifact,
}

/// The artifact field of the changed object.
pub struct Artifact {
    pub value: Option<WorkProduct>,
}

/// A work product: a user story or a defect.
pub struct WorkProduct {
    pub formatted_id: String,
    pub name: String,
}

/// The text field of the changed object.
pub struct Text {
    pub value: String,
    pub name: String,
}

impl Event {
    /// The user who made the change.
    pub open spec fn user_name_view(&self) -> Seq<char> {
        self.message.transaction.user.username@
    }

    /// The formatted identifier of the artifact, if there is one.
    pub open spec fn work_product_view(&self) -> Option<Seq<char>> {
        match self.message.state.artifact.value {
            Some(a) => Some(a.formatted_id@),
            None => None,
        }
    }

    /// The text that was written.
    pub fn get_code(&self) -> (r: Option<&str>)
        ensures
            opt_str_view(r) == Some(self.message.state.text.value@),
    {
        Some(self.message.state.text.value.as_str())
    }

    /// The user who made the change.
    pub fn get_user_name(&self) -> (r: &str)
        ensures
            r@ == self.user_name_view(),
    {
        self.message.transaction.user.username.as_str()
    }

    /// The formatted identifier of the artifact, if there is one.
    pub fn get_work_product(&self) -> (r: Option<&str>)
        ensures
            opt_str_view(r) == self.work_product_view(),
    {
        match &self.message.state.artifact.value {
            Some(a) => Some(a.formatted_id.as_str()),
            None => None,
        }
    }
}

} // verus!
