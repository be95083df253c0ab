//! The sender of a GitHub Enterprise event, whose LDAP distinguished name is
//! always present.

use vstd::prelude::*;
use crate::events::github::sender::{dn_person_name, person_name_of_dn};
use crate::text::opt_view;

verus! {

/// The sender of an event.
pub struct Sender {
    pub login: String,
    pub id: u64,
    pub avatar_url: String,
    pub gravatar_id: String,
    pub url: String,
    pub ldap_dn: String,
}

impl Sender {
    /// The person's name in the sender's distinguished name, if it names one
    /// (`CN=<name>,OU=`), backslashes removed.
    pub fn get_sender_name(&self) -> (r: Option<String>)
        ensures
            opt_view(r) == dn_person_name(self.ldap_dn@),
    {
        person_name_of_dn(self.ldap_dn.as_str())
    }

    /// The sender's login.
    pub fn get_login_name(&self) -> (r: &str)
        ensures
            r@ == self.login@,
    {
        self.login.as_str()
    }
}

} // verus!
