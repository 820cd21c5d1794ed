//! The security subject of a session and its default implementation.

use std::fmt::Debug;
use vstd::prelude::*;
use vstd::std_specs::cmp::PartialEqSpec;

verus! {

/// What a server may ask of an authenticated principal, whatever backs it.
///
/// A subject is immutable once it has been handed to the server: its identity
/// is a function of the value alone, so the server may keep the username as a
/// key for as long as the session lives.
pub trait UserDetail: Send + Sync + Debug {
    /// The canonical username of this subject.
    spec fn identity(&self) -> Seq<char>;

    /// Tells whether this subject's account may currently operate.
    ///
    /// A subject that does not decide otherwise is enabled.
    fn account_enabled(&self) -> (enabled: bool)
        default_ensures
            enabled,
    {
        true
    }

    /// Returns the canonical username, the same on every call.
    fn get_username(&self) -> (name: String)
        ensures
            name@ == self.identity(),
    ;

    /// Returns the text under which this subject is shown to people.
    fn display(&self) -> (text: String)
    ;
}

/// A subject that holds a username and nothing else.
#[derive(Debug)]
pub struct DefaultUser {
    /// The username, taken as it is given.
    pub username: String,
}

impl View for DefaultUser {
    type V = Seq<char>;

    open spec fn view(&self) -> Seq<char> {
        self.username@
    }
}

impl DefaultUser {
    /// The fixed text under which every default user is shown.
    pub open spec fn label() -> Seq<char> {
        "DefaultUser"@
    }
}

impl UserDetail for DefaultUser {
    open spec fn identity(&self) -> Seq<char> {
        self@
    }

    fn get_username(&self) -> (name: String)
        ensures
            name == self.username,
    {
        self.username.clone()
    }

    fn display(&self) -> (text: String)
        ensures
            text@ == DefaultUser::label(),
    {
        "DefaultUser".to_owned()
    }
}

impl PartialEq for DefaultUser {
    fn eq(&self, other: &Self) -> (same: bool) {
        self.username == other.username
    }
}

impl vstd::std_specs::cmp::PartialEqSpecImpl for DefaultUser {
    open spec fn obeys_eq_spec() -> bool {
        true
    }

    open spec fn eq_spec(&self, other: &Self) -> bool {
        self@ == other@
    }
}

/// Equality of default users is equality of their usernames, and so it is
/// reflexive, symmetric and transitive.
pub proof fn lemma_eq_is_username_equivalence(a: DefaultUser, b: DefaultUser, c: DefaultUser)
    ensures
        a.eq_spec(&b) <==> a.username@ == b.username@,
        a.eq_spec(&a),
        a.eq_spec(&b) <==> b.eq_spec(&a),
        a.eq_spec(&b) && b.eq_spec(&c) ==> a.eq_spec(&c),
{
}

} // verus!
