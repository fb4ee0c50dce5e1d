//! Who uses the service: users, and the applications that act for them.

use crate::uuids::{fresh_uuid, is_random_uuid};
use vstd::prelude::*;

verus! {

#[verifier::external_type_specification]
#[verifier::external_body]
pub struct ExFixedOffset(chrono::offset::FixedOffset);

/// The identifier of a user.
#[derive(Debug)]
pub struct UserId(pub String);

impl View for UserId {
    type V = Seq<char>;

    open spec fn view(&self) -> Seq<char> {
        self.0@
    }
}

impl UserId {
    /// The identifier as text.
    pub fn to_string(&self) -> (r: String)
        ensures
            r@ == self@,
    {
        self.0.clone()
    }

    /// A fresh random identifier.
    pub fn new() -> (r: UserId)
        ensures
            is_random_uuid(r@),
    {
        UserId(fresh_uuid())
    }
}

impl From<String> for UserId {
    fn from(v: String) -> (r: UserId) {
        UserId(v)
    }
}

impl vstd::std_specs::convert::FromSpecImpl<String> for UserId {
    open spec fn obeys_from_spec() -> bool {
        true
    }

    open spec fn from_spec(v: String) -> UserId {
        UserId(v)
    }
}

/// The identifier of an application.
#[derive(Debug)]
pub struct AppId(pub String);

impl View for AppId {
    type V = Seq<char>;

    open spec fn view(&self) -> Seq<char> {
        self.0@
    }
}

impl AppId {
    /// The identifier as text.
    pub fn to_string(&self) -> (r: String)
        ensures
            r@ == self@,
    {
        self.0.clone()
    }

    /// A fresh random identifier.
    pub fn new() -> (r: AppId)
        ensures
            is_random_uuid(r@),
    {
        AppId(fresh_uuid())
    }
}

impl From<String> for AppId {
    fn from(v: String) -> (r: AppId) {
        AppId(v)
    }
}

impl vstd::std_specs::convert::FromSpecImpl<String> for AppId {
    open spec fn obeys_from_spec() -> bool {
        true
    }

    open spec fn from_spec(v: String) -> AppId {
        AppId(v)
    }
}

/// A user: an identifier, a mail address and, where known, a time zone.
#[derive(Debug)]
pub struct User {
    pub user_id: UserId,
    pub email: String,
    pub tz: Option<chrono::offset::FixedOffset>,
}

/// A `User` with its texts as sequences.
pub struct UserView {
    pub user_id: Seq<char>,
    pub email: Seq<char>,
    pub tz: Option<chrono::offset::FixedOffset>,
}

impl View for User {
    type V = UserView;

    open spec fn view(&self) -> UserView {
        UserView { user_id: self.user_id@, email: self.email@, tz: self.tz }
    }
}

/// An application that may ask for tokens.
#[derive(Debug)]
pub struct Application {
    pub app_id: AppId,
    pub app_secret: Option<String>,
}

} // verus!
