//! Closed sets of values that requests and provider metadata are made of.

use vstd::prelude::*;
use crate::iana::WireValue;

verus! {

/// How the authorization response reaches the client.
#[derive(Clone, Copy, Debug, PartialEq, Eq, Hash, Structural)]
pub enum ResponseMode {
    Query,
    Fragment,
    FormPost,
}

impl WireValue for ResponseMode {
    open spec fn name(&self) -> Seq<char> {
        match self {
            ResponseMode::Query => "query"@,
            ResponseMode::Fragment => "fragment"@,
            ResponseMode::FormPost => "form_post"@,
        }
    }

    fn as_str(&self) -> (r: &'static str) {
        match self {
            ResponseMode::Query => "query",
            ResponseMode::Fragment => "fragment",
            ResponseMode::FormPost => "form_post",
        }
    }
}

/// A way for a client to obtain tokens.
#[derive(Clone, Copy, Debug, PartialEq, Eq, Hash, Structural)]
pub enum GrantType {
    AuthorizationCode,
    RefreshToken,
    Implicit,
    ClientCredentials,
    Password,
}

impl WireValue for GrantType {
    open spec fn name(&self) -> Seq<char> {
        match self {
            GrantType::AuthorizationCode => "authorization_code"@,
            GrantType::RefreshToken => "refresh_token"@,
            GrantType::Implicit => "implicit"@,
            GrantType::ClientCredentials => "client_credentials"@,
            GrantType::Password => "password"@,
        }
    }

    fn as_str(&self) -> (r: &'static str) {
        match self {
            GrantType::AuthorizationCode => "authorization_code",
            GrantType::RefreshToken => "refresh_token",
            GrantType::Implicit => "implicit",
            GrantType::ClientCredentials => "client_credentials",
            GrantType::Password => "password",
        }
    }
}

/// How the provider shows its pages to the end user.
#[derive(Clone, Copy, Debug, PartialEq, Eq, Hash, Structural)]
pub enum Display {
    Page,
    Popup,
    Touch,
    Wap,
}

impl WireValue for Display {
    open spec fn name(&self) -> Seq<char> {
        match self {
            Display::Page => "page"@,
            Display::Popup => "popup"@,
            Display::Touch => "touch"@,
            Display::Wap => "wap"@,
        }
    }

    fn as_str(&self) -> (r: &'static str) {
        match self {
            Display::Page => "page",
            Display::Popup => "popup",
            Display::Touch => "touch",
            Display::Wap => "wap",
        }
    }
}

/// How claims about the end user are delivered.
#[derive(Clone, Copy, Debug, PartialEq, Eq, Hash, Structural)]
pub enum ClaimType {
    Normal,
    Aggregated,
    Distributed,
}

impl WireValue for ClaimType {
    open spec fn name(&self) -> Seq<char> {
        match self {
            ClaimType::Normal => "normal"@,
            ClaimType::Aggregated => "aggregated"@,
            ClaimType::Distributed => "distributed"@,
        }
    }

    fn as_str(&self) -> (r: &'static str) {
        match self {
            ClaimType::Normal => "normal",
            ClaimType::Aggregated => "aggregated",
            ClaimType::Distributed => "distributed",
        }
    }
}

/// How subject identifiers are assigned to clients.
#[derive(Clone, Copy, Debug, PartialEq, Eq, Hash, Structural)]
pub enum SubjectType {
    Public,
    Pairwise,
}

impl WireValue for SubjectType {
    open spec fn name(&self) -> Seq<char> {
        match self {
            SubjectType::Public => "public"@,
            SubjectType::Pairwise => "pairwise"@,
        }
    }

    fn as_str(&self) -> (r: &'static str) {
        match self {
            SubjectType::Public => "public",
            SubjectType::Pairwise => "pairwise",
        }
    }
}
} // verus!
