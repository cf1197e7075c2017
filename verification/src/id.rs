//! Strongly typed Twitch identifiers.
//!
//! `BroadcasterId` and `UserId` intentionally remain distinct even though
//! Twitch uses the same identifier class underneath: converting between them
//! is always explicit.

use vstd::prelude::*;
use vstd::std_specs::convert::FromSpec;
use vstd::string::*;

verus! {

/// Twitch user identifier.
#[derive(Debug, PartialEq, Eq, Hash)]
pub struct UserId(String);

impl View for UserId {
    type V = Seq<char>;

    closed spec fn view(&self) -> Seq<char> {
        self.0@
    }
}

impl Clone for UserId {
    fn clone(&self) -> (r: Self)
        ensures
            r == *self,
    {
        UserId(self.0.clone())
    }
}

impl UserId {
    /// Creates a new identifier from borrowed text.
    pub fn new(value: &str) -> (r: Self)
        ensures
            r@ == value@,
    {
        UserId(String::from_str(value))
    }

    /// Creates a new identifier from an owned string.
    pub fn from_string(value: String) -> (r: Self)
        ensures
            r@ == value@,
    {
        UserId(value)
    }

    /// Returns the raw identifier string.
    pub fn as_str(&self) -> (r: &str)
        ensures
            r@ == self@,
    {
        self.0.as_str()
    }

    /// Consumes the wrapper and returns the raw identifier string.
    pub fn into_inner(self) -> (r: String)
        ensures
            r@ == self@,
    {
        self.0
    }

    /// The display form of the identifier: its raw text.
    pub fn to_string(&self) -> (r: String)
        ensures
            r@ == self@,
    {
        self.0.clone()
    }

    /// Whether two identifiers hold the same text.
    pub fn same_as(&self, other: &Self) -> (r: bool)
        ensures
            r == (self@ == other@),
    {
        self.0 == other.0
    }
}

/// Twitch broadcaster identifier.
#[derive(Debug, PartialEq, Eq, Hash)]
pub struct BroadcasterId(String);

impl View for BroadcasterId {
    type V = Seq<char>;

    closed spec fn view(&self) -> Seq<char> {
        self.0@
    }
}

impl Clone for BroadcasterId {
    fn clone(&self) -> (r: Self)
        ensures
            r == *self,
    {
        BroadcasterId(self.0.clone())
    }
}

impl BroadcasterId {
    /// Creates a new identifier from borrowed text.
    pub fn new(value: &str) -> (r: Self)
        ensures
            r@ == value@,
    {
        BroadcasterId(String::from_str(value))
    }

    /// Creates a new identifier from an owned string.
    pub fn from_string(value: String) -> (r: Self)
        ensures
            r@ == value@,
    {
        BroadcasterId(value)
    }

    /// Returns the raw identifier string.
    pub fn as_str(&self) -> (r: &str)
        ensures
            r@ == self@,
    {
        self.0.as_str()
    }

    /// Consumes the wrapper and returns the raw identifier string.
    pub fn into_inner(self) -> (r: String)
        ensures
            r@ == self@,
    {
        self.0
    }

    /// The display form of the identifier: its raw text.
    pub fn to_string(&self) -> (r: String)
        ensures
            r@ == self@,
    {
        self.0.clone()
    }

    /// Whether two identifiers hold the same text.
    pub fn same_as(&self, other: &Self) -> (r: bool)
        ensures
            r == (self@ == other@),
    {
        self.0 == other.0
    }
}

/// Twitch application client identifier.
#[derive(Debug, PartialEq, Eq, Hash)]
pub struct ClientId(String);

impl View for ClientId {
    type V = Seq<char>;

    closed spec fn view(&self) -> Seq<char> {
        self.0@
    }
}

impl Clone for ClientId {
    fn clone(&self) -> (r: Self)
        ensures
            r == *self,
    {
        ClientId(self.0.clone())
    }
}

impl ClientId {
    /// Creates a new identifier from borrowed text.
    pub fn new(value: &str) -> (r: Self)
        ensures
            r@ == value@,
    {
        ClientId(String::from_str(value))
    }

    /// Creates a new identifier from an owned string.
    pub fn from_string(value: String) -> (r: Self)
        ensures
            r@ == value@,
    {
        ClientId(value)
    }

    /// Returns the raw identifier string.
    pub fn as_str(&self) -> (r: &str)
        ensures
            r@ == self@,
    {
        self.0.as_str()
    }

    /// Consumes the wrapper and returns the raw identifier string.
    pub fn into_inner(self) -> (r: String)
        ensures
            r@ == self@,
    {
        self.0
    }

    /// The display form of the identifier: its raw text.
    pub fn to_string(&self) -> (r: String)
        ensures
            r@ == self@,
    {
        self.0.clone()
    }

    /// Whether two identifiers hold the same text.
    pub fn same_as(&self, other: &Self) -> (r: bool)
        ensures
            r == (self@ == other@),
    {
        self.0 == other.0
    }
}

/// EventSub subscription identifier.
#[derive(Debug, PartialEq, Eq, Hash)]
pub struct SubscriptionId(String);

impl View for SubscriptionId {
    type V = Seq<char>;

    closed spec fn view(&self) -> Seq<char> {
        self.0@
    }
}

impl Clone for SubscriptionId {
    fn clone(&self) -> (r: Self)
        ensures
            r == *self,
    {
        SubscriptionId(self.0.clone())
    }
}

impl SubscriptionId {
    /// Creates a new identifier from borrowed text.
    pub fn new(value: &str) -> (r: Self)
        ensures
            r@ == value@,
    {
        SubscriptionId(String::from_str(value))
    }

    /// Creates a new identifier from an owned string.
    pub fn from_string(value: String) -> (r: Self)
        ensures
            r@ == value@,
    {
        SubscriptionId(value)
    }

    /// Returns the raw identifier string.
    pub fn as_str(&self) -> (r: &str)
        ensures
            r@ == self@,
    {
        self.0.as_str()
    }

    /// Consumes the wrapper and returns the raw identifier string.
    pub fn into_inner(self) -> (r: String)
        ensures
            r@ == self@,
    {
        self.0
    }

    /// The display form of the identifier: its raw text.
    pub fn to_string(&self) -> (r: String)
        ensures
            r@ == self@,
    {
        self.0.clone()
    }

    /// Whether two identifiers hold the same text.
    pub fn same_as(&self, other: &Self) -> (r: bool)
        ensures
            r == (self@ == other@),
    {
        self.0 == other.0
    }
}

/// EventSub message identifier.
#[derive(Debug, PartialEq, Eq, Hash)]
pub struct MessageId(String);

impl View for MessageId {
    type V = Seq<char>;

    closed spec fn view(&self) -> Seq<char> {
        self.0@
    }
}

impl Clone for MessageId {
    fn clone(&self) -> (r: Self)
        ensures
            r == *self,
    {
        MessageId(self.0.clone())
    }
}

impl MessageId {
    /// Creates a new identifier from borrowed text.
    pub fn new(value: &str) -> (r: Self)
        ensures
            r@ == value@,
    {
        MessageId(String::from_str(value))
    }

    /// Creates a new identifier from an owned string.
    pub fn from_string(value: String) -> (r: Self)
        ensures
            r@ == value@,
    {
        MessageId(value)
    }

    /// Returns the raw identifier string.
    pub fn as_str(&self) -> (r: &str)
        ensures
            r@ == self@,
    {
        self.0.as_str()
    }

    /// Consumes the wrapper and returns the raw identifier string.
    pub fn into_inner(self) -> (r: String)
        ensures
            r@ == self@,
    {
        self.0
    }

    /// The display form of the identifier: its raw text.
    pub fn to_string(&self) -> (r: String)
        ensures
            r@ == self@,
    {
        self.0.clone()
    }

    /// Whether two identifiers hold the same text.
    pub fn same_as(&self, other: &Self) -> (r: bool)
        ensures
            r == (self@ == other@),
    {
        self.0 == other.0
    }
}

/// Twitch chat channel identifier.
#[derive(Debug, PartialEq, Eq, Hash)]
pub struct ChannelId(String);

impl View for ChannelId {
    type V = Seq<char>;

    closed spec fn view(&self) -> Seq<char> {
        self.0@
    }
}

impl Clone for ChannelId {
    fn clone(&self) -> (r: Self)
        ensures
            r == *self,
    {
        ChannelId(self.0.clone())
    }
}

impl ChannelId {
    /// Creates a new identifier from borrowed text.
    pub fn new(value: &str) -> (r: Self)
        ensures
            r@ == value@,
    {
        ChannelId(String::from_str(value))
    }

    /// Creates a new identifier from an owned string.
    pub fn from_string(value: String) -> (r: Self)
        ensures
            r@ == value@,
    {
        ChannelId(value)
    }

    /// Returns the raw identifier string.
    pub fn as_str(&self) -> (r: &str)
        ensures
            r@ == self@,
    {
        self.0.as_str()
    }

    /// Consumes the wrapper and returns the raw identifier string.
    pub fn into_inner(self) -> (r: String)
        ensures
            r@ == self@,
    {
        self.0
    }

    /// The display form of the identifier: its raw text.
    pub fn to_string(&self) -> (r: String)
        ensures
            r@ == self@,
    {
        self.0.clone()
    }

    /// Whether two identifiers hold the same text.
    pub fn same_as(&self, other: &Self) -> (r: bool)
        ensures
            r == (self@ == other@),
    {
        self.0 == other.0
    }
}

/// EventSub WebSocket session identifier.
#[derive(Debug, PartialEq, Eq, Hash)]
pub struct SessionId(String);

impl View for SessionId {
    type V = Seq<char>;

    closed spec fn view(&self) -> Seq<char> {
        self.0@
    }
}

impl Clone for SessionId {
    fn clone(&self) -> (r: Self)
        ensures
            r == *self,
    {
        SessionId(self.0.clone())
    }
}

impl SessionId {
    /// Creates a new identifier from borrowed text.
    pub fn new(value: &str) -> (r: Self)
        ensures
            r@ == value@,
    {
        SessionId(String::from_str(value))
    }

    /// Creates a new identifier from an owned string.
    pub fn from_string(value: String) -> (r: Self)
        ensures
            r@ == value@,
    {
        SessionId(value)
    }

    /// Returns the raw identifier string.
    pub fn as_str(&self) -> (r: &str)
        ensures
            r@ == self@,
    {
        self.0.as_str()
    }

    /// Consumes the wrapper and returns the raw identifier string.
    pub fn into_inner(self) -> (r: String)
        ensures
            r@ == self@,
    {
        self.0
    }

    /// The display form of the identifier: its raw text.
    pub fn to_string(&self) -> (r: String)
        ensures
            r@ == self@,
    {
        self.0.clone()
    }

    /// Whether two identifiers hold the same text.
    pub fn same_as(&self, other: &Self) -> (r: bool)
        ensures
            r == (self@ == other@),
    {
        self.0 == other.0
    }
}

impl UserId {
    /// Converts this user identifier into a broadcaster identifier explicitly.
    pub fn to_broadcaster_id(&self) -> (r: BroadcasterId)
        ensures
            r@ == self@,
    {
        BroadcasterId(self.0.clone())
    }
}

impl BroadcasterId {
    /// Converts this broadcaster identifier into a user identifier explicitly.
    pub fn to_user_id(&self) -> (r: UserId)
        ensures
            r@ == self@,
    {
        UserId(self.0.clone())
    }
}

impl From<UserId> for BroadcasterId {
    fn from(value: UserId) -> (r: Self)
        ensures
            r@ == value@,
    {
        BroadcasterId(value.0)
    }
}

impl vstd::std_specs::convert::FromSpecImpl<UserId> for BroadcasterId {
    open spec fn obeys_from_spec() -> bool {
        true
    }

    closed spec fn from_spec(v: UserId) -> Self {
        BroadcasterId(v.0)
    }
}

impl From<BroadcasterId> for UserId {
    fn from(value: BroadcasterId) -> (r: Self)
        ensures
            r@ == value@,
    {
        UserId(value.0)
    }
}

impl vstd::std_specs::convert::FromSpecImpl<BroadcasterId> for UserId {
    open spec fn obeys_from_spec() -> bool {
        true
    }

    closed spec fn from_spec(v: BroadcasterId) -> Self {
        UserId(v.0)
    }
}

/// Converting a user identifier to a broadcaster identifier and back gives
/// an identifier with the same text, through the explicit methods as
/// through `From`.
pub proof fn lemma_user_broadcaster_round_trip(user: UserId)
    ensures
        <BroadcasterId as FromSpec<UserId>>::from_spec(user)@ == user@,
        <UserId as FromSpec<BroadcasterId>>::from_spec(
            <BroadcasterId as FromSpec<UserId>>::from_spec(user),
        ) == user,
{
}

} // verus!
