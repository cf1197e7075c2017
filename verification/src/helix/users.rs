//! Typed `users` Helix endpoint support.

use crate::helix::client::{HelixRequestAuth, HelixResponse};
use crate::helix::error::HelixError;
use crate::id::UserId;
use crate::text::{str_trim, trim_ws};
use crate::time::Timestamp;
use vstd::prelude::*;
use vstd::string::*;

verus! {

/// Most id and login filters one `Get Users` request may carry.
pub const MAX_GET_USERS_QUERY_ITEMS: usize = 100;

/// The texts of a sequence of user identifiers.
pub open spec fn user_id_views(ids: Seq<UserId>) -> Seq<Seq<char>> {
    ids.map_values(|u: UserId| u@)
}

/// The texts of the key/value pairs of a query.
pub open spec fn query_view(pairs: Seq<(String, String)>) -> Seq<(Seq<char>, Seq<char>)> {
    pairs.map_values(|p: (String, String)| (p.0@, p.1@))
}

/// Each value paired with `key`.
pub open spec fn tagged(key: Seq<char>, values: Seq<Seq<char>>) -> Seq<(Seq<char>, Seq<char>)> {
    values.map_values(|v: Seq<char>| (key, v))
}

/// Message of the error for a request that would exceed the filter limit.
pub open spec fn capacity_message() -> Seq<char> {
    "get users request supports at most 100 combined id and login filters"@
}

/// Message of the error for an empty or white-space login.
pub open spec fn empty_login_message() -> Seq<char> {
    "get users request login values must not be empty or whitespace"@
}

/// Message of the error for an app-authorized request without filters.
pub open spec fn unfiltered_app_request_message() -> Seq<char> {
    "get users request requires at least one id or login when using app authorization"@
}

/// Typed request for the Helix `Get Users` endpoint: user ids and logins in
/// the order they were added, never more than 100 of them together.
#[derive(Clone, Debug, PartialEq, Eq)]
pub struct GetUsersRequest {
    user_ids: Vec<UserId>,
    logins: Vec<String>,
}

impl GetUsersRequest {
    /// The user ids of the request, in order.
    pub closed spec fn id_texts(&self) -> Seq<Seq<char>> {
        user_id_views(self.user_ids@)
    }

    /// The logins of the request, in order.
    pub closed spec fn login_texts(&self) -> Seq<Seq<char>> {
        self.logins@.map_values(|s: String| s@)
    }

    /// Number of filters the request carries.
    pub open spec fn filter_count(&self) -> int {
        self.id_texts().len() + self.login_texts().len() as int
    }

    /// The request holds at most 100 filters: what every constructor
    /// establishes and every method keeps.
    pub open spec fn well_formed(&self) -> bool {
        self.filter_count() <= 100
    }

    /// Creates an empty request.
    pub fn new() -> (r: Self)
        ensures
            r.well_formed(),
            r.id_texts() == Seq::<Seq<char>>::empty(),
            r.login_texts() == Seq::<Seq<char>>::empty(),
    {
        let r = GetUsersRequest { user_ids: Vec::new(), logins: Vec::new() };
        assert(r.id_texts() =~= Seq::<Seq<char>>::empty());
        assert(r.login_texts() =~= Seq::<Seq<char>>::empty());
        r
    }

    /// Succeeds when `additional` more filters would keep the request within
    /// the limit.
    fn ensure_capacity_for(&self, additional: usize) -> (r: Result<(), HelixError>)
        requires
            self.well_formed(),
            additional <= 100,
        ensures
            r is Ok <==> self.filter_count() + additional <= 100,
            r matches Err(HelixError::Request(m)) ==> m@ == capacity_message(),
            r is Err ==> r matches Err(HelixError::Request(_)),
    {
        let next_len = self.user_ids.len() + self.logins.len() + additional;
        if next_len > MAX_GET_USERS_QUERY_ITEMS {
            return Err(HelixError::Request(String::from_str("get users request supports at most 100 combined id and login filters")));
        }
        Ok(())
    }

    /// Appends a user identifier to the request; fails when the request
    /// already holds 100 filters, leaving it unchanged.
    pub fn push_user_id(&mut self, user_id: UserId) -> (r: Result<(), HelixError>)
        requires
            old(self).well_formed(),
        ensures
            r is Ok <==> old(self).filter_count() < 100,
            r is Ok ==> final(self).id_texts() == old(self).id_texts().push(user_id@)
                && final(self).login_texts() == old(self).login_texts(),
            final(self).well_formed(),
            r matches Err(e) ==> (e matches HelixError::Request(m) && m@ == capacity_message())
                && *final(self) == *old(self),
    {
        self.ensure_capacity_for(1)?;
        self.user_ids.push(user_id);
        proof {
            assert(self.id_texts() =~= old(self).id_texts().push(user_id@));
        }
        Ok(())
    }

    /// Appends a login name to the request, trimmed of surrounding white
    /// space. Fails when the request already holds 100 filters or when the
    /// login is empty after trimming, leaving the request unchanged; the
    /// limit is checked first.
    pub fn push_login(&mut self, login: &str) -> (r: Result<(), HelixError>)
        requires
            old(self).well_formed(),
        ensures
            r is Ok <==> old(self).filter_count() < 100 && trim_ws(login@).len() > 0,
            r is Ok ==> final(self).login_texts() == old(self).login_texts().push(trim_ws(login@))
                && final(self).id_texts() == old(self).id_texts(),
            final(self).well_formed(),
            r matches Err(e) ==> *final(self) == *old(self) && (e matches HelixError::Request(m)
                && m@ == if old(self).filter_count() >= 100 {
                capacity_message()
            } else {
                empty_login_message()
            }),
    {
        self.ensure_capacity_for(1)?;
        let login = str_trim(login);
        if login.unicode_len() == 0 {
            return Err(HelixError::Request(String::from_str("get users request login values must not be empty or whitespace")));
        }
        self.logins.push(String::from_str(login));
        proof {
            assert(self.login_texts() =~= old(self).login_texts().push(login@));
        }
        Ok(())
    }

    /// Adds a user identifier to the request, as `push_user_id` does.
    pub fn with_user_id(self, user_id: UserId) -> (r: Result<Self, HelixError>)
        requires
            self.well_formed(),
        ensures
            r is Ok <==> self.filter_count() < 100,
            r matches Ok(req) ==> req.id_texts() == self.id_texts().push(user_id@)
                && req.login_texts() == self.login_texts() && req.well_formed(),
            r matches Err(e) ==> e matches HelixError::Request(m) && m@ == capacity_message(),
    {
        let mut request = self;
        request.push_user_id(user_id)?;
        Ok(request)
    }

    /// Adds a login name to the request, as `push_login` does.
    pub fn with_login(self, login: &str) -> (r: Result<Self, HelixError>)
        requires
            self.well_formed(),
        ensures
            r is Ok <==> self.filter_count() < 100 && trim_ws(login@).len() > 0,
            r matches Ok(req) ==> req.login_texts() == self.login_texts().push(trim_ws(login@))
                && req.id_texts() == self.id_texts() && req.well_formed(),
            r matches Err(e) ==> e matches HelixError::Request(m) && m@ == if self.filter_count()
                >= 100 {
                capacity_message()
            } else {
                empty_login_message()
            },
    {
        let mut request = self;
        request.push_login(login)?;
        Ok(request)
    }

    /// Returns the ordered user IDs in the request.
    pub fn user_ids(&self) -> (r: &[UserId])
        ensures
            user_id_views(r@) == self.id_texts(),
    {
        self.user_ids.as_slice()
    }

    /// Returns the ordered login names in the request.
    pub fn logins(&self) -> (r: &[String])
        ensures
            r@.map_values(|s: String| s@) == self.login_texts(),
    {
        self.logins.as_slice()
    }

    /// Returns whether the request contains no filters.
    pub fn is_empty(&self) -> (r: bool)
        ensures
            r == (self.filter_count() == 0),
    {
        self.user_ids.len() == 0 && self.logins.len() == 0
    }

    /// Fails for a request without filters under app authorization; Twitch
    /// answers an unfiltered request only for the authorizing user.
    pub fn validate_for_auth(&self, auth: &HelixRequestAuth) -> (r: Result<(), HelixError>)
        ensures
            r is Err <==> self.filter_count() == 0 && *auth == HelixRequestAuth::App,
            r matches Err(e) ==> e matches HelixError::Request(m) && m@
                == unfiltered_app_request_message(),
    {
        let app = match auth {
            HelixRequestAuth::App => true,
            HelixRequestAuth::User { .. } => false,
        };
        if self.is_empty() && app {
            return Err(HelixError::Request(String::from_str("get users request requires at least one id or login when using app authorization")));
        }
        Ok(())
    }

    /// The query of the request: every user id under `id`, then every login
    /// under `login`, each in the order added.
    pub fn query_pairs(&self) -> (r: Vec<(String, String)>)
        ensures
            query_view(r@) == tagged("id"@, self.id_texts()) + tagged("login"@, self.login_texts()),
    {
        let mut pairs: Vec<(String, String)> = Vec::new();
        let mut i: usize = 0;
        while i < self.user_ids.len()
            invariant
                i <= self.user_ids.len(),
                query_view(pairs@) == tagged("id"@, user_id_views(self.user_ids@.take(i as int))),
            decreases self.user_ids.len() - i,
        {
            let ghost before = pairs@;
            let key = String::from_str("id");
            let value = self.user_ids[i].to_string();
            assert(key@ == "id"@ && value@ == self.user_ids@[i as int]@);
            pairs.push((key, value));
            proof {
                assert(query_view(pairs@) =~= query_view(before).push(("id"@, self.user_ids@[i as int]@)));
                assert(user_id_views(self.user_ids@.take(i as int + 1)) =~= user_id_views(
                    self.user_ids@.take(i as int),
                ).push(self.user_ids@[i as int]@));
                assert(query_view(pairs@) =~= tagged(
                    "id"@,
                    user_id_views(self.user_ids@.take(i as int + 1)),
                ));
            }
            i = i + 1;
        }
        assert(self.user_ids@.take(self.user_ids.len() as int) == self.user_ids@);
        let ghost ids_part = query_view(pairs@);
        let mut j: usize = 0;
        while j < self.logins.len()
            invariant
                j <= self.logins.len(),
                ids_part == tagged("id"@, self.id_texts()),
                query_view(pairs@) == ids_part + tagged(
                    "login"@,
                    self.logins@.take(j as int).map_values(|s: String| s@),
                ),
            decreases self.logins.len() - j,
        {
            let ghost before = pairs@;
            let key = String::from_str("login");
            let value = self.logins[j].clone();
            assert(key@ == "login"@ && value@ == self.logins@[j as int]@);
            pairs.push((key, value));
            proof {
                assert(query_view(pairs@) =~= query_view(before).push(("login"@, self.logins@[j as int]@)));
                assert(self.logins@.take(j as int + 1).map_values(|s: String| s@)
                    =~= self.logins@.take(j as int).map_values(|s: String| s@).push(
                    self.logins@[j as int]@,
                ));
                assert(query_view(pairs@) =~= ids_part + tagged(
                    "login"@,
                    self.logins@.take(j as int + 1).map_values(|s: String| s@),
                ));
            }
            j = j + 1;
        }
        assert(self.logins@.take(self.logins.len() as int) == self.logins@);
        pairs
    }
}

impl Default for GetUsersRequest {
    /// An empty request.
    fn default() -> (r: Self)
        ensures
            r.well_formed(),
            r.id_texts() == Seq::<Seq<char>>::empty(),
            r.login_texts() == Seq::<Seq<char>>::empty(),
    {
        Self::new()
    }
}

/// Helix `type` field for user records.
#[derive(Clone, Debug, PartialEq, Eq)]
pub enum HelixUserType {
    /// A normal Twitch user.
    Normal,
    /// A Twitch administrator.
    Admin,
    /// A Twitch global moderator.
    GlobalMod,
    /// A Twitch staff member.
    Staff,
    /// Any value not recognized by the current crate version.
    Other(String),
}

impl HelixUserType {
    /// Classifies the raw `type` field: the empty string is a normal user,
    /// unknown values are kept as they are.
    pub fn from_raw(raw: String) -> (r: Self)
        ensures
            raw@ == ""@ ==> r == HelixUserType::Normal,
            raw@ == "admin"@ ==> r == HelixUserType::Admin,
            raw@ == "global_mod"@ ==> r == HelixUserType::GlobalMod,
            raw@ == "staff"@ ==> r == HelixUserType::Staff,
            raw@ != ""@ && raw@ != "admin"@ && raw@ != "global_mod"@ && raw@ != "staff"@ ==> (r matches HelixUserType::Other(s) && s@ == raw@),
    {
        proof {
            reveal_strlit("");
            reveal_strlit("admin");
            reveal_strlit("global_mod");
            reveal_strlit("staff");
            assert(""@.len() == 0 && "admin"@.len() == 5 && "global_mod"@.len() == 10);
            assert("admin"@[0] != "staff"@[0]);
            assert("admin"@ != "staff"@ && "global_mod"@ != "staff"@);
        }
        if raw == String::from_str("") {
            HelixUserType::Normal
        } else if raw == String::from_str("admin") {
            HelixUserType::Admin
        } else if raw == String::from_str("global_mod") {
            HelixUserType::GlobalMod
        } else if raw == String::from_str("staff") {
            HelixUserType::Staff
        } else {
            HelixUserType::Other(raw)
        }
    }
}

/// Helix `broadcaster_type` field for user records.
#[derive(Clone, Debug, PartialEq, Eq)]
pub enum HelixBroadcasterType {
    /// A normal broadcaster account.
    Normal,
    /// An affiliate broadcaster.
    Affiliate,
    /// A partner broadcaster.
    Partner,
    /// Any value not recognized by the current crate version.
    Other(String),
}

impl HelixBroadcasterType {
    /// Classifies the raw `broadcaster_type` field: the empty string is a
    /// normal broadcaster, unknown values are kept as they are.
    pub fn from_raw(raw: String) -> (r: Self)
        ensures
            raw@ == ""@ ==> r == HelixBroadcasterType::Normal,
            raw@ == "affiliate"@ ==> r == HelixBroadcasterType::Affiliate,
            raw@ == "partner"@ ==> r == HelixBroadcasterType::Partner,
            raw@ != ""@ && raw@ != "affiliate"@ && raw@ != "partner"@ ==> (r matches HelixBroadcasterType::Other(s) && s@ == raw@),
    {
        proof {
            reveal_strlit("");
            reveal_strlit("affiliate");
            reveal_strlit("partner");
            assert(""@.len() == 0 && "affiliate"@.len() == 9 && "partner"@.len() == 7);
        }
        if raw == String::from_str("") {
            HelixBroadcasterType::Normal
        } else if raw == String::from_str("affiliate") {
            HelixBroadcasterType::Affiliate
        } else if raw == String::from_str("partner") {
            HelixBroadcasterType::Partner
        } else {
            HelixBroadcasterType::Other(raw)
        }
    }
}

/// An optional text trimmed of surrounding white space, absent when nothing
/// is left.
pub open spec fn normalized_optional_text(value: Option<Seq<char>>) -> Option<Seq<char>> {
    match value {
        Some(v) => if trim_ws(v).len() == 0 {
            None
        } else {
            Some(trim_ws(v))
        },
        None => None,
    }
}

/// Trims an optional text field such as `email`; blank values become absent.
pub fn normalize_optional_text(value: Option<String>) -> (r: Option<String>)
    ensures
        match r {
            Some(s) => normalized_optional_text(
                match value {
                    Some(v) => Some(v@),
                    None => None,
                },
            ) == Some(s@),
            None => normalized_optional_text(
                match value {
                    Some(v) => Some(v@),
                    None => None,
                },
            ) is None,
        },
{
    match value {
        None => None,
        Some(v) => {
            let trimmed = str_trim(v.as_str());
            if trimmed.unicode_len() == 0 {
                None
            } else {
                Some(String::from_str(trimmed))
            }
        },
    }
}

/// Typed Helix user record returned by the `Get Users` endpoint.
#[derive(Clone, Debug, PartialEq, Eq)]
pub struct HelixUser {
    id: UserId,
    login: String,
    display_name: String,
    user_type: HelixUserType,
    broadcaster_type: HelixBroadcasterType,
    description: String,
    profile_image_url: String,
    offline_image_url: String,
    email: Option<String>,
    created_at: Timestamp,
}

impl HelixUser {
    /// Assembles a user record from its decoded fields.
    pub fn from_parts(
        id: UserId,
        login: String,
        display_name: String,
        user_type: HelixUserType,
        broadcaster_type: HelixBroadcasterType,
        description: String,
        profile_image_url: String,
        offline_image_url: String,
        email: Option<String>,
        created_at: Timestamp,
    ) -> (r: Self)
        ensures
            r.id_spec() == id,
            r.login_spec() == login@,
            r.display_name_spec() == display_name@,
            r.user_type_spec() == user_type,
            r.broadcaster_type_spec() == broadcaster_type,
            r.description_spec() == description@,
            r.profile_image_url_spec() == profile_image_url@,
            r.offline_image_url_spec() == offline_image_url@,
            r.email_spec() == match email {
                Some(e) => Some(e@),
                None => None::<Seq<char>>,
            },
            r.created_at_spec() == created_at,
    {
        HelixUser {
            id,
            login,
            display_name,
            user_type,
            broadcaster_type,
            description,
            profile_image_url,
            offline_image_url,
            email,
            created_at,
        }
    }

    /// The Twitch user ID.
    pub closed spec fn id_spec(&self) -> UserId {
        self.id
    }

    /// The Twitch login name.
    pub closed spec fn login_spec(&self) -> Seq<char> {
        self.login@
    }

    /// The account creation timestamp.
    pub closed spec fn created_at_spec(&self) -> Timestamp {
        self.created_at
    }

    /// The display name.
    pub closed spec fn display_name_spec(&self) -> Seq<char> {
        self.display_name@
    }

    /// The user type classification.
    pub closed spec fn user_type_spec(&self) -> HelixUserType {
        self.user_type
    }

    /// The broadcaster type classification.
    pub closed spec fn broadcaster_type_spec(&self) -> HelixBroadcasterType {
        self.broadcaster_type
    }

    /// The channel description.
    pub closed spec fn description_spec(&self) -> Seq<char> {
        self.description@
    }

    /// The profile image URL.
    pub closed spec fn profile_image_url_spec(&self) -> Seq<char> {
        self.profile_image_url@
    }

    /// The offline image URL.
    pub closed spec fn offline_image_url_spec(&self) -> Seq<char> {
        self.offline_image_url@
    }

    /// The email address, when present.
    pub closed spec fn email_spec(&self) -> Option<Seq<char>> {
        match self.email {
            Some(e) => Some(e@),
            None => None,
        }
    }

    /// Returns the Twitch user ID.
    pub fn id(&self) -> (r: &UserId)
        ensures
            *r == self.id_spec(),
    {
        &self.id
    }

    /// Returns the Twitch login name.
    pub fn login(&self) -> (r: &str)
        ensures
            r@ == self.login_spec(),
    {
        self.login.as_str()
    }

    /// Returns the display name.
    pub fn display_name(&self) -> (r: &str)
        ensures
            r@ == self.display_name_spec(),
    {
        self.display_name.as_str()
    }

    /// Returns the user type classification.
    pub fn user_type(&self) -> (r: &HelixUserType)
        ensures
            *r == self.user_type_spec(),
    {
        &self.user_type
    }

    /// Returns the broadcaster type classification.
    pub fn broadcaster_type(&self) -> (r: &HelixBroadcasterType)
        ensures
            *r == self.broadcaster_type_spec(),
    {
        &self.broadcaster_type
    }

    /// Returns the channel description.
    pub fn description(&self) -> (r: &str)
        ensures
            r@ == self.description_spec(),
    {
        self.description.as_str()
    }

    /// Returns the profile image URL.
    pub fn profile_image_url(&self) -> (r: &str)
        ensures
            r@ == self.profile_image_url_spec(),
    {
        self.profile_image_url.as_str()
    }

    /// Returns the offline image URL.
    pub fn offline_image_url(&self) -> (r: &str)
        ensures
            r@ == self.offline_image_url_spec(),
    {
        self.offline_image_url.as_str()
    }

    /// Returns the verified email address when Twitch included it.
    pub fn email(&self) -> (r: Option<&str>)
        ensures
            match r {
                Some(e) => self.email_spec() == Some(e@),
                None => self.email_spec() is None,
            },
    {
        match &self.email {
            Some(e) => Some(e.as_str()),
            None => None,
        }
    }

    /// Returns the account creation timestamp.
    pub fn created_at(&self) -> (r: Timestamp)
        ensures
            r == self.created_at_spec(),
    {
        self.created_at
    }
}

/// Typed response for the Helix `Get Users` endpoint.
pub type GetUsersResponse = HelixResponse<Vec<HelixUser>>;

} // verus!
