//! Pagination primitives shared by the Twitch API surfaces.

use vstd::prelude::*;
use vstd::string::*;

verus! {

/// Opaque pagination cursor returned by Twitch APIs.
#[derive(Clone, Debug, PartialEq, Eq)]
pub struct Cursor(String);

impl View for Cursor {
    type V = Seq<char>;

    closed spec fn view(&self) -> Seq<char> {
        self.0@
    }
}

impl Cursor {
    /// Creates a new pagination cursor.
    pub fn new(value: &str) -> (r: Self)
        ensures
            r@ == value@,
    {
        Cursor(String::from_str(value))
    }

    /// Creates a new pagination cursor from an owned string.
    pub fn from_string(value: String) -> (r: Self)
        ensures
            r@ == value@,
    {
        Cursor(value)
    }

    /// Returns the raw cursor string.
    pub fn as_str(&self) -> (r: &str)
        ensures
            r@ == self@,
    {
        self.0.as_str()
    }
}

impl Default for Cursor {
    fn default() -> (r: Self)
        ensures
            r@ == Seq::<char>::empty(),
    {
        Cursor(String::new())
    }
}

/// Cursor-based page request parameters.
#[derive(Clone, Debug, PartialEq, Eq)]
pub struct PageRequest {
    /// Cursor after which the next page starts.
    pub after: Option<Cursor>,
    /// Maximum number of items requested.
    pub first: Option<u16>,
}

impl Default for PageRequest {
    fn default() -> (r: Self)
        ensures
            r.after is None,
            r.first is None,
    {
        PageRequest { after: None, first: None }
    }
}

/// Cursor metadata returned with a page response.
#[derive(Clone, Debug, PartialEq, Eq)]
pub struct PageInfo {
    /// Cursor to request the next page, if one exists.
    pub next: Option<Cursor>,
}

impl Default for PageInfo {
    fn default() -> (r: Self)
        ensures
            r.next is None,
    {
        PageInfo { next: None }
    }
}

} // verus!
