//! What a database lookup can end in.
//!
//! A lookup yields exactly one of five outcomes: the three variants of
//! [`Entry`] and the two of [`DbError`]. No other status exists, so every
//! reader of a lookup is made to handle all five.

use crate::text::{clone_opt, opt_view};
use vstd::prelude::*;
use vstd::string::*;

verus! {

/// A password as the caller typed it: bytes that only the database compares.
pub struct Password {
    bytes: Vec<u8>,
}

impl View for Password {
    type V = Seq<u8>;

    closed spec fn view(&self) -> Seq<u8> {
        self.bytes@
    }
}

impl Password {
    /// The password that these bytes are.
    pub fn new(bytes: Vec<u8>) -> (p: Password)
        ensures
            p@ == bytes@,
    {
        Password { bytes }
    }

    /// The bytes, for the database to compare.
    pub fn as_bytes(&self) -> (b: &[u8])
        ensures
            b@ == self@,
    {
        self.bytes.as_slice()
    }
}

impl Clone for Password {
    fn clone(&self) -> (p: Password)
        ensures
            p@ == self@,
    {
        Password { bytes: self.bytes.clone() }
    }
}

/// The view of an optional password.
pub open spec fn opt_password_view(p: Option<Password>) -> Option<Seq<u8>> {
    match p {
        Some(q) => Some(q@),
        None => None,
    }
}

/// A stored paste.
#[derive(Debug, PartialEq, Eq)]
pub struct Data {
    /// The raw content.
    pub text: String,
    /// The title its author gave it, if any.
    pub title: Option<String>,
    /// The identity of whoever stored it; `None` for an anonymous paste.
    pub uid: Option<i64>,
}

/// A stored paste as a mathematical value.
pub struct DataView {
    pub text: Seq<char>,
    pub title: Option<Seq<char>>,
    pub uid: Option<i64>,
}

impl View for Data {
    type V = DataView;

    open spec fn view(&self) -> DataView {
        DataView { text: self.text@, title: opt_view(self.title), uid: self.uid }
    }
}

impl Clone for Data {
    fn clone(&self) -> (data: Data)
        ensures
            data@ == self@,
    {
        Data { text: self.text.clone(), title: clone_opt(&self.title), uid: self.uid }
    }
}

/// A paste that the database found.
#[derive(Debug, PartialEq, Eq)]
pub enum Entry {
    /// Readable now and again later.
    Regular(Data),
    /// Readable by this lookup only, which has consumed it.
    Burned(Data),
    /// Past its time to live; no content comes with it.
    Expired,
}

/// A found paste as a mathematical value.
pub enum EntryView {
    Regular(DataView),
    Burned(DataView),
    Expired,
}

impl View for Entry {
    type V = EntryView;

    open spec fn view(&self) -> EntryView {
        match self {
            Entry::Regular(data) => EntryView::Regular(data@),
            Entry::Burned(data) => EntryView::Burned(data@),
            Entry::Expired => EntryView::Expired,
        }
    }
}

impl Clone for Entry {
    fn clone(&self) -> (entry: Entry)
        ensures
            entry@ == self@,
    {
        match self {
            Entry::Regular(data) => Entry::Regular(data.clone()),
            Entry::Burned(data) => Entry::Burned(data.clone()),
            Entry::Expired => Entry::Expired,
        }
    }
}

/// Why a lookup found nothing to hand out.
#[derive(Clone, Copy, Debug, PartialEq, Eq, Structural)]
pub enum DbError {
    /// The paste is protected and the password was missing or wrong.
    PasswordRequired,
    /// No paste has this identifier.
    NotFound,
}

/// The view of a lookup's result.
pub open spec fn lookup_view(found: Result<Entry, DbError>) -> Result<EntryView, DbError> {
    match found {
        Ok(entry) => Ok(entry@),
        Err(e) => Err(e),
    }
}

} // verus!
