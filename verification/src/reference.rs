//! References: files that a hand keeps track of, either where they are on
//! the system or copied into the hand's pocket.

use vstd::prelude::*;
use crate::paths::{extension, extension_spec, file_name, file_name_spec, file_stem, file_stem_spec};
use crate::text::str_eq;

verus! {

/// A point in time: whole seconds since the Unix epoch and the nanoseconds
/// within that second.
#[derive(Clone, Copy, Debug, PartialEq, Eq, Structural)]
pub struct Timestamp {
    pub secs: i64,
    pub nanos: u32,
}

/// Where a referenced file lives: in place on the system, or in the pocket.
#[derive(Clone, Copy, Debug, PartialEq, Eq, Structural)]
pub enum RefT {
    System,
    Pocket,
}

/// The stored text of a reference type, if `s` is one.
pub open spec fn ref_type_of_text(s: Seq<char>) -> Option<RefT> {
    if s == "system"@ {
        Some(RefT::System)
    } else if s == "pocket"@ {
        Some(RefT::Pocket)
    } else {
        None
    }
}

impl RefT {
    /// How the type is stored in the database: its name in lower case.
    pub open spec fn text_spec(self) -> Seq<char> {
        match self {
            RefT::System => "system"@,
            RefT::Pocket => "pocket"@,
        }
    }

    pub fn as_text(&self) -> (r: &'static str)
        ensures
            r@ == self.text_spec(),
    {
        match self {
            RefT::System => "system",
            RefT::Pocket => "pocket",
        }
    }

    /// The reference type stored as `s`, if any.
    pub fn from_text(s: &str) -> (r: Option<RefT>)
        ensures
            r == ref_type_of_text(s@),
    {
        if str_eq(s, "system") {
            Some(RefT::System)
        } else if str_eq(s, "pocket") {
            Some(RefT::Pocket)
        } else {
            None
        }
    }
}

/// Law: reading back the stored text of a reference type gives that type.
pub proof fn lemma_ref_type_text_roundtrip(t: RefT)
    ensures
        ref_type_of_text(t.text_spec()) == Some(t),
{
    reveal_strlit("system");
    reveal_strlit("pocket");
    assert("system"@ != "pocket"@) by {
        assert("system"@[0] != "pocket"@[0]);
    }
}

/// A reference that is about to be added.
#[derive(Debug, Clone)]
pub struct NewRef {
    pub rt: RefT,
    pub path: String,
}

impl NewRef {
    pub fn new(rt: RefT, path: String) -> (r: NewRef)
        ensures
            r.rt == rt,
            r.path == path,
    {
        NewRef { rt, path }
    }
}

/// Size and times of a referenced file, as the file system reports them.
#[derive(Debug, Clone)]
pub struct FileMetadata {
    pub size: u64,
    pub created: Option<Timestamp>,
    pub modified: Option<Timestamp>,
}

/// A stored reference.
#[derive(Debug, Clone)]
pub struct Ref {
    id: i64,
    rt: RefT,
    path: String,
    created: Timestamp,
}

/// The fields of a stored reference.
pub struct RefView {
    pub id: i64,
    pub rt: RefT,
    pub path: Seq<char>,
    pub created: Timestamp,
}

impl View for Ref {
    type V = RefView;

    closed spec fn view(&self) -> RefView {
        RefView { id: self.id, rt: self.rt, path: self.path@, created: self.created }
    }
}

impl Ref {
    /// The reference as a row of the database holds it.
    pub fn from_parts(id: i64, rt: RefT, path: String, created: Timestamp) -> (r: Ref)
        ensures
            r@ == (RefView { id, rt, path: path@, created }),
    {
        Ref { id, rt, path, created }
    }

    pub fn id(&self) -> (r: i64)
        ensures
            r == self@.id,
    {
        self.id
    }

    pub fn rt(&self) -> (r: RefT)
        ensures
            r == self@.rt,
    {
        self.rt
    }

    pub fn path(&self) -> (r: &str)
        ensures
            r@ == self@.path,
    {
        self.path.as_str()
    }

    pub fn created(&self) -> (r: Timestamp)
        ensures
            r == self@.created,
    {
        self.created
    }

    /// The file name of the referenced path.
    pub fn name(&self) -> (r: Option<&str>)
        ensures
            match r {
                Some(s) => file_name_spec(self@.path) == Some(s@),
                None => file_name_spec(self@.path) is None,
            },
    {
        file_name(self.path.as_str())
    }

    /// The file name without its extension.
    pub fn stem(&self) -> (r: Option<&str>)
        ensures
            match r {
                Some(s) => file_stem_spec(self@.path) == Some(s@),
                None => file_stem_spec(self@.path) is None,
            },
    {
        file_stem(self.path.as_str())
    }

    /// The extension of the file name.
    pub fn extn(&self) -> (r: Option<&str>)
        ensures
            match r {
                Some(s) => extension_spec(self@.path) == Some(s@),
                None => extension_spec(self@.path) is None,
            },
    {
        extension(self.path.as_str())
    }
}

} // verus!
