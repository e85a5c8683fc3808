//! User records, as the user store hands them over.

use vstd::prelude::*;

verus! {

/// A stored user.
#[derive(Clone, Debug, PartialEq, Eq)]
pub struct Model {
    /// Unique identifier, assigned by the store.
    pub id: i32,
    /// Unique name.
    pub username: String,
    /// PHC string of the password hash.
    pub password: String,
}

/// A stored user as plain values.
pub struct ModelView {
    pub id: i32,
    pub username: Seq<char>,
    pub password: Seq<char>,
}

impl View for Model {
    type V = ModelView;

    open spec fn view(&self) -> ModelView {
        ModelView { id: self.id, username: self.username@, password: self.password@ }
    }
}

/// What the store answered to a lookup: the user, no such user, or the
/// text of a storage error.
pub type Lookup = Result<Option<Model>, String>;

/// What the store answered to an insert: the stored user, or the text of a
/// storage error.
pub type Inserted = Result<Model, String>;

/// A lookup as plain values.
pub open spec fn lookup_view(found: Lookup) -> Result<Option<ModelView>, Seq<char>> {
    match found {
        Ok(Some(user)) => Ok(Some(user@)),
        Ok(None) => Ok(None),
        Err(detail) => Err(detail@),
    }
}

/// An insert as plain values.
pub open spec fn inserted_view(created: Inserted) -> Result<ModelView, Seq<char>> {
    match created {
        Ok(user) => Ok(user@),
        Err(detail) => Err(detail@),
    }
}

} // verus!
