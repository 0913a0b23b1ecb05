//! The identity store, seen from the credential service.
//!
//! The store itself lives outside the library. The service asks it two
//! things, to find an identity by email and to insert a new one, and is
//! handed the answers as the values defined here.

use vstd::prelude::*;
use crate::model::{Identity, IdentityView, NewIdentityView};
use crate::text::{contains_text, has_substring};

verus! {

/// The store's answer to a lookup by email.
#[derive(Clone, Debug, PartialEq, Eq)]
pub enum StoreLookup {
    Found(Identity),
    NotFound,
    /// The store could not answer; the text is the store's own error
    /// message.
    Failed(String),
}

/// [`StoreLookup`] as contracts see it: text is a sequence of characters.
pub enum StoreLookupView {
    Found(IdentityView),
    NotFound,
    Failed(Seq<char>),
}

impl View for StoreLookup {
    type V = StoreLookupView;

    open spec fn view(&self) -> StoreLookupView {
        match self {
            StoreLookup::Found(identity) => StoreLookupView::Found(identity@),
            StoreLookup::NotFound => StoreLookupView::NotFound,
            StoreLookup::Failed(message) => StoreLookupView::Failed(message@),
        }
    }
}

/// The store's answer to an insert.
#[derive(Clone, Debug, PartialEq, Eq)]
pub enum StoreInsert {
    /// The row as stored, with the id that the store gave it.
    Inserted(Identity),
    /// The store refused; the text is the store's own error message.
    Failed(String),
}

/// [`StoreInsert`] as contracts see it: text is a sequence of characters.
pub enum StoreInsertView {
    Inserted(IdentityView),
    Failed(Seq<char>),
}

impl View for StoreInsert {
    type V = StoreInsertView;

    open spec fn view(&self) -> StoreInsertView {
        match self {
            StoreInsert::Inserted(identity) => StoreInsertView::Inserted(identity@),
            StoreInsert::Failed(message) => StoreInsertView::Failed(message@),
        }
    }
}

/// Whether a store's error message reports a uniqueness violation: it does
/// where it mentions a duplicate key or a unique constraint.
pub open spec fn signals_duplicate(message: Seq<char>) -> bool {
    has_substring(message, "duplicate key"@) || has_substring(message, "unique constraint"@)
}

/// Whether a store's error message reports a uniqueness violation.
pub fn is_duplicate_signal(message: &str) -> (duplicate: bool)
    ensures
        duplicate == signals_duplicate(message@),
{
    contains_text(message, "duplicate key") || contains_text(message, "unique constraint")
}

/// What the store holds, as far as the service can tell: its identities, by
/// email. That a map has one value per key is the store's uniqueness rule.
pub type Directory = Map<Seq<char>, IdentityView>;

/// The answer of a working store with contents `directory` to a lookup.
pub open spec fn lookup_in(directory: Directory, email: Seq<char>) -> StoreLookupView {
    if directory.contains_key(email) {
        StoreLookupView::Found(directory[email])
    } else {
        StoreLookupView::NotFound
    }
}

/// Whether `row` is `new` as a store would hold it: the same fields, under
/// some id.
pub open spec fn stores(row: IdentityView, new: NewIdentityView) -> bool {
    &&& row.email == new.email
    &&& row.password_hash == new.password_hash
    &&& row.first_name == new.first_name
    &&& row.last_name == new.last_name
    &&& row.phone == new.phone
    &&& row.role == new.role
}

/// Whether a store with contents `before` may answer `outcome` to the insert
/// of `new` and then hold `after`.
///
/// Where the email is taken the store refuses with a message that reports
/// the uniqueness violation, and keeps its contents. Where it is free the
/// store either holds the new row afterwards, or refuses and keeps its
/// contents.
pub open spec fn insert_into(
    before: Directory,
    new: NewIdentityView,
    outcome: StoreInsertView,
    after: Directory,
) -> bool {
    if before.contains_key(new.email) {
        &&& outcome matches StoreInsertView::Failed(message)
        &&& signals_duplicate(message)
        &&& after == before
    } else {
        match outcome {
            StoreInsertView::Inserted(row) => stores(row, new) && after == before.insert(
                new.email,
                row,
            ),
            StoreInsertView::Failed(_) => after == before,
        }
    }
}

} // verus!
