//! Permission tiers and their text forms.
//!
//! A role travels as text in requests, in the identity store and in session
//! tokens. Inside the library it is always one of the four tiers of
//! [`UserRole`]; text that names none of them stands for a customer. There
//! is one resolver, for text from a client and for text from the store
//! alike.

use vstd::prelude::*;
use crate::text::{ascii_lowercase, chars_of, lowercase_chars_of, same_chars};

verus! {

/// The closed set of permission tiers.
#[derive(Clone, Copy, Debug, PartialEq, Eq, Structural)]
pub enum UserRole {
    Admin,
    HotelOwner,
    BusinessOwner,
    Customer,
}

/// The canonical text of a role: the only form that is stored or put into a
/// token.
pub open spec fn wire_string(role: UserRole) -> Seq<char> {
    match role {
        UserRole::Admin => "admin"@,
        UserRole::HotelOwner => "hotel_owner"@,
        UserRole::BusinessOwner => "business_owner"@,
        UserRole::Customer => "customer"@,
    }
}

/// The role that free-form text names.
///
/// Letter case is ignored; the two owner roles may also be spelled without
/// the underscore. Any other text, the empty text included, names a customer.
pub open spec fn resolved_role(raw: Seq<char>) -> UserRole {
    let folded = ascii_lowercase(raw);
    if folded == "admin"@ {
        UserRole::Admin
    } else if folded == "hotel_owner"@ || folded == "hotelowner"@ {
        UserRole::HotelOwner
    } else if folded == "business_owner"@ || folded == "businessowner"@ {
        UserRole::BusinessOwner
    } else {
        UserRole::Customer
    }
}

/// The canonical text of `role`.
pub fn to_wire_string(role: UserRole) -> (s: &'static str)
    ensures
        s@ == wire_string(role),
{
    match role {
        UserRole::Admin => "admin",
        UserRole::HotelOwner => "hotel_owner",
        UserRole::BusinessOwner => "business_owner",
        UserRole::Customer => "customer",
    }
}

/// Normalizes free-form role text; never fails.
pub fn resolve(raw: &str) -> (role: UserRole)
    ensures
        role == resolved_role(raw@),
{
    let folded = lowercase_chars_of(raw);
    if same_chars(&folded, &chars_of("admin")) {
        UserRole::Admin
    } else if same_chars(&folded, &chars_of("hotel_owner")) || same_chars(
        &folded,
        &chars_of("hotelowner"),
    ) {
        UserRole::HotelOwner
    } else if same_chars(&folded, &chars_of("business_owner")) || same_chars(
        &folded,
        &chars_of("businessowner"),
    ) {
        UserRole::BusinessOwner
    } else {
        UserRole::Customer
    }
}

/// The canonical texts are four different texts, written in lower case.
pub proof fn lemma_wire_strings(role: UserRole)
    ensures
        ascii_lowercase(wire_string(role)) == wire_string(role),
        wire_string(role) == "admin"@ <==> role == UserRole::Admin,
        wire_string(role) == "hotel_owner"@ <==> role == UserRole::HotelOwner,
        wire_string(role) == "business_owner"@ <==> role == UserRole::BusinessOwner,
        wire_string(role) == "customer"@ <==> role == UserRole::Customer,
        wire_string(role) != "hotelowner"@,
        wire_string(role) != "businessowner"@,
{
    reveal_strlit("admin");
    reveal_strlit("hotel_owner");
    reveal_strlit("hotelowner");
    reveal_strlit("business_owner");
    reveal_strlit("businessowner");
    reveal_strlit("customer");
    assert(ascii_lowercase(wire_string(role)) =~= wire_string(role));
}

/// Resolving the canonical text of a role gives that role back.
pub proof fn lemma_resolve_inverts_wire_string(role: UserRole)
    ensures
        resolved_role(wire_string(role)) == role,
{
    lemma_wire_strings(role);
}

/// Role text that has been resolved and written back resolves to the same
/// role: one pass through the resolver is as good as any number of them.
pub proof fn lemma_resolve_is_idempotent(raw: Seq<char>)
    ensures
        resolved_role(wire_string(resolved_role(raw))) == resolved_role(raw),
{
    lemma_resolve_inverts_wire_string(resolved_role(raw));
}

} // verus!
