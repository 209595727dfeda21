//! The data carried by the bot's inline buttons: a kind prefix followed by a
//! value, such as `city:Казань` or `view:<property id>`.

use vstd::prelude::*;
use crate::text::{strip_prefix, concat_str};

verus! {

/// What an inline button asks for.
#[derive(Clone, Copy, Debug, PartialEq, Eq, Structural)]
pub enum CallbackKind {
    /// Choose the city of the search.
    City,
    /// Choose the district of the search.
    District,
    /// Choose the largest budget.
    Budget,
    /// Choose the number of rooms.
    Rooms,
    /// Add a property to the favourites.
    AddFavorite,
    /// Remove a property from the favourites.
    RemoveFavorite,
    /// Ask for a viewing of a property.
    View,
    /// Show the next property of the search.
    Next,
}

/// The prefix that marks each kind of button data.
pub open spec fn kind_prefix(k: CallbackKind) -> Seq<char> {
    match k {
        CallbackKind::City => "city:"@,
        CallbackKind::District => "district:"@,
        CallbackKind::Budget => "budget:"@,
        CallbackKind::Rooms => "rooms:"@,
        CallbackKind::AddFavorite => "favorite:"@,
        CallbackKind::RemoveFavorite => "favorite_remove:"@,
        CallbackKind::View => "view:"@,
        CallbackKind::Next => "next:"@,
    }
}

/// The prefix that marks a kind of button data, as text.
pub fn kind_prefix_str(k: CallbackKind) -> (r: &'static str)
    ensures
        r@ == kind_prefix(k),
{
    match k {
        CallbackKind::City => "city:",
        CallbackKind::District => "district:",
        CallbackKind::Budget => "budget:",
        CallbackKind::Rooms => "rooms:",
        CallbackKind::AddFavorite => "favorite:",
        CallbackKind::RemoveFavorite => "favorite_remove:",
        CallbackKind::View => "view:",
        CallbackKind::Next => "next:",
    }
}

/// The kind and value read from button data when it starts with `k`'s prefix.
pub open spec fn read_as(k: CallbackKind, d: Seq<char>) -> (CallbackKind, Seq<char>) {
    (k, d.skip(kind_prefix(k).len() as int))
}

/// What the bot reads from button data: the prefixes are tried in the order
/// city, district, budget, rooms, favorite, favorite_remove, view, next, and
/// the first that the data starts with decides; data with none of them is
/// ignored.
pub open spec fn callback_of(d: Seq<char>) -> Option<(CallbackKind, Seq<char>)> {
    if kind_prefix(CallbackKind::City).is_prefix_of(d) {
        Some(read_as(CallbackKind::City, d))
    } else if kind_prefix(CallbackKind::District).is_prefix_of(d) {
        Some(read_as(CallbackKind::District, d))
    } else if kind_prefix(CallbackKind::Budget).is_prefix_of(d) {
        Some(read_as(CallbackKind::Budget, d))
    } else if kind_prefix(CallbackKind::Rooms).is_prefix_of(d) {
        Some(read_as(CallbackKind::Rooms, d))
    } else if kind_prefix(CallbackKind::AddFavorite).is_prefix_of(d) {
        Some(read_as(CallbackKind::AddFavorite, d))
    } else if kind_prefix(CallbackKind::RemoveFavorite).is_prefix_of(d) {
        Some(read_as(CallbackKind::RemoveFavorite, d))
    } else if kind_prefix(CallbackKind::View).is_prefix_of(d) {
        Some(read_as(CallbackKind::View, d))
    } else if kind_prefix(CallbackKind::Next).is_prefix_of(d) {
        Some(read_as(CallbackKind::Next, d))
    } else {
        None
    }
}

/// Button data read into its kind and value.
pub struct Callback {
    pub kind: CallbackKind,
    pub value: String,
}

/// Reads the kind and value of button data (the dispatch of `callback_handler`).
pub fn parse_callback(data: &str) -> (r: Option<Callback>)
    ensures
        match (r, callback_of(data@)) {
            (Some(c), Some(kv)) => c.kind == kv.0 && c.value@ == kv.1,
            (None, None) => true,
            _ => false,
        },
{
    if let Some(v) = strip_prefix(data, "city:") {
        return Some(Callback { kind: CallbackKind::City, value: v });
    }
    if let Some(v) = strip_prefix(data, "district:") {
        return Some(Callback { kind: CallbackKind::District, value: v });
    }
    if let Some(v) = strip_prefix(data, "budget:") {
        return Some(Callback { kind: CallbackKind::Budget, value: v });
    }
    if let Some(v) = strip_prefix(data, "rooms:") {
        return Some(Callback { kind: CallbackKind::Rooms, value: v });
    }
    if let Some(v) = strip_prefix(data, "favorite:") {
        return Some(Callback { kind: CallbackKind::AddFavorite, value: v });
    }
    if let Some(v) = strip_prefix(data, "favorite_remove:") {
        return Some(Callback { kind: CallbackKind::RemoveFavorite, value: v });
    }
    if let Some(v) = strip_prefix(data, "view:") {
        return Some(Callback { kind: CallbackKind::View, value: v });
    }
    if let Some(v) = strip_prefix(data, "next:") {
        return Some(Callback { kind: CallbackKind::Next, value: v });
    }
    None
}

/// The data of a button of kind `kind` carrying `value`.
pub fn callback_data(kind: CallbackKind, value: &str) -> (r: String)
    ensures
        r@ == kind_prefix(kind) + value@,
{
    concat_str(kind_prefix_str(kind), value)
}

/// Whatever a button's data carries, the bot reads back the same kind and the
/// same value: no prefix is taken for another, even `favorite:` and
/// `favorite_remove:`.
pub proof fn callback_data_reads_back(kind: CallbackKind, value: Seq<char>)
    ensures
        callback_of(kind_prefix(kind) + value) == Some((kind, value)),
{
    reveal_strlit("city:");
    reveal_strlit("district:");
    reveal_strlit("budget:");
    reveal_strlit("rooms:");
    reveal_strlit("favorite:");
    reveal_strlit("favorite_remove:");
    reveal_strlit("view:");
    reveal_strlit("next:");
    let d = kind_prefix(kind) + value;
    let p = kind_prefix(kind);
    assert(p.is_prefix_of(d)) by {
        assert(p =~= d.subrange(0, p.len() as int));
    }
    assert(d.skip(p.len() as int) =~= value);
    assert(d[0] == p[0]);
    if p.len() > 8 {
        assert(d[8] == p[8]);
    }
    assert(forall|k: CallbackKind| #[trigger] kind_prefix(k).is_prefix_of(d) ==> kind_prefix(k)[0] == d[0]);
    assert(forall|k: CallbackKind| #[trigger] kind_prefix(k).is_prefix_of(d) && kind_prefix(k).len() > 8 ==> kind_prefix(k)[8] == d[8]);
}

} // verus!
