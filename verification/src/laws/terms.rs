//! Words for what a JSON value holds, in which the laws speak of it.

use crate::json::{JsonView, NumberView};
use vstd::prelude::*;

verus! {

/// The value under `key`, where the value is an object that has one.
pub open spec fn inner(j: JsonView, key: Seq<char>) -> Option<JsonView> {
    if j is Object && j->Object_0.dom().contains(key) {
        Some(j->Object_0[key])
    } else {
        None
    }
}

/// The string under `key`.
pub open spec fn said(j: JsonView, key: Seq<char>) -> Option<Seq<char>> {
    if inner(j, key) is Some && inner(j, key)->0 is Text {
        Some(inner(j, key)->0->Text_0)
    } else {
        None
    }
}

/// The string under `b` of what is under `a`.
pub open spec fn said_in(j: JsonView, a: Seq<char>, b: Seq<char>) -> Option<Seq<char>> {
    if inner(j, a) is Some {
        said(inner(j, a)->0, b)
    } else {
        None
    }
}

/// The truth value under `key`.
pub open spec fn flag(j: JsonView, key: Seq<char>) -> Option<bool> {
    if inner(j, key) is Some && inner(j, key)->0 is Bool {
        Some(inner(j, key)->0->Bool_0)
    } else {
        None
    }
}

/// The non-negative whole number under `key`.
pub open spec fn whole(j: JsonView, key: Seq<char>) -> Option<nat> {
    if inner(j, key) is Some && inner(j, key)->0 is Number && inner(j, key)->0->Number_0 is Unsigned {
        Some(inner(j, key)->0->Number_0->Unsigned_0)
    } else {
        None
    }
}

/// The whole number under `key`, where it fits into 64 bits with a sign.
pub open spec fn number_at(j: JsonView, key: Seq<char>) -> Option<int> {
    match inner(j, key) {
        Some(JsonView::Number(NumberView::Unsigned(n))) => if n <= i64::MAX {
            Some(n as int)
        } else {
            None
        },
        Some(JsonView::Number(NumberView::Negative(n))) => Some(n),
        _ => None,
    }
}

/// The items under `key`.
pub open spec fn listed(j: JsonView, key: Seq<char>) -> Option<Seq<JsonView>> {
    if inner(j, key) is Some && inner(j, key)->0 is Array {
        Some(inner(j, key)->0->Array_0)
    } else {
        None
    }
}

/// The non-negative whole number `n`.
pub open spec fn amount(n: nat) -> JsonView {
    JsonView::Number(NumberView::Unsigned(n))
}

/// The string `s`.
pub open spec fn word(s: Seq<char>) -> JsonView {
    JsonView::Text(s)
}

/// True when one text stands somewhere in another.
pub open spec fn stands_in(part: Seq<char>, whole: Seq<char>) -> bool {
    exists|before: Seq<char>, after: Seq<char>| whole == #[trigger] ((before + part) + after)
}

/// True of a list of strings that holds a given one.
pub open spec fn names(items: Seq<JsonView>, text: Seq<char>) -> bool {
    items.contains(JsonView::Text(text))
}

} // verus!
