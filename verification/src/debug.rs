//! Formatting of the read-only diagnostics.

use vstd::prelude::*;

use crate::flask_inventory::FlaskChargeSnapshot;
use crate::text::{push_signed_decimal, push_str, signed_decimal, string_from};

verus! {

/// The charges of `slot` as `(current, per_use)`, if the slot holds a flask.
pub fn charge_pair(snapshot: FlaskChargeSnapshot, slot: usize) -> (r: Option<(i32, i32)>)
    requires
        slot < 2,
    ensures
        r == (match snapshot.slots@[slot as int] {
            Some(s) => Some((s.current, s.per_use)),
            None => None,
        }),
{
    match snapshot.slots[slot] {
        Some(state) => Some((state.current, state.per_use)),
        None => None,
    }
}

/// How charges are shown.
pub open spec fn charge_display(charges: Option<(i32, i32)>) -> Seq<char> {
    match charges {
        Some((current, per_use)) => signed_decimal(current as int) + "/"@ + signed_decimal(per_use as int),
        None => "empty/unreadable"@,
    }
}

/// Renders charges as `current/per_use`.
pub fn charge_text(charges: Option<(i32, i32)>) -> (s: String)
    ensures
        s@ == charge_display(charges),
{
    match charges {
        Some((current, per_use)) => {
            let mut s = String::new();
            push_signed_decimal(&mut s, current as i64);
            push_str(&mut s, "/");
            push_signed_decimal(&mut s, per_use as i64);
            assert(s@ =~= charge_display(charges));
            s
        },
        None => string_from("empty/unreadable"),
    }
}

/// `YES` or `NO`.
pub fn yes_no(value: bool) -> (s: &'static str)
    ensures
        s@ == (if value {
            "YES"@
        } else {
            "NO"@
        }),
{
    if value {
        "YES"
    } else {
        "NO"
    }
}

} // verus!
