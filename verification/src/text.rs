//! The `Debug` text of protected values.
use vstd::prelude::*;
use std::fmt::Debug;

verus! {

/// Calls `format!("{:?}", value)`, the `Debug` text of `value`. The text
/// depends on `T`'s `Debug` impl; nothing is claimed of it.
#[verifier::external_body]
pub(crate) fn debug_text<T: Debug>(value: &T) -> String {
    format!("{:?}", value)
}

/// The `Debug` text of a lock named `name` whose protected value is shown
/// as field `field`: the value's text, or `<locked>` when it could not be read.
pub open spec fn debug_frame_text(name: Seq<char>, field: Seq<char>, value: Option<Seq<char>>) -> Seq<char> {
    name + " { "@ + field + ": "@ + (match value {
        Some(v) => v,
        None => "<locked>"@,
    }) + " }"@
}

/// Builds the `Debug` text of a lock (see `debug_frame_text`).
pub fn debug_frame(name: &str, field: &str, value: Option<&str>) -> (r: String)
    ensures
        r@ == debug_frame_text(name@, field@, match value {
            Some(v) => Some(v@),
            None => None,
        }),
{
    let mut r = String::from_str(name);
    r.append(" { ");
    r.append(field);
    r.append(": ");
    match value {
        Some(v) => r.append(v),
        None => r.append("<locked>"),
    }
    r.append(" }");
    r
}

} // verus!
