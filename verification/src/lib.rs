//! A minimal command shim: a greeting formatter and the result-shaping
//! half of two filesystem pass-throughs. The shim holds no state; each
//! operation is a one-shot call on plain text values. Filesystem access
//! itself is left to the surrounding host, which hands the raw outcome
//! of a read or write to this library to be put into the uniform
//! success/failure shape the front end consumes.

use vstd::prelude::*;

verus! {

/// The greeting returned for `name`: the fixed template with `name`
/// embedded verbatim.
pub open spec fn greeting_of(name: Seq<char>) -> Seq<char> {
    "Hello, "@ + name + "! You've been greeted from Rust!"@
}

/// Formats the fixed greeting around `name`. No constraints on `name`;
/// the empty string is embedded like any other.
pub fn greet(name: &str) -> (r: String)
    ensures
        r@ == greeting_of(name@),
{
    let mut r = "Hello, ".to_owned();
    r.append(name);
    r.append("! You've been greeted from Rust!");
    r
}

/// The error message reported when a read fails for the given cause.
pub open spec fn read_failure_of(cause: Seq<char>) -> Seq<char> {
    "Failed to read file: "@ + cause
}

/// The error message reported when a write fails for the given cause.
pub open spec fn write_failure_of(cause: Seq<char>) -> Seq<char> {
    "Failed to write file: "@ + cause
}

/// Shapes the raw outcome of a file read into the reply handed to the
/// caller: the contents pass through unchanged, and a failure cause is
/// embedded verbatim in a human-readable message. Succeeds exactly when
/// the read did.
pub fn read_reply(outcome: Result<String, String>) -> (r: Result<String, String>)
    ensures
        outcome is Ok ==> r == outcome,
        outcome is Err ==> r is Err && r->Err_0@ == read_failure_of(outcome->Err_0@),
{
    match outcome {
        Ok(contents) => Ok(contents),
        Err(cause) => {
            let mut m = "Failed to read file: ".to_owned();
            m.append(cause.as_str());
            Err(m)
        },
    }
}

/// Shapes the raw outcome of a file write into the reply handed to the
/// caller: success passes through, and a failure cause is embedded
/// verbatim in a human-readable message. Succeeds exactly when the
/// write did.
pub fn write_reply(outcome: Result<(), String>) -> (r: Result<(), String>)
    ensures
        outcome is Ok ==> r is Ok,
        outcome is Err ==> r is Err && r->Err_0@ == write_failure_of(outcome->Err_0@),
{
    match outcome {
        Ok(()) => Ok(()),
        Err(cause) => {
            let mut m = "Failed to write file: ".to_owned();
            m.append(cause.as_str());
            Err(m)
        },
    }
}

} // verus!
