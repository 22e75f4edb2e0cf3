//! Commands offered to the application's front-end.
use crate::text::{append_chars, string_of};
use vstd::prelude::*;

verus! {

/// The greeting for a name.
pub fn greet(name: &str) -> (r: String)
    ensures
        r@ == "Hello, "@ + name@ + "! You've been greeted from Rust!"@,
{
    let mut out: Vec<char> = Vec::new();
    append_chars(&mut out, "Hello, ");
    append_chars(&mut out, name);
    append_chars(&mut out, "! You've been greeted from Rust!");
    string_of(out.as_slice())
}

} // verus!
