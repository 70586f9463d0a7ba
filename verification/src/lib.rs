//! A greeting service: one handler, one fixed answer.
//!
//! The handler is meant to be mounted at `GET /` of an HTTP server. It takes
//! nothing from the request, so headers, query and request body cannot change
//! what it returns.

use vstd::prelude::*;

verus! {

/// The body of every answer, character by character.
pub open spec fn greeting() -> Seq<char> {
    seq!['H', 'e', 'l', 'l', 'o', ',', ' ', 'w', 'o', 'r', 'l', 'd', '!']
}

/// The handler of `GET /`.
///
/// It has no parameter: whatever the request carries, the body is
/// [`greeting`], the same on every call.
pub fn index() -> (body: &'static str)
    ensures
        body@ == greeting(),
{
    proof {
        reveal_strlit("Hello, world!");
        assert("Hello, world!"@ =~= greeting());
    }
    "Hello, world!"
}

} // verus!
