//! The greeting of the hello endpoint, which is refused at random.

use vstd::prelude::*;

verus! {

/// The greeting.
pub open spec fn greeting() -> Seq<char> {
    "Hello, world!"@
}

/// What is said when the greeting is refused.
pub open spec fn refusal() -> Seq<char> {
    "no message for you"@
}

/// The value of a greeting or a refusal.
pub open spec fn message_view(res: Result<&'static str, &'static str>) -> Result<
    Seq<char>,
    Seq<char>,
> {
    match res {
        Ok(m) => Ok(m@),
        Err(m) => Err(m@),
    }
}

/// The message for one toss of the coin.
pub open spec fn message_of(refused: bool) -> Result<Seq<char>, Seq<char>> {
    if refused {
        Err(refusal())
    } else {
        Ok(greeting())
    }
}

/// Tosses a coin with `rand::random`. Nothing is promised of the result.
#[verifier::external_body]
pub(crate) fn toss() -> bool {
    rand::random()
}

/// The greeting, or the refusal where `refused` holds.
pub fn message_for(refused: bool) -> (res: Result<&'static str, &'static str>)
    ensures
        message_view(res) == message_of(refused),
{
    if refused {
        Err("no message for you")
    } else {
        Ok("Hello, world!")
    }
}

/// The greeting, or a refusal, as a coin decides.
pub fn generate_message() -> (res: Result<&'static str, &'static str>)
    ensures
        message_view(res) == message_of(true) || message_view(res) == message_of(false),
{
    message_for(toss())
}

} // verus!
