//! What the bot does on the events of its session.
use vstd::prelude::*;
use vstd::string::*;

verus! {

/// Handles the events of the session that are no messages.
pub struct Handler;

/// The line logged once the session stands.
pub open spec fn connected_line(user_name: Seq<char>) -> Seq<char> {
    user_name + " is connected!"@
}

impl Handler {
    /// Runs when the session stands, with the name the bot goes by there:
    /// returns the line for the log.
    pub fn ready(&self, user_name: &str) -> (line: String)
        ensures
            line@ == connected_line(user_name@),
    {
        String::from_str(user_name).concat(" is connected!")
    }
}

} // verus!
