use vstd::prelude::*;
use vstd::string::*;

use crate::text::{debug_text, push_debug_text};

verus! {

/// An error that a module function hands back to zsh: the status that the
/// call ends with, and a message.
pub struct ZshErr {
    pub code: i32,
    pub message: String,
}

impl ZshErr {
    /// The text that shows the error: its message.
    pub fn to_display_string(&self) -> (s: String)
        ensures
            s@ == self.message@,
    {
        self.message.clone()
    }
}

/// The message of a failed widget registration.
pub open spec fn widget_clash_message(name: Seq<u8>) -> Seq<char> {
    "Name clash when adding zle widget "@ + debug_text(name)
}

/// What registering the zle widget `name` comes to, given whether zsh took it
/// (`addzlefunction` gives no widget back when the name is taken).
pub fn widget_registration_result(name: &[u8], registered: bool) -> (res: Result<(), ZshErr>)
    ensures
        registered ==> res is Ok,
        !registered ==> (res matches Err(e) && e.code == 1 && e.message@ == widget_clash_message(
            name@,
        )),
{
    if registered {
        Ok(())
    } else {
        let mut message = String::from_str("Name clash when adding zle widget ");
        push_debug_text(&mut message, name);
        Err(ZshErr { code: 1, message })
    }
}

/// How a call of a module function into which zsh called ended.
pub enum CallOutcome {
    Returned(Result<(), ZshErr>),
    Panicked,
}

impl CallOutcome {
    /// The status that zsh is given: 0 on success, the error's code on an
    /// error, 1 when the function panicked.
    pub fn status(&self) -> (code: i32)
        ensures
            code == match self {
                CallOutcome::Returned(Ok(())) => 0,
                CallOutcome::Returned(Err(e)) => e.code,
                CallOutcome::Panicked => 1,
            },
    {
        match self {
            CallOutcome::Returned(Ok(())) => 0,
            CallOutcome::Returned(Err(e)) => e.code,
            CallOutcome::Panicked => 1,
        }
    }
}

} // verus!
