//! A single mutable greeting message with two constructors, a setter and a
//! getter. `new` stores any initial string, `default` starts from a fixed
//! welcome message, `set_greeting` overwrites the stored message
//! unconditionally, and `get_greeting` returns a copy of it. Every operation
//! is total: no input is rejected and none can fail.

use vstd::prelude::*;

verus! {

/// The greeting that `GreetingChat::default` starts with.
pub open spec fn default_greeting() -> Seq<char> {
    "Hello, welcome to the chat!"@
}

/// The greeting stored after a set: the new message, whatever was stored
/// before it.
pub open spec fn stored_after_set(prior: Seq<char>, message: Seq<char>) -> Seq<char> {
    message
}

/// Holds the one mutable greeting message.
pub struct GreetingChat {
    /// The current greeting message.
    greeting: String,
}

impl View for GreetingChat {
    type V = Seq<char>;

    /// A chat is modelled by the characters of its stored greeting.
    closed spec fn view(&self) -> Seq<char> {
        self.greeting@
    }
}

impl GreetingChat {
    /// Constructs a chat whose greeting is exactly `init_message`; any
    /// string is accepted, the empty string included.
    pub fn new(init_message: String) -> (chat: Self)
        ensures
            chat@ == init_message@,
    {
        GreetingChat { greeting: init_message }
    }

    /// Constructs a chat whose greeting is the default welcome message.
    pub fn default() -> (chat: Self)
        ensures
            chat@ == default_greeting(),
    {
        Self::new(String::from_str("Hello, welcome to the chat!"))
    }

    /// Overwrites the greeting with `new_message`, unconditionally: the
    /// prior value does not matter and nothing else changes.
    pub fn set_greeting(&mut self, new_message: String)
        ensures
            final(self)@ == stored_after_set(old(self)@, new_message@),
    {
        self.greeting = new_message;
    }

    /// Returns a copy of the current greeting; the chat itself is unchanged.
    pub fn get_greeting(&self) -> (message: String)
        ensures
            message@ == self@,
    {
        self.greeting.clone()
    }
}

/// A set overwrites: after setting `message`, the stored greeting equals
/// `message`, whatever greeting was stored before.
pub proof fn lemma_set_overwrites(prior: Seq<char>, message: Seq<char>)
    ensures
        stored_after_set(prior, message) == message,
{
}

/// Setting the same message twice in succession stores the same greeting as
/// setting it once: a second set accumulates nothing.
pub proof fn lemma_set_idempotent(prior: Seq<char>, message: Seq<char>)
    ensures
        stored_after_set(stored_after_set(prior, message), message)
            == stored_after_set(prior, message),
{
}

} // verus!
