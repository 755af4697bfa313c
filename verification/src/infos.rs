//! Named entries with a one-line description, as the bot lists them.

use vstd::prelude::*;

verus! {

/// A name and what is said about it.
#[derive(Debug, Clone)]
pub struct JsonObject {
    name: String,
    description: String,
}

impl JsonObject {
    /// The entry's name, as a sequence of characters.
    pub closed spec fn name_text(&self) -> Seq<char> {
        self.name@
    }

    /// The entry's description, as a sequence of characters.
    pub closed spec fn description_text(&self) -> Seq<char> {
        self.description@
    }

    /// An entry with the given name and description.
    pub fn new(name: String, description: String) -> (r: Self)
        ensures
            r.name_text() == name@,
            r.description_text() == description@,
    {
        JsonObject { name, description }
    }

    /// The entry's name.
    pub fn name(&self) -> (r: &str)
        ensures
            r@ == self.name_text(),
    {
        self.name.as_str()
    }

    /// The entry's description.
    pub fn description(&self) -> (r: &str)
        ensures
            r@ == self.description_text(),
    {
        self.description.as_str()
    }
}

} // verus!
