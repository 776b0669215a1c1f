use vstd::prelude::*;

verus! {

/// The name of a group of actors that messages are sent to.
///
/// The actor runtime turns the name into its own key when a message is sent,
/// so the library speaks of a group by its name alone.
#[derive(Debug, PartialEq, Eq)]
pub struct Group {
    name: String,
}

impl View for Group {
    type V = Seq<char>;

    /// The name of the group.
    closed spec fn view(&self) -> Seq<char> {
        self.name@
    }
}

impl Clone for Group {
    /// A copy with the same name.
    fn clone(&self) -> (g: Self)
        ensures
            g@ == self@,
    {
        Group { name: self.name.clone() }
    }
}

impl Group {
    /// The group called `name`.
    pub fn named(name: &str) -> (g: Self)
        ensures
            g@ == name@,
    {
        Group { name: name.to_owned() }
    }

    /// The name of the group, borrowed.
    pub fn as_str(&self) -> (s: &str)
        ensures
            s@ == self@,
    {
        self.name.as_str()
    }
}

} // verus!
