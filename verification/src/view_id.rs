use vstd::prelude::*;

verus! {

/// The identity shared by every component mounted in one browser view.
///
/// It is the request id that the web server gave the page, kept as text.
#[derive(Debug)]
pub struct ViewId {
    uuid: String,
}

impl View for ViewId {
    type V = Seq<char>;

    /// The text of the identity.
    closed spec fn view(&self) -> Seq<char> {
        self.uuid@
    }
}

impl ViewId {
    /// Makes the identity whose text is `uuid`.
    pub fn new(uuid: &str) -> (id: Self)
        ensures
            id@ == uuid@,
    {
        let uuid = uuid.to_owned();
        Self { uuid }
    }

    /// The text of the identity, borrowed.
    pub fn as_str(&self) -> (s: &str)
        ensures
            s@ == self@,
    {
        self.uuid.as_str()
    }

    /// The text of the identity as it is displayed.
    pub fn to_string(&self) -> (s: String)
        ensures
            s@ == self@,
    {
        self.uuid.clone()
    }
}

impl Clone for ViewId {
    /// A copy with the same text.
    fn clone(&self) -> (id: Self)
        ensures
            id@ == self@,
    {
        ViewId { uuid: self.uuid.clone() }
    }
}

impl AsRef<str> for ViewId {
    /// The text of the identity, borrowed.
    fn as_ref(&self) -> (s: &str)
        ensures
            s@ == self@,
    {
        self.as_str()
    }
}

} // verus!
