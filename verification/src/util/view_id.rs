use vstd::prelude::*;

verus! {

/// The identity shared by every component mounted in one browser view.
#[derive(Debug)]
pub struct ViewId {
    uuid: String,
}

impl View for ViewId {
    type V = Seq<char>;

    /// The text of the identity.
    closed spec fn view(&self) -> Seq<char> {
        self.uuid@
    }
}

impl ViewId {
    /// Makes the identity whose text is `uuid`.
    pub fn new(uuid: &str) -> (id: Self)
        ensures
            id@ == uuid@,
    {
        let uuid = uuid.to_owned();
        Self { uuid }
    }
}

impl Clone for ViewId {
    /// A copy with the same text.
    fn clone(&self) -> (id: Self)
        ensures
            id@ == self@,
    {
        ViewId { uuid: self.uuid.clone() }
    }
}

} // verus!
