use vstd::prelude::*;

verus! {

/// The relevant content of a visitor's session: the identifier of the
/// signed-in user, if any.
pub struct SessionData {
    pub user_id: Option<String>,
}

impl SessionData {
    /// A session with no identity.
    pub fn new() -> (r: SessionData)
        ensures
            r.user_id is None,
    {
        SessionData { user_id: None }
    }

    /// Records `id` as the signed-in user.
    pub fn insert_identity(&mut self, id: String)
        ensures
            final(self).user_id == Some(id),
    {
        self.user_id = Some(id);
    }

    /// Forgets the signed-in user.
    pub fn remove_identity(&mut self)
        ensures
            final(self).user_id is None,
    {
        self.user_id = None;
    }
}

} // verus!
