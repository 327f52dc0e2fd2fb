use vstd::prelude::*;

use crate::common::insert_id_u32;

verus! {

/// A person who takes part in meals.
#[derive(Debug)]
pub struct User {
    pub id: u32,
    pub name: String,
}

impl User {
    /// The user under another id.
    pub open spec fn with_id(self, id: u32) -> User {
        User { id, ..self }
    }

    /// The user under the id that the path names.
    pub fn set_id(self, id: u32) -> (u: User)
        ensures
            u == self.with_id(id),
    {
        User { id, ..self }
    }
}

/// The user that creation answers with: the request's name under the id the
/// store gave the new row, cut to its low 32 bits.
pub fn create(user: User, last_insert_id: u64) -> (u: User)
    ensures
        u == user.with_id((last_insert_id % 0x1_0000_0000) as u32),
        u.id == last_insert_id % 0x1_0000_0000,
        u.name == user.name,
{
    let id = insert_id_u32(last_insert_id);
    user.set_id(id)
}

/// The user that an update stores and answers with: the name from the
/// request, under the id from the path (an id in the request is ignored).
pub fn update(path_id: u32, user: User) -> (u: User)
    ensures
        u == user.with_id(path_id),
        u.id == path_id,
        u.name == user.name,
{
    user.set_id(path_id)
}

/// An update stores the user under the path's id, whatever id the request
/// carries, and keeps the name it carries.
pub proof fn lemma_update_uses_path_id(path_id: u32, user: User, other_id: u32)
    ensures
        user.with_id(other_id).with_id(path_id) == user.with_id(path_id),
        user.with_id(path_id).id == path_id,
        user.with_id(path_id).name == user.name,
{
}

} // verus!
