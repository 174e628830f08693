use vstd::prelude::*;
use std::collections::HashMap;

use crate::message::{Message, MessageSender};
use crate::network::{ServerMessage, Token, User};

verus! {

broadcast use vstd::std_specs::hash::group_hash_axioms;

/// The names of `users` by id; where an id occurs twice the later entry wins.
pub open spec fn names_of(users: Seq<User>) -> Map<u32, String>
    decreases users.len(),
{
    if users.len() == 0 {
        Map::empty()
    } else {
        names_of(users.drop_last()).insert(users.last().id, users.last().name)
    }
}

/// The name listed for `id` in `names`, if there is one.
pub open spec fn name_in(names: Map<u32, String>, id: u32) -> Option<String> {
    if names.contains_key(id) {
        Some(names[id])
    } else {
        None
    }
}

/// `m` is the history entry for the server's message `s`, with the sender's
/// name taken from `names`.
pub open spec fn converted(m: Message, s: ServerMessage, names: Map<u32, String>) -> bool {
    &&& m.timestamp == s.created_at
    &&& m.sender == MessageSender::User(s.user_id)
    &&& m.content == s.body
    &&& m.username == name_in(names, s.user_id)
}

/// The display names of the server's users, by id.
pub struct UserDirectory {
    names: HashMap<u32, String>,
}

impl UserDirectory {
    /// The names the directory holds.
    pub closed spec fn names(&self) -> Map<u32, String> {
        self.names@
    }

    /// A directory that knows no user.
    pub fn new() -> (r: UserDirectory)
        ensures
            r.names() == Map::<u32, String>::empty(),
    {
        UserDirectory { names: HashMap::new() }
    }

    /// The directory of `users`; where an id occurs twice the later entry wins.
    pub fn from_users(users: &Vec<User>) -> (r: UserDirectory)
        ensures
            r.names() == names_of(users@),
    {
        let mut names: HashMap<u32, String> = HashMap::new();
        let mut i: usize = 0;
        while i < users.len()
            invariant
                i <= users.len(),
                names@ == names_of(users@.subrange(0, i as int)),
            decreases users.len() - i,
        {
            let u = &users[i];
            names.insert(u.id, u.name.clone());
            proof {
                let next = users@.subrange(0, i + 1);
                assert(next.drop_last() == users@.subrange(0, i as int));
                assert(next.last() == users@[i as int]);
            }
            i = i + 1;
        }
        assert(users@.subrange(0, users@.len() as int) == users@);
        UserDirectory { names }
    }

    /// Whether the directory knows no user.
    pub fn is_empty(&self) -> (r: bool)
        ensures
            r == (self.names().dom().len() == 0),
    {
        self.names.is_empty()
    }

    /// The name of the user `id`, if the directory lists it.
    pub fn name_of(&self, id: u32) -> (r: Option<String>)
        ensures
            r == name_in(self.names(), id),
    {
        match self.names.get(&id) {
            Some(name) => Some(name.clone()),
            None => None,
        }
    }

    /// Fills in the token's display name from the directory.
    pub fn label_token(&self, token: &mut Token)
        ensures
            final(token).username == name_in(self.names(), old(token).user_id),
            final(token).token == old(token).token,
            final(token).user_id == old(token).user_id,
            final(token).expiry == old(token).expiry,
    {
        token.username = self.name_of(token.user_id);
    }

    /// The history entries for the server's messages, in the same order,
    /// each with its sender's name where the directory lists it.
    pub fn to_messages(&self, list: &Vec<ServerMessage>) -> (r: Vec<Message>)
        ensures
            r@.len() == list@.len(),
            forall|i: int| 0 <= i < list@.len() ==> converted(#[trigger] r@[i], list@[i], self.names()),
    {
        let mut out: Vec<Message> = Vec::new();
        let mut i: usize = 0;
        while i < list.len()
            invariant
                i <= list.len(),
                out@.len() == i,
                forall|j: int| 0 <= j < i ==> converted(#[trigger] out@[j], list@[j], self.names()),
            decreases list.len() - i,
        {
            let s = &list[i];
            let m = Message {
                timestamp: s.created_at,
                sender: MessageSender::User(s.user_id),
                content: s.body.clone(),
                username: self.name_of(s.user_id),
            };
            out.push(m);
            i = i + 1;
        }
        out
    }
}

} // verus!
