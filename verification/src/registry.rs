use vstd::prelude::*;

verus! {

/// A participant connected to the relay: one record per live connection.
pub struct Participant {
    /// Connection identity, stable for the lifetime of one connection.
    pub id: String,
    /// Display name, set at join time; empty until the first join.
    pub username: String,
    /// The room the participant currently occupies, if any.
    /// `None` means the participant is in the lobby and only takes part
    /// in global broadcasts.
    pub room: Option<String>,
}

/// The mathematical image of one participant record.
pub ghost struct ParticipantView {
    pub id: Seq<char>,
    pub username: Seq<char>,
    pub room: Option<Seq<char>>,
}

impl View for Participant {
    type V = ParticipantView;

    open spec fn view(&self) -> ParticipantView {
        ParticipantView {
            id: self.id@,
            username: self.username@,
            room: match self.room {
                Some(r) => Some(r@),
                None => None,
            },
        }
    }
}

impl Clone for Participant {
    fn clone(&self) -> (r: Self)
        ensures
            r@ == self@,
    {
        Participant {
            id: self.id.clone(),
            username: self.username.clone(),
            room: match &self.room {
                Some(r) => Some(r.clone()),
                None => None,
            },
        }
    }
}

/// The view of an optional string, as contracts speak of it.
pub open spec fn opt_view(o: Option<String>) -> Option<Seq<char>> {
    match o {
        Some(s) => Some(s@),
        None => None,
    }
}

/// Some record in `s` carries the connection id `id`.
pub open spec fn has_id(s: Seq<Participant>, id: Seq<char>) -> bool {
    exists|i: int| 0 <= i < s.len() && s[i]@.id == id
}

/// The index of the record carrying `id` (meaningful when `has_id` holds
/// and, with `unique_ids`, unambiguous).
pub open spec fn idx_of(s: Seq<Participant>, id: Seq<char>) -> int {
    choose|i: int| 0 <= i < s.len() && s[i]@.id == id
}

/// The view of the record carrying `id`.
pub open spec fn view_of(s: Seq<Participant>, id: Seq<char>) -> ParticipantView {
    s[idx_of(s, id)]@
}

/// The room of the participant `id`, if any.
pub open spec fn room_of(s: Seq<Participant>, id: Seq<char>) -> Option<Seq<char>> {
    view_of(s, id).room
}

/// The display name of the participant `id`.
pub open spec fn name_of(s: Seq<Participant>, id: Seq<char>) -> Seq<char> {
    view_of(s, id).username
}

/// No two records share a connection id.
pub open spec fn unique_ids(s: Seq<Participant>) -> bool {
    forall|i: int, j: int|
        0 <= i < s.len() && 0 <= j < s.len() && i != j ==> s[i]@.id != s[j]@.id
}

/// Every participant other than `id` is registered in `b` exactly as in `a`.
pub open spec fn others_same(a: Seq<Participant>, b: Seq<Participant>, id: Seq<char>) -> bool {
    forall|j: Seq<char>|
        #![trigger has_id(a, j)]
        #![trigger has_id(b, j)]
        j != id ==> ((has_id(a, j) <==> has_id(b, j)) && (has_id(a, j) ==> view_of(b, j)
            == view_of(a, j)))
}

/// With unique ids, the record at index `i` is the one `idx_of` finds for its id.
pub proof fn lemma_idx_of(s: Seq<Participant>, i: int)
    requires
        unique_ids(s),
        0 <= i < s.len(),
    ensures
        has_id(s, s[i]@.id),
        idx_of(s, s[i]@.id) == i,
        view_of(s, s[i]@.id) == s[i]@,
{
    assert(has_id(s, s[i]@.id));
    let j = idx_of(s, s[i]@.id);
    assert(0 <= j < s.len() && s[j]@.id == s[i]@.id);
}

/// When `id` is present, the record `idx_of` finds indeed carries `id`.
pub proof fn lemma_view_of(s: Seq<Participant>, id: Seq<char>)
    requires
        has_id(s, id),
    ensures
        0 <= idx_of(s, id) < s.len(),
        s[idx_of(s, id)]@.id == id,
        view_of(s, id).id == id,
{
    let i = idx_of(s, id);
    assert(0 <= i < s.len() && s[i]@.id == id);
}

/// `others_same` is reflexive.
pub proof fn lemma_others_same_refl(s: Seq<Participant>, id: Seq<char>)
    ensures
        others_same(s, s, id),
{
}

/// `others_same` composes across two successive transitions.
pub proof fn lemma_others_same_trans(
    a: Seq<Participant>,
    b: Seq<Participant>,
    c: Seq<Participant>,
    id: Seq<char>,
)
    requires
        others_same(a, b, id),
        others_same(b, c, id),
    ensures
        others_same(a, c, id),
{
    assert forall|j: Seq<char>|
        j != id implies ((has_id(a, j) <==> has_id(c, j)) && (has_id(a, j) ==> view_of(c, j)
        == view_of(a, j))) by {
        assert(has_id(a, j) <==> has_id(b, j));
        assert(has_id(b, j) <==> has_id(c, j));
    }
}

/// Appending a record with a fresh id keeps ids unique, registers exactly
/// that record, and leaves every other participant as it was.
pub proof fn lemma_push_effect(s: Seq<Participant>, p: Participant)
    requires
        unique_ids(s),
        !has_id(s, p@.id),
    ensures
        unique_ids(s.push(p)),
        has_id(s.push(p), p@.id),
        view_of(s.push(p), p@.id) == p@,
        others_same(s, s.push(p), p@.id),
{
    let s1 = s.push(p);
    assert forall|i: int, j: int|
        0 <= i < s1.len() && 0 <= j < s1.len() && i != j implies s1[i]@.id != s1[j]@.id by {
        if i < s.len() && j < s.len() {
            assert(s1[i] == s[i] && s1[j] == s[j]);
        } else if i == s.len() {
            assert(s1[j] == s[j]);
            if s1[i]@.id == s1[j]@.id {
                assert(has_id(s, p@.id));
            }
        } else {
            assert(s1[i] == s[i]);
            if s1[i]@.id == s1[j]@.id {
                assert(has_id(s, p@.id));
            }
        }
    }
    assert(s1[s.len() as int] == p);
    lemma_idx_of(s1, s.len() as int);
    assert forall|j: Seq<char>|
        j != p@.id implies ((has_id(s, j) <==> has_id(s1, j)) && (has_id(s, j) ==> view_of(s1, j)
        == view_of(s, j))) by {
        if has_id(s, j) {
            let i = idx_of(s, j);
            assert(0 <= i < s.len() && s[i]@.id == j);
            assert(s1[i] == s[i]);
            lemma_idx_of(s1, i);
            lemma_idx_of(s, i);
        }
        if has_id(s1, j) {
            let i = idx_of(s1, j);
            assert(0 <= i < s1.len() && s1[i]@.id == j);
            assert(i != s.len());
            assert(s1[i] == s[i]);
            assert(has_id(s, j));
        }
    }
}

/// Replacing the record at `i` by one with the same id keeps ids unique,
/// re-registers exactly that record, and leaves every other participant as it was.
pub proof fn lemma_update_effect(s: Seq<Participant>, i: int, p: Participant)
    requires
        unique_ids(s),
        0 <= i < s.len(),
        s[i]@.id == p@.id,
    ensures
        unique_ids(s.update(i, p)),
        has_id(s.update(i, p), p@.id),
        view_of(s.update(i, p), p@.id) == p@,
        others_same(s, s.update(i, p), p@.id),
{
    let s1 = s.update(i, p);
    assert forall|x: int, y: int|
        0 <= x < s1.len() && 0 <= y < s1.len() && x != y implies s1[x]@.id != s1[y]@.id by {
        assert(s1[x]@.id == s[x]@.id);
        assert(s1[y]@.id == s[y]@.id);
    }
    assert(s1[i] == p);
    lemma_idx_of(s1, i);
    assert forall|j: Seq<char>|
        j != p@.id implies ((has_id(s, j) <==> has_id(s1, j)) && (has_id(s, j) ==> view_of(s1, j)
        == view_of(s, j))) by {
        if has_id(s, j) {
            let k = idx_of(s, j);
            assert(0 <= k < s.len() && s[k]@.id == j);
            assert(k != i);
            assert(s1[k] == s[k]);
            lemma_idx_of(s1, k);
            lemma_idx_of(s, k);
        }
        if has_id(s1, j) {
            let k = idx_of(s1, j);
            assert(0 <= k < s1.len() && s1[k]@.id == j);
            assert(k != i);
            assert(s1[k] == s[k]);
            assert(has_id(s, j));
        }
    }
}

/// Removing the record at `i` keeps ids unique, unregisters exactly its id,
/// and leaves every other participant as it was.
pub proof fn lemma_remove_effect(s: Seq<Participant>, i: int)
    requires
        unique_ids(s),
        0 <= i < s.len(),
    ensures
        unique_ids(s.remove(i)),
        !has_id(s.remove(i), s[i]@.id),
        others_same(s, s.remove(i), s[i]@.id),
{
    let s1 = s.remove(i);
    s.remove_ensures(i);
    let id = s[i]@.id;
    assert forall|x: int, y: int|
        0 <= x < s1.len() && 0 <= y < s1.len() && x != y implies s1[x]@.id != s1[y]@.id by {
        let x0: int = if x < i { x } else { x + 1 };
        let y0: int = if y < i { y } else { y + 1 };
        assert(s1[x] == s[x0]);
        assert(s1[y] == s[y0]);
    }
    assert forall|k: int| 0 <= k < s1.len() implies s1[k]@.id != id by {
        let k0: int = if k < i { k } else { k + 1 };
        assert(s1[k] == s[k0]);
        assert(k0 != i);
    }
    assert(!has_id(s1, id));
    assert forall|j: Seq<char>|
        j != id implies ((has_id(s, j) <==> has_id(s1, j)) && (has_id(s, j) ==> view_of(s1, j)
        == view_of(s, j))) by {
        if has_id(s, j) {
            let k = idx_of(s, j);
            assert(0 <= k < s.len() && s[k]@.id == j);
            assert(k != i);
            let k1: int = if k < i { k } else { k - 1 };
            assert(s1[k1] == s[k]);
            lemma_idx_of(s1, k1);
            lemma_idx_of(s, k);
        }
        if has_id(s1, j) {
            let k = idx_of(s1, j);
            assert(0 <= k < s1.len() && s1[k]@.id == j);
            let k0: int = if k < i { k } else { k + 1 };
            assert(s1[k] == s[k0]);
            assert(has_id(s, j));
        }
    }
}

/// Why a registry operation was refused.
#[derive(Clone, Copy, PartialEq, Eq, Structural, Debug)]
pub enum RegistryError {
    /// A record for the id is already present where none may be.
    DuplicateIdentity,
    /// No record for the id is present where one is needed.
    UnknownParticipant,
}

/// Single source of truth for who is connected and what room each
/// participant is in.
pub struct Registry {
    pub users: Vec<Participant>,
}

impl View for Registry {
    type V = Seq<Participant>;

    open spec fn view(&self) -> Seq<Participant> {
        self.users@
    }
}

impl Registry {
    /// Well-formed: no two records share a connection id.
    pub open spec fn wf(&self) -> bool {
        unique_ids(self@)
    }

    /// An empty registry: nobody is connected.
    pub fn new() -> (r: Registry)
        ensures
            r.wf(),
            r@.len() == 0,
    {
        Registry { users: Vec::new() }
    }

    /// The index of the record carrying `id`, if one is present.
    fn index_of_id(&self, id: &String) -> (r: Option<usize>)
        requires
            self.wf(),
        ensures
            match r {
                Some(i) => 0 <= i < self@.len() && self@[i as int]@.id == id@ && has_id(
                    self@,
                    id@,
                ) && idx_of(self@, id@) == i,
                None => !has_id(self@, id@),
            },
    {
        let mut i: usize = 0;
        while i < self.users.len()
            invariant
                self.wf(),
                i <= self@.len(),
                forall|k: int| 0 <= k < i ==> self@[k]@.id != id@,
            decreases self@.len() - i,
        {
            if self.users[i].id == *id {
                proof {
                    lemma_idx_of(self@, i as int);
                }
                return Some(i);
            }
            i += 1;
        }
        None
    }

    /// Insert a fresh record for `id`: no display name yet, no room.
    /// Refused with `DuplicateIdentity` when `id` is already registered.
    pub fn register(&mut self, id: &String) -> (r: Result<(), RegistryError>)
        requires
            old(self).wf(),
        ensures
            final(self).wf(),
            r is Ok <==> !has_id(old(self)@, id@),
            match r {
                Ok(u) => has_id(final(self)@, id@) && view_of(final(self)@, id@)
                    == (ParticipantView { id: id@, username: Seq::<char>::empty(), room: None })
                    && others_same(old(self)@, final(self)@, id@),
                Err(e) => e == RegistryError::DuplicateIdentity && final(self)@ == old(self)@,
            },
    {
        match self.index_of_id(id) {
            Some(_) => Err(RegistryError::DuplicateIdentity),
            None => {
                let p = Participant { id: id.clone(), username: String::new(), room: None };
                proof {
                    lemma_push_effect(self@, p);
                }
                self.users.push(p);
                Ok(())
            },
        }
    }

    /// Set the display name and the room of the registered participant `id`.
    /// Refused with `UnknownParticipant` when `id` is not registered.
    pub fn set_profile(&mut self, id: &String, username: String, room: String) -> (r: Result<
        (),
        RegistryError,
    >)
        requires
            old(self).wf(),
        ensures
            final(self).wf(),
            r is Ok <==> has_id(old(self)@, id@),
            match r {
                Ok(u) => has_id(final(self)@, id@) && view_of(final(self)@, id@)
                    == (ParticipantView { id: id@, username: username@, room: Some(room@) })
                    && others_same(old(self)@, final(self)@, id@),
                Err(e) => e == RegistryError::UnknownParticipant && final(self)@ == old(self)@,
            },
    {
        match self.index_of_id(id) {
            None => Err(RegistryError::UnknownParticipant),
            Some(i) => {
                let p = Participant { id: id.clone(), username, room: Some(room) };
                proof {
                    lemma_update_effect(self@, i as int, p);
                }
                let ghost pv = p@;
                self.users[i] = p;
                proof {
                    assert(self@ == old(self)@.update(i as int, self@[i as int]));
                    assert(self@[i as int]@ == pv);
                }
                Ok(())
            },
        }
    }

    /// A read-only snapshot of the participant `id`, absent when `id` is
    /// not registered.
    pub fn get(&self, id: &String) -> (r: Option<Participant>)
        requires
            self.wf(),
        ensures
            r is Some <==> has_id(self@, id@),
            r matches Some(p) ==> p@ == view_of(self@, id@) && p@.id == id@,
    {
        match self.index_of_id(id) {
            None => None,
            Some(i) => Some(self.users[i].clone()),
        }
    }

    /// Put the participant `id` back in the lobby: no current room.
    /// A no-op when `id` is not registered.
    pub fn clear_room(&mut self, id: &String)
        requires
            old(self).wf(),
        ensures
            final(self).wf(),
            has_id(old(self)@, id@) ==> has_id(final(self)@, id@) && view_of(final(self)@, id@)
                == (ParticipantView {
                id: id@,
                username: name_of(old(self)@, id@),
                room: None,
            }) && others_same(old(self)@, final(self)@, id@),
            !has_id(old(self)@, id@) ==> final(self)@ == old(self)@,
    {
        match self.index_of_id(id) {
            None => {},
            Some(i) => {
                let p = Participant {
                    id: self.users[i].id.clone(),
                    username: self.users[i].username.clone(),
                    room: None,
                };
                proof {
                    lemma_update_effect(self@, i as int, p);
                }
                let ghost pv = p@;
                self.users[i] = p;
                proof {
                    assert(self@ == old(self)@.update(i as int, self@[i as int]));
                    assert(self@[i as int]@ == pv);
                }
            },
        }
    }

    /// Remove the record for `id` entirely. A no-op when `id` is not
    /// registered, so a repeated removal changes nothing.
    pub fn unregister(&mut self, id: &String)
        requires
            old(self).wf(),
        ensures
            final(self).wf(),
            !has_id(final(self)@, id@),
            others_same(old(self)@, final(self)@, id@),
            !has_id(old(self)@, id@) ==> final(self)@ == old(self)@,
    {
        match self.index_of_id(id) {
            None => {
                proof {
                    lemma_others_same_refl(self@, id@);
                }
            },
            Some(i) => {
                proof {
                    lemma_remove_effect(self@, i as int);
                }
                self.users.remove(i);
            },
        }
    }

    /// A snapshot of every current participant, in registration order.
    pub fn list(&self) -> (r: Vec<Participant>)
        ensures
            r@.len() == self@.len(),
            forall|i: int| 0 <= i < r@.len() ==> r@[i]@ == self@[i]@,
    {
        let mut out: Vec<Participant> = Vec::new();
        let mut i: usize = 0;
        while i < self.users.len()
            invariant
                i <= self@.len(),
                out@.len() == i,
                forall|k: int| 0 <= k < i ==> out@[k]@ == self@[k]@,
            decreases self@.len() - i,
        {
            out.push(self.users[i].clone());
            i += 1;
        }
        out
    }
}

} // verus!
