//! The user collection: payload shapes, mapping, and the keyed store.

use vstd::prelude::*;

use crate::collection::{
    has_key, key_index, lemma_key_index_is, lemma_put_unique, lemma_remove_unique, lookup, put,
    remove_key, unique_keys, StoreError,
};
use crate::ids::fresh_id;
use crate::models::{Role, Utilisateur, UtilisateurView};

verus! {

/// Payload of a user create or update request: every field of the record
/// except the identifier, which the store assigns and preserves.
#[derive(Debug)]
pub struct CreateUtilisateurRequest {
    pub nom: String,
    pub email: String,
    pub role: Role,
    pub equipe: String,
    pub actif: bool,
}

/// Mathematical view of a [`CreateUtilisateurRequest`].
pub ghost struct CreateUtilisateurRequestView {
    pub nom: Seq<char>,
    pub email: Seq<char>,
    pub role: Role,
    pub equipe: Seq<char>,
    pub actif: bool,
}

impl View for CreateUtilisateurRequest {
    type V = CreateUtilisateurRequestView;

    open spec fn view(&self) -> CreateUtilisateurRequestView {
        CreateUtilisateurRequestView {
            nom: self.nom@,
            email: self.email@,
            role: self.role,
            equipe: self.equipe@,
            actif: self.actif,
        }
    }
}

/// Response shape of a user: the identifier plus a field-for-field copy of
/// the record. Its view is the record's own view.
#[derive(Debug, PartialEq)]
pub struct UtilisateurResponse {
    pub id: u128,
    pub nom: String,
    pub email: String,
    pub role: Role,
    pub equipe: String,
    pub actif: bool,
}

impl View for UtilisateurResponse {
    type V = UtilisateurView;

    open spec fn view(&self) -> UtilisateurView {
        UtilisateurView {
            id: self.id,
            nom: self.nom@,
            email: self.email@,
            role: self.role,
            equipe: self.equipe@,
            actif: self.actif,
        }
    }
}

/// The key a stored user is addressed by.
pub open spec fn utilisateur_key() -> spec_fn(UtilisateurView) -> u128 {
    |u: UtilisateurView| u.id
}

/// The record that a create or update payload stands for, once the store
/// has bound it to the identifier `id`.
pub open spec fn utilisateur_of_request(id: u128, q: CreateUtilisateurRequestView) -> UtilisateurView {
    UtilisateurView {
        id: id,
        nom: q.nom,
        email: q.email,
        role: q.role,
        equipe: q.equipe,
        actif: q.actif,
    }
}

/// Builds the stored record out of a payload and the identifier the store
/// assigned to it.
pub fn utilisateur_from_request(id: u128, q: &CreateUtilisateurRequest) -> (u: Utilisateur)
    ensures
        u@ == utilisateur_of_request(id, q@),
{
    Utilisateur {
        id: id,
        nom: q.nom.clone(),
        email: q.email.clone(),
        role: q.role,
        equipe: q.equipe.clone(),
        actif: q.actif,
    }
}

/// Copies a stored record into the response shape, field for field.
pub fn utilisateur_to_response(u: &Utilisateur) -> (r: UtilisateurResponse)
    ensures
        r@ == u@,
{
    UtilisateurResponse {
        id: u.id,
        nom: u.nom.clone(),
        email: u.email.clone(),
        role: u.role,
        equipe: u.equipe.clone(),
        actif: u.actif,
    }
}

/// The error body a missing user is reported with.
pub fn utilisateur_not_found_message() -> (r: String)
    ensures
        r@ == "Utilisateur non trouvé"@,
{
    "Utilisateur non trouvé".to_owned()
}

/// The user collection: a mapping from identifier to record, viewed as the
/// sequence of stored records in insertion order. No two stored records
/// carry the same identifier.
pub struct UtilisateurStore {
    items: Vec<Utilisateur>,
}

impl View for UtilisateurStore {
    type V = Seq<UtilisateurView>;

    closed spec fn view(&self) -> Seq<UtilisateurView> {
        self.items@.map_values(|u: Utilisateur| u@)
    }
}

impl UtilisateurStore {
    /// Well-formedness: stored identifiers are pairwise distinct.
    pub open spec fn wf(&self) -> bool {
        unique_keys(self@, utilisateur_key())
    }

    /// An empty collection.
    pub fn new() -> (s: Self)
        ensures
            s@ == Seq::<UtilisateurView>::empty(),
            s.wf(),
    {
        let s = UtilisateurStore { items: Vec::new() };
        proof {
            assert(s@ =~= Seq::<UtilisateurView>::empty());
        }
        s
    }

    /// The index of the record carrying `id`, if one does.
    fn index_of(&self, id: u128) -> (r: Option<usize>)
        ensures
            match r {
                Some(i) => 0 <= i < self@.len() && self@[i as int].id == id,
                None => !has_key(self@, utilisateur_key(), id),
            },
    {
        let mut i: usize = 0;
        while i < self.items.len()
            invariant
                i <= self.items.len(),
                forall|k: int| 0 <= k < i ==> self@[k].id != id,
            decreases self.items.len() - i,
        {
            if self.items[i].id == id {
                return Some(i);
            }
            i = i + 1;
        }
        proof {
            if has_key(self@, utilisateur_key(), id) {
                let j = key_index(self@, utilisateur_key(), id);
                assert(self@[j].id == id);
            }
        }
        None
    }

    /// A snapshot of every stored user, in storage order.
    pub fn get_utilisateurs(&self) -> (r: Vec<UtilisateurResponse>)
        ensures
            r@.len() == self@.len(),
            forall|i: int| 0 <= i < self@.len() ==> #[trigger] r@[i]@ == self@[i],
    {
        let mut r: Vec<UtilisateurResponse> = Vec::new();
        let mut i: usize = 0;
        while i < self.items.len()
            invariant
                i <= self.items.len(),
                r@.len() == i,
                forall|k: int| 0 <= k < i ==> #[trigger] r@[k]@ == self@[k],
            decreases self.items.len() - i,
        {
            r.push(utilisateur_to_response(&self.items[i]));
            i = i + 1;
        }
        r
    }

    /// The stored user carrying `id`, or `NotFound` when none does.
    pub fn get_utilisateur(&self, id: u128) -> (r: Result<UtilisateurResponse, StoreError>)
        requires
            self.wf(),
        ensures
            match r {
                Ok(u) => lookup(self@, utilisateur_key(), id) == Some(u@),
                Err(e) => e == StoreError::NotFound && lookup(self@, utilisateur_key(), id)
                    is None,
            },
    {
        match self.index_of(id) {
            Some(i) => {
                proof {
                    lemma_key_index_is(self@, utilisateur_key(), i as int);
                }
                Ok(utilisateur_to_response(&self.items[i]))
            },
            None => Err(StoreError::NotFound),
        }
    }

    /// Stores the payload under the given identifier: the record already
    /// carrying it is replaced wholesale, a fresh identifier is appended.
    /// Returns the stored record.
    pub fn create_utilisateur_with_id(&mut self, id: u128, q: &CreateUtilisateurRequest) -> (r:
        UtilisateurResponse)
        requires
            old(self).wf(),
        ensures
            final(self).wf(),
            r@ == utilisateur_of_request(id, q@),
            final(self)@ == put(old(self)@, utilisateur_key(), r@),
    {
        let u = utilisateur_from_request(id, q);
        let r = utilisateur_to_response(&u);
        proof {
            lemma_put_unique(old(self)@, utilisateur_key(), u@);
        }
        match self.index_of(id) {
            Some(i) => {
                proof {
                    lemma_key_index_is(self@, utilisateur_key(), i as int);
                }
                self.items.set(i, u);
                proof {
                    assert(self@ =~= old(self)@.update(i as int, r@));
                }
            },
            None => {
                self.items.push(u);
                proof {
                    assert(self@ =~= old(self)@.push(r@));
                }
            },
        }
        r
    }

    /// Creates a user from the payload: draws a fresh identifier, builds
    /// the record, stores it and returns it. The identifier is random, so
    /// every field but `id` of the result equals the payload's; which
    /// identifier was drawn can only be read off the result.
    pub fn create_utilisateur(&mut self, q: &CreateUtilisateurRequest) -> (r: UtilisateurResponse)
        requires
            old(self).wf(),
        ensures
            final(self).wf(),
            r@ == utilisateur_of_request(r@.id, q@),
            final(self)@ == put(old(self)@, utilisateur_key(), r@),
    {
        let id = fresh_id();
        self.create_utilisateur_with_id(id, q)
    }

    /// Overwrites every field but the identifier of the record carrying
    /// `id` from the payload and returns the updated record, or signals
    /// `NotFound` and leaves the collection unchanged when `id` is absent.
    pub fn update_utilisateur(&mut self, id: u128, q: &CreateUtilisateurRequest) -> (r: Result<
        UtilisateurResponse,
        StoreError,
    >)
        requires
            old(self).wf(),
        ensures
            final(self).wf(),
            match r {
                Ok(u) => has_key(old(self)@, utilisateur_key(), id) && u@ == utilisateur_of_request(
                    id,
                    q@,
                ) && final(self)@ == put(old(self)@, utilisateur_key(), u@),
                Err(e) => e == StoreError::NotFound && !has_key(old(self)@, utilisateur_key(), id)
                    && final(self)@ == old(self)@,
            },
    {
        match self.index_of(id) {
            Some(i) => {
                let u = utilisateur_from_request(id, q);
                let r = utilisateur_to_response(&u);
                proof {
                    lemma_put_unique(old(self)@, utilisateur_key(), u@);
                    lemma_key_index_is(self@, utilisateur_key(), i as int);
                }
                self.items.set(i, u);
                proof {
                    assert(self@ =~= old(self)@.update(i as int, r@));
                }
                Ok(r)
            },
            None => Err(StoreError::NotFound),
        }
    }

    /// Removes the record carrying `id` and signals success with no body,
    /// or signals `NotFound` when `id` is already absent — removal of an
    /// absent identifier fails, it does not succeed silently.
    pub fn delete_utilisateur(&mut self, id: u128) -> (r: Result<(), StoreError>)
        requires
            old(self).wf(),
        ensures
            final(self).wf(),
            final(self)@ == remove_key(old(self)@, utilisateur_key(), id),
            match r {
                Ok(u) => has_key(old(self)@, utilisateur_key(), id),
                Err(e) => e == StoreError::NotFound && !has_key(old(self)@, utilisateur_key(), id),
            },
    {
        match self.index_of(id) {
            Some(i) => {
                proof {
                    lemma_remove_unique(old(self)@, utilisateur_key(), id);
                    lemma_key_index_is(self@, utilisateur_key(), i as int);
                }
                self.items.remove(i);
                proof {
                    assert(self@ =~= old(self)@.remove(i as int));
                }
                Ok(())
            },
            None => Err(StoreError::NotFound),
        }
    }
}

} // verus!
