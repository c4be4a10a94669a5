//! The project collection: payload shapes, mapping, and the keyed store.

use vstd::prelude::*;

use crate::collection::{
    has_key, key_index, lemma_key_index_is, lemma_put_unique, lemma_remove_unique, lookup, put,
    remove_key, unique_keys, StoreError,
};
use crate::ids::fresh_id;
use crate::models::{Priorite, Projet, ProjetView, StatutProjet};

verus! {

/// Payload of a project create or update request: every field of the record
/// except the identifier, which the store assigns and preserves.
#[derive(Debug)]
pub struct CreateProjetRequest {
    pub code: String,
    pub nom: String,
    pub description: String,
    pub date_debut: i64,
    pub date_fin_prevue: i64,
    pub statut: StatutProjet,
    pub priorite: Priorite,
}

/// Mathematical view of a [`CreateProjetRequest`].
pub ghost struct CreateProjetRequestView {
    pub code: Seq<char>,
    pub nom: Seq<char>,
    pub description: Seq<char>,
    pub date_debut: i64,
    pub date_fin_prevue: i64,
    pub statut: StatutProjet,
    pub priorite: Priorite,
}

impl View for CreateProjetRequest {
    type V = CreateProjetRequestView;

    open spec fn view(&self) -> CreateProjetRequestView {
        CreateProjetRequestView {
            code: self.code@,
            nom: self.nom@,
            description: self.description@,
            date_debut: self.date_debut,
            date_fin_prevue: self.date_fin_prevue,
            statut: self.statut,
            priorite: self.priorite,
        }
    }
}

/// Response shape of a project: the identifier plus a field-for-field copy
/// of the record. Its view is the record's own view.
#[derive(Debug, PartialEq)]
pub struct ProjetResponse {
    pub id: u128,
    pub code: String,
    pub nom: String,
    pub description: String,
    pub date_debut: i64,
    pub date_fin_prevue: i64,
    pub statut: StatutProjet,
    pub priorite: Priorite,
}

impl View for ProjetResponse {
    type V = ProjetView;

    open spec fn view(&self) -> ProjetView {
        ProjetView {
            id: self.id,
            code: self.code@,
            nom: self.nom@,
            description: self.description@,
            date_debut: self.date_debut,
            date_fin_prevue: self.date_fin_prevue,
            statut: self.statut,
            priorite: self.priorite,
        }
    }
}

/// The key a stored project is addressed by.
pub open spec fn projet_key() -> spec_fn(ProjetView) -> u128 {
    |p: ProjetView| p.id
}

/// The record that a create or update payload stands for, once the store
/// has bound it to the identifier `id`.
pub open spec fn projet_of_request(id: u128, q: CreateProjetRequestView) -> ProjetView {
    ProjetView {
        id: id,
        code: q.code,
        nom: q.nom,
        description: q.description,
        date_debut: q.date_debut,
        date_fin_prevue: q.date_fin_prevue,
        statut: q.statut,
        priorite: q.priorite,
    }
}

/// Builds the stored record out of a payload and the identifier the store
/// assigned to it.
pub fn projet_from_request(id: u128, q: &CreateProjetRequest) -> (p: Projet)
    ensures
        p@ == projet_of_request(id, q@),
{
    Projet {
        id: id,
        code: q.code.clone(),
        nom: q.nom.clone(),
        description: q.description.clone(),
        date_debut: q.date_debut,
        date_fin_prevue: q.date_fin_prevue,
        statut: q.statut,
        priorite: q.priorite,
    }
}

/// Copies a stored record into the response shape, field for field.
pub fn projet_to_response(p: &Projet) -> (r: ProjetResponse)
    ensures
        r@ == p@,
{
    ProjetResponse {
        id: p.id,
        code: p.code.clone(),
        nom: p.nom.clone(),
        description: p.description.clone(),
        date_debut: p.date_debut,
        date_fin_prevue: p.date_fin_prevue,
        statut: p.statut,
        priorite: p.priorite,
    }
}

/// The error body a missing project is reported with.
pub fn projet_not_found_message() -> (r: String)
    ensures
        r@ == "Projet non trouvé"@,
{
    "Projet non trouvé".to_owned()
}

/// The project collection: a mapping from identifier to record, viewed as
/// the sequence of stored records in insertion order. No two stored records
/// carry the same identifier.
pub struct ProjetStore {
    items: Vec<Projet>,
}

impl View for ProjetStore {
    type V = Seq<ProjetView>;

    closed spec fn view(&self) -> Seq<ProjetView> {
        self.items@.map_values(|p: Projet| p@)
    }
}

impl ProjetStore {
    /// Well-formedness: stored identifiers are pairwise distinct.
    pub open spec fn wf(&self) -> bool {
        unique_keys(self@, projet_key())
    }

    /// An empty collection.
    pub fn new() -> (s: Self)
        ensures
            s@ == Seq::<ProjetView>::empty(),
            s.wf(),
    {
        let s = ProjetStore { items: Vec::new() };
        proof {
            assert(s@ =~= Seq::<ProjetView>::empty());
        }
        s
    }

    /// The index of the record carrying `id`, if one does.
    fn index_of(&self, id: u128) -> (r: Option<usize>)
        ensures
            match r {
                Some(i) => 0 <= i < self@.len() && self@[i as int].id == id,
                None => !has_key(self@, projet_key(), id),
            },
    {
        let mut i: usize = 0;
        while i < self.items.len()
            invariant
                i <= self.items.len(),
                forall|k: int| 0 <= k < i ==> self@[k].id != id,
            decreases self.items.len() - i,
        {
            if self.items[i].id == id {
                return Some(i);
            }
            i = i + 1;
        }
        proof {
            if has_key(self@, projet_key(), id) {
                let j = key_index(self@, projet_key(), id);
                assert(self@[j].id == id);
            }
        }
        None
    }

    /// A snapshot of every stored project, in storage order.
    pub fn get_projets(&self) -> (r: Vec<ProjetResponse>)
        ensures
            r@.len() == self@.len(),
            forall|i: int| 0 <= i < self@.len() ==> #[trigger] r@[i]@ == self@[i],
    {
        let mut r: Vec<ProjetResponse> = Vec::new();
        let mut i: usize = 0;
        while i < self.items.len()
            invariant
                i <= self.items.len(),
                r@.len() == i,
                forall|k: int| 0 <= k < i ==> #[trigger] r@[k]@ == self@[k],
            decreases self.items.len() - i,
        {
            r.push(projet_to_response(&self.items[i]));
            i = i + 1;
        }
        r
    }

    /// The stored project carrying `id`, or `NotFound` when none does.
    pub fn get_projet(&self, id: u128) -> (r: Result<ProjetResponse, StoreError>)
        requires
            self.wf(),
        ensures
            match r {
                Ok(p) => lookup(self@, projet_key(), id) == Some(p@),
                Err(e) => e == StoreError::NotFound && lookup(self@, projet_key(), id) is None,
            },
    {
        match self.index_of(id) {
            Some(i) => {
                proof {
                    lemma_key_index_is(self@, projet_key(), i as int);
                }
                Ok(projet_to_response(&self.items[i]))
            },
            None => Err(StoreError::NotFound),
        }
    }

    /// Stores the payload under the given identifier: the record already
    /// carrying it is replaced wholesale, a fresh identifier is appended.
    /// Returns the stored record.
    pub fn create_projet_with_id(&mut self, id: u128, q: &CreateProjetRequest) -> (r:
        ProjetResponse)
        requires
            old(self).wf(),
        ensures
            final(self).wf(),
            r@ == projet_of_request(id, q@),
            final(self)@ == put(old(self)@, projet_key(), r@),
    {
        let p = projet_from_request(id, q);
        let r = projet_to_response(&p);
        proof {
            lemma_put_unique(old(self)@, projet_key(), p@);
        }
        match self.index_of(id) {
            Some(i) => {
                proof {
                    lemma_key_index_is(self@, projet_key(), i as int);
                }
                self.items.set(i, p);
                proof {
                    assert(self@ =~= old(self)@.update(i as int, r@));
                }
            },
            None => {
                self.items.push(p);
                proof {
                    assert(self@ =~= old(self)@.push(r@));
                }
            },
        }
        r
    }

    /// Creates a project from the payload: draws a fresh identifier, builds
    /// the record, stores it and returns it. The identifier is random, so
    /// every field but `id` of the result equals the payload's; which
    /// identifier was drawn can only be read off the result.
    pub fn create_projet(&mut self, q: &CreateProjetRequest) -> (r: ProjetResponse)
        requires
            old(self).wf(),
        ensures
            final(self).wf(),
            r@ == projet_of_request(r@.id, q@),
            final(self)@ == put(old(self)@, projet_key(), r@),
    {
        let id = fresh_id();
        self.create_projet_with_id(id, q)
    }

    /// Overwrites every field but the identifier of the record carrying
    /// `id` from the payload and returns the updated record, or signals
    /// `NotFound` and leaves the collection unchanged when `id` is absent.
    pub fn update_projet(&mut self, id: u128, q: &CreateProjetRequest) -> (r: Result<
        ProjetResponse,
        StoreError,
    >)
        requires
            old(self).wf(),
        ensures
            final(self).wf(),
            match r {
                Ok(p) => has_key(old(self)@, projet_key(), id) && p@ == projet_of_request(id, q@)
                    && final(self)@ == put(old(self)@, projet_key(), p@),
                Err(e) => e == StoreError::NotFound && !has_key(old(self)@, projet_key(), id)
                    && final(self)@ == old(self)@,
            },
    {
        match self.index_of(id) {
            Some(i) => {
                let p = projet_from_request(id, q);
                let r = projet_to_response(&p);
                proof {
                    lemma_put_unique(old(self)@, projet_key(), p@);
                    lemma_key_index_is(self@, projet_key(), i as int);
                }
                self.items.set(i, p);
                proof {
                    assert(self@ =~= old(self)@.update(i as int, r@));
                }
                Ok(r)
            },
            None => Err(StoreError::NotFound),
        }
    }

    /// Removes the record carrying `id` and signals success with no body,
    /// or signals `NotFound` when `id` is already absent — removal of an
    /// absent identifier fails, it does not succeed silently.
    pub fn delete_projet(&mut self, id: u128) -> (r: Result<(), StoreError>)
        requires
            old(self).wf(),
        ensures
            final(self).wf(),
            final(self)@ == remove_key(old(self)@, projet_key(), id),
            match r {
                Ok(u) => has_key(old(self)@, projet_key(), id),
                Err(e) => e == StoreError::NotFound && !has_key(old(self)@, projet_key(), id),
            },
    {
        match self.index_of(id) {
            Some(i) => {
                proof {
                    lemma_remove_unique(old(self)@, projet_key(), id);
                    lemma_key_index_is(self@, projet_key(), i as int);
                }
                self.items.remove(i);
                proof {
                    assert(self@ =~= old(self)@.remove(i as int));
                }
                Ok(())
            },
            None => Err(StoreError::NotFound),
        }
    }
}

} // verus!
