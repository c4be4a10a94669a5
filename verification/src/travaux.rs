//! The work item collection: payload shapes, mapping, the keyed store, and
//! the one filtered listing the backend offers (work items of one project).

use vstd::prelude::*;

use crate::collection::{
    has_key, key_index, lemma_key_index_is, lemma_put_unique, lemma_remove_unique, lookup, put,
    remove_key, unique_keys, StoreError,
};
use crate::ids::fresh_id;
use crate::models::{
    clone_id_list, Application, Environnement, StatutTravail, Travail, TravailView, TypeTravail,
};

verus! {

/// Payload of a work item create or update request: every field of the
/// record except the identifier, which the store assigns and preserves.
#[derive(Debug)]
pub struct CreateTravailRequest {
    pub projet_id: u128,
    pub type_travail: TypeTravail,
    pub application: Application,
    pub environnement: Environnement,
    pub description: String,
    pub date_debut: i64,
    pub date_fin_prevue: i64,
    pub statut: StatutTravail,
    pub responsable: u128,
    pub equipe: Vec<u128>,
}

/// Mathematical view of a [`CreateTravailRequest`].
pub ghost struct CreateTravailRequestView {
    pub projet_id: u128,
    pub type_travail: TypeTravail,
    pub application: Application,
    pub environnement: Environnement,
    pub description: Seq<char>,
    pub date_debut: i64,
    pub date_fin_prevue: i64,
    pub statut: StatutTravail,
    pub responsable: u128,
    pub equipe: Seq<u128>,
}

impl View for CreateTravailRequest {
    type V = CreateTravailRequestView;

    open spec fn view(&self) -> CreateTravailRequestView {
        CreateTravailRequestView {
            projet_id: self.projet_id,
            type_travail: self.type_travail,
            application: self.application,
            environnement: self.environnement,
            description: self.description@,
            date_debut: self.date_debut,
            date_fin_prevue: self.date_fin_prevue,
            statut: self.statut,
            responsable: self.responsable,
            equipe: self.equipe@,
        }
    }
}

/// Response shape of a work item: the identifier plus a field-for-field
/// copy of the record. Its view is the record's own view.
#[derive(Debug, PartialEq)]
pub struct TravailResponse {
    pub id: u128,
    pub projet_id: u128,
    pub type_travail: TypeTravail,
    pub application: Application,
    pub environnement: Environnement,
    pub description: String,
    pub date_debut: i64,
    pub date_fin_prevue: i64,
    pub statut: StatutTravail,
    pub responsable: u128,
    pub equipe: Vec<u128>,
}

impl View for TravailResponse {
    type V = TravailView;

    open spec fn view(&self) -> TravailView {
        TravailView {
            id: self.id,
            projet_id: self.projet_id,
            type_travail: self.type_travail,
            application: self.application,
            environnement: self.environnement,
            description: self.description@,
            date_debut: self.date_debut,
            date_fin_prevue: self.date_fin_prevue,
            statut: self.statut,
            responsable: self.responsable,
            equipe: self.equipe@,
        }
    }
}

/// The key a stored work item is addressed by.
pub open spec fn travail_key() -> spec_fn(TravailView) -> u128 {
    |t: TravailView| t.id
}

/// Whether a work item refers to the given project.
pub open spec fn travail_by_projet(projet_id: u128) -> spec_fn(TravailView) -> bool {
    |t: TravailView| t.projet_id == projet_id
}

/// The views of a sequence of responses.
pub open spec fn travail_response_views(r: Seq<TravailResponse>) -> Seq<TravailView> {
    r.map_values(|t: TravailResponse| t@)
}

/// The record that a create or update payload stands for, once the store
/// has bound it to the identifier `id`.
pub open spec fn travail_of_request(id: u128, q: CreateTravailRequestView) -> TravailView {
    TravailView {
        id: id,
        projet_id: q.projet_id,
        type_travail: q.type_travail,
        application: q.application,
        environnement: q.environnement,
        description: q.description,
        date_debut: q.date_debut,
        date_fin_prevue: q.date_fin_prevue,
        statut: q.statut,
        responsable: q.responsable,
        equipe: q.equipe,
    }
}

/// Builds the stored record out of a payload and the identifier the store
/// assigned to it.
pub fn travail_from_request(id: u128, q: &CreateTravailRequest) -> (t: Travail)
    ensures
        t@ == travail_of_request(id, q@),
{
    Travail {
        id: id,
        projet_id: q.projet_id,
        type_travail: q.type_travail,
        application: q.application,
        environnement: q.environnement,
        description: q.description.clone(),
        date_debut: q.date_debut,
        date_fin_prevue: q.date_fin_prevue,
        statut: q.statut,
        responsable: q.responsable,
        equipe: clone_id_list(&q.equipe),
    }
}

/// Copies a stored record into the response shape, field for field.
pub fn travail_to_response(t: &Travail) -> (r: TravailResponse)
    ensures
        r@ == t@,
{
    TravailResponse {
        id: t.id,
        projet_id: t.projet_id,
        type_travail: t.type_travail,
        application: t.application,
        environnement: t.environnement,
        description: t.description.clone(),
        date_debut: t.date_debut,
        date_fin_prevue: t.date_fin_prevue,
        statut: t.statut,
        responsable: t.responsable,
        equipe: clone_id_list(&t.equipe),
    }
}

/// The error body a missing work item is reported with.
pub fn travail_not_found_message() -> (r: String)
    ensures
        r@ == "Travail non trouvé"@,
{
    "Travail non trouvé".to_owned()
}

/// Filtering by project keeps exactly the work items whose project
/// reference equals the given identifier: every kept item refers to it,
/// and every stored item referring to it is kept.
pub proof fn lemma_filter_by_projet(s: Seq<TravailView>, projet_id: u128)
    ensures
        forall|i: int|
            0 <= i < s.filter(travail_by_projet(projet_id)).len() ==> (#[trigger] s.filter(
                travail_by_projet(projet_id),
            )[i]).projet_id == projet_id,
        forall|i: int|
            0 <= i < s.len() && (#[trigger] s[i]).projet_id == projet_id ==> s.filter(
                travail_by_projet(projet_id),
            ).contains(s[i]),
{
    let pred = travail_by_projet(projet_id);
    let f = s.filter(pred);
    assert forall|i: int| 0 <= i < f.len() implies (#[trigger] f[i]).projet_id == projet_id by {
        s.lemma_filter_pred(pred, i);
    }
    assert forall|i: int|
        0 <= i < s.len() && (#[trigger] s[i]).projet_id == projet_id implies f.contains(s[i]) by {
        s.lemma_filter_contains(pred, i);
    }
}

/// The work item collection: a mapping from identifier to record, viewed
/// as the sequence of stored records in insertion order. No two stored
/// records carry the same identifier.
pub struct TravailStore {
    items: Vec<Travail>,
}

impl View for TravailStore {
    type V = Seq<TravailView>;

    closed spec fn view(&self) -> Seq<TravailView> {
        self.items@.map_values(|t: Travail| t@)
    }
}

impl TravailStore {
    /// Well-formedness: stored identifiers are pairwise distinct.
    pub open spec fn wf(&self) -> bool {
        unique_keys(self@, travail_key())
    }

    /// An empty collection.
    pub fn new() -> (s: Self)
        ensures
            s@ == Seq::<TravailView>::empty(),
            s.wf(),
    {
        let s = TravailStore { items: Vec::new() };
        proof {
            assert(s@ =~= Seq::<TravailView>::empty());
        }
        s
    }

    /// The index of the record carrying `id`, if one does.
    fn index_of(&self, id: u128) -> (r: Option<usize>)
        ensures
            match r {
                Some(i) => 0 <= i < self@.len() && self@[i as int].id == id,
                None => !has_key(self@, travail_key(), id),
            },
    {
        let mut i: usize = 0;
        while i < self.items.len()
            invariant
                i <= self.items.len(),
                forall|k: int| 0 <= k < i ==> self@[k].id != id,
            decreases self.items.len() - i,
        {
            if self.items[i].id == id {
                return Some(i);
            }
            i = i + 1;
        }
        proof {
            if has_key(self@, travail_key(), id) {
                let j = key_index(self@, travail_key(), id);
                assert(self@[j].id == id);
            }
        }
        None
    }

    /// A snapshot of every stored work item, in storage order.
    pub fn get_travaux(&self) -> (r: Vec<TravailResponse>)
        ensures
            r@.len() == self@.len(),
            forall|i: int| 0 <= i < self@.len() ==> #[trigger] r@[i]@ == self@[i],
    {
        let mut r: Vec<TravailResponse> = Vec::new();
        let mut i: usize = 0;
        while i < self.items.len()
            invariant
                i <= self.items.len(),
                r@.len() == i,
                forall|k: int| 0 <= k < i ==> #[trigger] r@[k]@ == self@[k],
            decreases self.items.len() - i,
        {
            r.push(travail_to_response(&self.items[i]));
            i = i + 1;
        }
        r
    }

    /// The stored work item carrying `id`, or `NotFound` when none does.
    pub fn get_travail(&self, id: u128) -> (r: Result<TravailResponse, StoreError>)
        requires
            self.wf(),
        ensures
            match r {
                Ok(t) => lookup(self@, travail_key(), id) == Some(t@),
                Err(e) => e == StoreError::NotFound && lookup(self@, travail_key(), id) is None,
            },
    {
        match self.index_of(id) {
            Some(i) => {
                proof {
                    lemma_key_index_is(self@, travail_key(), i as int);
                }
                Ok(travail_to_response(&self.items[i]))
            },
            None => Err(StoreError::NotFound),
        }
    }

    /// A snapshot of the work items whose project reference equals
    /// `projet_id`, and of no other: the empty list when none matches,
    /// never an error.
    pub fn get_travaux_by_projet(&self, projet_id: u128) -> (r: Vec<TravailResponse>)
        ensures
            travail_response_views(r@) == self@.filter(travail_by_projet(projet_id)),
    {
        let ghost pred = travail_by_projet(projet_id);
        let mut r: Vec<TravailResponse> = Vec::new();
        proof {
            assert(travail_response_views(r@) =~= Seq::<TravailView>::empty());
            reveal(Seq::filter);
            assert(self@.take(0).filter(pred) =~= Seq::<TravailView>::empty());
        }
        let mut i: usize = 0;
        while i < self.items.len()
            invariant
                i <= self.items.len(),
                travail_response_views(r@) == self@.take(i as int).filter(
                    travail_by_projet(projet_id),
                ),
            decreases self.items.len() - i,
        {
            let ghost prev = r@;
            if self.items[i].projet_id == projet_id {
                r.push(travail_to_response(&self.items[i]));
            }
            proof {
                reveal(Seq::filter);
                let pre = self@.take(i as int);
                let post = self@.take(i as int + 1);
                assert(post.drop_last() =~= pre);
                assert(post.last() == self@[i as int]);
                if self@[i as int].projet_id == projet_id {
                    assert(travail_response_views(r@) =~= travail_response_views(prev).push(
                        self@[i as int],
                    ));
                } else {
                    assert(travail_response_views(r@) =~= travail_response_views(prev));
                }
            }
            i = i + 1;
        }
        proof {
            assert(self@.take(self@.len() as int) =~= self@);
        }
        r
    }

    /// Stores the payload under the given identifier: the record already
    /// carrying it is replaced wholesale, a fresh identifier is appended.
    /// Returns the stored record.
    pub fn create_travail_with_id(&mut self, id: u128, q: &CreateTravailRequest) -> (r:
        TravailResponse)
        requires
            old(self).wf(),
        ensures
            final(self).wf(),
            r@ == travail_of_request(id, q@),
            final(self)@ == put(old(self)@, travail_key(), r@),
    {
        let t = travail_from_request(id, q);
        let r = travail_to_response(&t);
        proof {
            lemma_put_unique(old(self)@, travail_key(), t@);
        }
        match self.index_of(id) {
            Some(i) => {
                proof {
                    lemma_key_index_is(self@, travail_key(), i as int);
                }
                self.items.set(i, t);
                proof {
                    assert(self@ =~= old(self)@.update(i as int, r@));
                }
            },
            None => {
                self.items.push(t);
                proof {
                    assert(self@ =~= old(self)@.push(r@));
                }
            },
        }
        r
    }

    /// Creates a work item from the payload: draws a fresh identifier,
    /// builds the record, stores it and returns it. The identifier is
    /// random, so every field but `id` of the result equals the payload's;
    /// which identifier was drawn can only be read off the result.
    pub fn create_travail(&mut self, q: &CreateTravailRequest) -> (r: TravailResponse)
        requires
            old(self).wf(),
        ensures
            final(self).wf(),
            r@ == travail_of_request(r@.id, q@),
            final(self)@ == put(old(self)@, travail_key(), r@),
    {
        let id = fresh_id();
        self.create_travail_with_id(id, q)
    }

    /// Overwrites every field but the identifier of the record carrying
    /// `id` from the payload and returns the updated record, or signals
    /// `NotFound` and leaves the collection unchanged when `id` is absent.
    pub fn update_travail(&mut self, id: u128, q: &CreateTravailRequest) -> (r: Result<
        TravailResponse,
        StoreError,
    >)
        requires
            old(self).wf(),
        ensures
            final(self).wf(),
            match r {
                Ok(t) => has_key(old(self)@, travail_key(), id) && t@ == travail_of_request(id, q@)
                    && final(self)@ == put(old(self)@, travail_key(), t@),
                Err(e) => e == StoreError::NotFound && !has_key(old(self)@, travail_key(), id)
                    && final(self)@ == old(self)@,
            },
    {
        match self.index_of(id) {
            Some(i) => {
                let t = travail_from_request(id, q);
                let r = travail_to_response(&t);
                proof {
                    lemma_put_unique(old(self)@, travail_key(), t@);
                    lemma_key_index_is(self@, travail_key(), i as int);
                }
                self.items.set(i, t);
                proof {
                    assert(self@ =~= old(self)@.update(i as int, r@));
                }
                Ok(r)
            },
            None => Err(StoreError::NotFound),
        }
    }

    /// Removes the record carrying `id` and signals success with no body,
    /// or signals `NotFound` when `id` is already absent — removal of an
    /// absent identifier fails, it does not succeed silently.
    pub fn delete_travail(&mut self, id: u128) -> (r: Result<(), StoreError>)
        requires
            old(self).wf(),
        ensures
            final(self).wf(),
            final(self)@ == remove_key(old(self)@, travail_key(), id),
            match r {
                Ok(u) => has_key(old(self)@, travail_key(), id),
                Err(e) => e == StoreError::NotFound && !has_key(old(self)@, travail_key(), id),
            },
    {
        match self.index_of(id) {
            Some(i) => {
                proof {
                    lemma_remove_unique(old(self)@, travail_key(), id);
                    lemma_key_index_is(self@, travail_key(), i as int);
                }
                self.items.remove(i);
                proof {
                    assert(self@ =~= old(self)@.remove(i as int));
                }
                Ok(())
            },
            None => Err(StoreError::NotFound),
        }
    }
}

} // verus!
