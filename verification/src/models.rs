//! Entity records and their closed enumerations.
//!
//! Each entity is a plain record identified by a 128-bit identifier that the
//! store assigns at creation time. Date fields are kept as milliseconds since
//! the Unix epoch; the HTTP layer renders them as RFC 3339 text. Every record
//! has a ghost view over mathematical types (`Seq<char>` for text), which is
//! what the store contracts speak of.

use vstd::prelude::*;

verus! {

/// Status of a project.
#[derive(Clone, Copy, Debug, PartialEq, Eq, Structural)]
pub enum StatutProjet {
    Planifie,
    EnCours,
    Termine,
    Suspendu,
}

/// Status of a work item.
#[derive(Clone, Copy, Debug, PartialEq, Eq, Structural)]
pub enum StatutTravail {
    Planifie,
    EnCours,
    Termine,
    Suspendu,
    Annule,
}

/// Status of a checklist item.
#[derive(Clone, Copy, Debug, PartialEq, Eq, Structural)]
pub enum StatutChecklist {
    NonDemarre,
    EnCours,
    Termine,
    Bloque,
}

/// Kind of work a work item stands for.
#[derive(Clone, Copy, Debug, PartialEq, Eq, Structural)]
pub enum TypeTravail {
    CloneBd,
    Migration,
    Rehausement,
    MajApplication,
    Autre,
}

/// Application a work item is scoped to.
#[derive(Clone, Copy, Debug, PartialEq, Eq, Structural)]
pub enum Application {
    EspressoGfr,
    EspressoGrm,
    EspressoGrh,
    EspressoGpa,
    Autre,
}

/// Environment a work item runs against.
#[derive(Clone, Copy, Debug, PartialEq, Eq, Structural)]
pub enum Environnement {
    Test,
    Formation,
    Production,
}

/// Priority of a project.
#[derive(Clone, Copy, Debug, PartialEq, Eq, Structural)]
pub enum Priorite {
    Faible,
    Moyenne,
    Haute,
    Critique,
}

/// Role of a user.
#[derive(Clone, Copy, Debug, PartialEq, Eq, Structural)]
pub enum Role {
    Conseiller,
    Manager,
    Specialiste,
    Admin,
}

/// A migration or infrastructure initiative with a planned timeline.
#[derive(Debug)]
pub struct Projet {
    pub id: u128,
    pub code: String,
    pub nom: String,
    pub description: String,
    pub date_debut: i64,
    pub date_fin_prevue: i64,
    pub statut: StatutProjet,
    pub priorite: Priorite,
}

/// Mathematical view of a [`Projet`].
pub ghost struct ProjetView {
    pub id: u128,
    pub code: Seq<char>,
    pub nom: Seq<char>,
    pub description: Seq<char>,
    pub date_debut: i64,
    pub date_fin_prevue: i64,
    pub statut: StatutProjet,
    pub priorite: Priorite,
}

impl View for Projet {
    type V = ProjetView;

    open spec fn view(&self) -> ProjetView {
        ProjetView {
            id: self.id,
            code: self.code@,
            nom: self.nom@,
            description: self.description@,
            date_debut: self.date_debut,
            date_fin_prevue: self.date_fin_prevue,
            statut: self.statut,
            priorite: self.priorite,
        }
    }
}

impl Clone for Projet {
    fn clone(&self) -> (r: Self)
        ensures
            r@ == self@,
    {
        Projet {
            id: self.id,
            code: self.code.clone(),
            nom: self.nom.clone(),
            description: self.description.clone(),
            date_debut: self.date_debut,
            date_fin_prevue: self.date_fin_prevue,
            statut: self.statut,
            priorite: self.priorite,
        }
    }
}

/// A unit of work under a project, scoped to one application and environment.
#[derive(Debug)]
pub struct Travail {
    pub id: u128,
    pub projet_id: u128,
    pub type_travail: TypeTravail,
    pub application: Application,
    pub environnement: Environnement,
    pub description: String,
    pub date_debut: i64,
    pub date_fin_prevue: i64,
    pub statut: StatutTravail,
    pub responsable: u128,
    pub equipe: Vec<u128>,
}

/// Mathematical view of a [`Travail`].
pub ghost struct TravailView {
    pub id: u128,
    pub projet_id: u128,
    pub type_travail: TypeTravail,
    pub application: Application,
    pub environnement: Environnement,
    pub description: Seq<char>,
    pub date_debut: i64,
    pub date_fin_prevue: i64,
    pub statut: StatutTravail,
    pub responsable: u128,
    pub equipe: Seq<u128>,
}

impl View for Travail {
    type V = TravailView;

    open spec fn view(&self) -> TravailView {
        TravailView {
            id: self.id,
            projet_id: self.projet_id,
            type_travail: self.type_travail,
            application: self.application,
            environnement: self.environnement,
            description: self.description@,
            date_debut: self.date_debut,
            date_fin_prevue: self.date_fin_prevue,
            statut: self.statut,
            responsable: self.responsable,
            equipe: self.equipe@,
        }
    }
}

impl Clone for Travail {
    fn clone(&self) -> (r: Self)
        ensures
            r@ == self@,
    {
        let equipe = clone_id_list(&self.equipe);
        Travail {
            id: self.id,
            projet_id: self.projet_id,
            type_travail: self.type_travail,
            application: self.application,
            environnement: self.environnement,
            description: self.description.clone(),
            date_debut: self.date_debut,
            date_fin_prevue: self.date_fin_prevue,
            statut: self.statut,
            responsable: self.responsable,
            equipe,
        }
    }
}

/// Copies a list of identifiers.
pub fn clone_id_list(ids: &Vec<u128>) -> (r: Vec<u128>)
    ensures
        r@ == ids@,
{
    let mut r: Vec<u128> = Vec::new();
    let mut i: usize = 0;
    while i < ids.len()
        invariant
            i <= ids.len(),
            r@ == ids@.take(i as int),
        decreases ids.len() - i,
    {
        r.push(ids[i]);
        proof {
            assert(ids@.take(i as int + 1) =~= ids@.take(i as int).push(ids@[i as int]));
        }
        i = i + 1;
    }
    proof {
        assert(ids@.take(ids@.len() as int) =~= ids@);
    }
    r
}

/// A person who may be responsible for or a team member on work items.
#[derive(Debug)]
pub struct Utilisateur {
    pub id: u128,
    pub nom: String,
    pub email: String,
    pub role: Role,
    pub equipe: String,
    pub actif: bool,
}

/// Mathematical view of an [`Utilisateur`].
pub ghost struct UtilisateurView {
    pub id: u128,
    pub nom: Seq<char>,
    pub email: Seq<char>,
    pub role: Role,
    pub equipe: Seq<char>,
    pub actif: bool,
}

impl View for Utilisateur {
    type V = UtilisateurView;

    open spec fn view(&self) -> UtilisateurView {
        UtilisateurView {
            id: self.id,
            nom: self.nom@,
            email: self.email@,
            role: self.role,
            equipe: self.equipe@,
            actif: self.actif,
        }
    }
}

impl Clone for Utilisateur {
    fn clone(&self) -> (r: Self)
        ensures
            r@ == self@,
    {
        Utilisateur {
            id: self.id,
            nom: self.nom.clone(),
            email: self.email.clone(),
            role: self.role,
            equipe: self.equipe.clone(),
            actif: self.actif,
        }
    }
}

/// A granular task under a work item. The record is part of the data model
/// but no collection serves it: no route ever reaches one.
#[derive(Debug)]
pub struct ChecklistItem {
    pub id: u128,
    pub travail_id: u128,
    pub description: String,
    pub statut: StatutChecklist,
    pub responsable: u128,
    pub date_echeance: Option<i64>,
    pub commentaires: Option<String>,
    pub ordre: i32,
}

/// Mathematical view of a [`ChecklistItem`].
pub ghost struct ChecklistItemView {
    pub id: u128,
    pub travail_id: u128,
    pub description: Seq<char>,
    pub statut: StatutChecklist,
    pub responsable: u128,
    pub date_echeance: Option<i64>,
    pub commentaires: Option<Seq<char>>,
    pub ordre: i32,
}

impl View for ChecklistItem {
    type V = ChecklistItemView;

    open spec fn view(&self) -> ChecklistItemView {
        ChecklistItemView {
            id: self.id,
            travail_id: self.travail_id,
            description: self.description@,
            statut: self.statut,
            responsable: self.responsable,
            date_echeance: self.date_echeance,
            commentaires: match self.commentaires {
                Some(ref c) => Some(c@),
                None => None,
            },
            ordre: self.ordre,
        }
    }
}

} // verus!
