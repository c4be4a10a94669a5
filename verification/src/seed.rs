//! Initial data: two users, two projects and one work item that a fresh
//! deployment starts with. The caller supplies the current time as
//! milliseconds since the Unix epoch; every identifier is drawn by the
//! stores themselves.

use vstd::prelude::*;

use crate::clock::now_millis;
use crate::collection::put;
use crate::models::{Application, Environnement, Priorite, ProjetView, Role, StatutProjet,
    StatutTravail, TravailView, TypeTravail, UtilisateurView};
use crate::projets::{projet_key, CreateProjetRequest, ProjetResponse, ProjetStore};
use crate::travaux::{travail_key, CreateTravailRequest, TravailResponse, TravailStore};
use crate::utilisateurs::{utilisateur_key, CreateUtilisateurRequest, UtilisateurResponse,
    UtilisateurStore};

verus! {

/// Milliseconds in one day.
pub const MILLIS_PER_DAY: i64 = 86400000;

/// The first seeded user, up to its identifier.
pub open spec fn mock_utilisateur1(u: UtilisateurView) -> bool {
    &&& u.nom == "Jean Dupont"@
    &&& u.email == "jean.dupont@entreprise.com"@
    &&& u.role == Role::Manager
    &&& u.equipe == "Infrastructure"@
    &&& u.actif
}

/// The second seeded user, up to its identifier.
pub open spec fn mock_utilisateur2(u: UtilisateurView) -> bool {
    &&& u.nom == "Marie Martin"@
    &&& u.email == "marie.martin@entreprise.com"@
    &&& u.role == Role::Specialiste
    &&& u.equipe == "Base de données"@
    &&& u.actif
}

/// The first seeded project, up to its identifier: it starts now and is
/// expected to end sixty days on.
pub open spec fn mock_projet1(p: ProjetView, now: i64) -> bool {
    &&& p.code == "PRJ001"@
    &&& p.nom == "Migration Espresso GFR"@
    &&& p.description == "Migration de la version 2.5 vers 3.0"@
    &&& p.date_debut == now
    &&& p.date_fin_prevue == now + 60 * MILLIS_PER_DAY
    &&& p.statut == StatutProjet::EnCours
    &&& p.priorite == Priorite::Haute
}

/// The second seeded project, up to its identifier: it starts in five days
/// and is expected to end forty-five days on.
pub open spec fn mock_projet2(p: ProjetView, now: i64) -> bool {
    &&& p.code == "PRJ002"@
    &&& p.nom == "Rehausement Infrastructure GRM"@
    &&& p.description == "Augmentation des capacités serveurs"@
    &&& p.date_debut == now + 5 * MILLIS_PER_DAY
    &&& p.date_fin_prevue == now + 45 * MILLIS_PER_DAY
    &&& p.statut == StatutProjet::Planifie
    &&& p.priorite == Priorite::Moyenne
}

/// The seeded work item, up to its identifier: it belongs to the first
/// seeded project, the second seeded user is responsible for it, and both
/// seeded users make up its team.
pub open spec fn mock_travail1(
    t: TravailView,
    now: i64,
    projet1_id: u128,
    utilisateur1_id: u128,
    utilisateur2_id: u128,
) -> bool {
    &&& t.projet_id == projet1_id
    &&& t.type_travail == TypeTravail::Migration
    &&& t.application == Application::EspressoGfr
    &&& t.environnement == Environnement::Production
    &&& t.description == "Migration base de données"@
    &&& t.date_debut == now
    &&& t.date_fin_prevue == now + 5 * MILLIS_PER_DAY
    &&& t.statut == StatutTravail::EnCours
    &&& t.responsable == utilisateur2_id
    &&& t.equipe == seq![utilisateur1_id, utilisateur2_id]
}

/// Fills the three collections with the seed data and returns the stored
/// records, in creation order: the two users, the two projects, the work
/// item.
pub fn init_mock_data(
    projets: &mut ProjetStore,
    travaux: &mut TravailStore,
    utilisateurs: &mut UtilisateurStore,
    now: i64,
) -> (r: (
    UtilisateurResponse,
    UtilisateurResponse,
    ProjetResponse,
    ProjetResponse,
    TravailResponse,
))
    requires
        old(projets).wf(),
        old(travaux).wf(),
        old(utilisateurs).wf(),
        now + 60 * MILLIS_PER_DAY <= i64::MAX,
        0 <= now,
    ensures
        final(projets).wf(),
        final(travaux).wf(),
        final(utilisateurs).wf(),
        mock_utilisateur1(r.0@),
        mock_utilisateur2(r.1@),
        mock_projet1(r.2@, now),
        mock_projet2(r.3@, now),
        mock_travail1(r.4@, now, r.2@.id, r.0@.id, r.1@.id),
        final(utilisateurs)@ == put(
            put(old(utilisateurs)@, utilisateur_key(), r.0@),
            utilisateur_key(),
            r.1@,
        ),
        final(projets)@ == put(put(old(projets)@, projet_key(), r.2@), projet_key(), r.3@),
        final(travaux)@ == put(old(travaux)@, travail_key(), r.4@),
{
    let utilisateur1 = utilisateurs.create_utilisateur(
        &CreateUtilisateurRequest {
            nom: "Jean Dupont".to_owned(),
            email: "jean.dupont@entreprise.com".to_owned(),
            role: Role::Manager,
            equipe: "Infrastructure".to_owned(),
            actif: true,
        },
    );
    let utilisateur2 = utilisateurs.create_utilisateur(
        &CreateUtilisateurRequest {
            nom: "Marie Martin".to_owned(),
            email: "marie.martin@entreprise.com".to_owned(),
            role: Role::Specialiste,
            equipe: "Base de données".to_owned(),
            actif: true,
        },
    );

    let projet1 = projets.create_projet(
        &CreateProjetRequest {
            code: "PRJ001".to_owned(),
            nom: "Migration Espresso GFR".to_owned(),
            description: "Migration de la version 2.5 vers 3.0".to_owned(),
            date_debut: now,
            date_fin_prevue: now + 60 * MILLIS_PER_DAY,
            statut: StatutProjet::EnCours,
            priorite: Priorite::Haute,
        },
    );
    let projet2 = projets.create_projet(
        &CreateProjetRequest {
            code: "PRJ002".to_owned(),
            nom: "Rehausement Infrastructure GRM".to_owned(),
            description: "Augmentation des capacités serveurs".to_owned(),
            date_debut: now + 5 * MILLIS_PER_DAY,
            date_fin_prevue: now + 45 * MILLIS_PER_DAY,
            statut: StatutProjet::Planifie,
            priorite: Priorite::Moyenne,
        },
    );

    let mut equipe: Vec<u128> = Vec::new();
    equipe.push(utilisateur1.id);
    equipe.push(utilisateur2.id);
    proof {
        assert(equipe@ =~= seq![utilisateur1.id, utilisateur2.id]);
    }
    let travail1 = travaux.create_travail(
        &CreateTravailRequest {
            projet_id: projet1.id,
            type_travail: TypeTravail::Migration,
            application: Application::EspressoGfr,
            environnement: Environnement::Production,
            description: "Migration base de données".to_owned(),
            date_debut: now,
            date_fin_prevue: now + 5 * MILLIS_PER_DAY,
            statut: StatutTravail::EnCours,
            responsable: utilisateur2.id,
            equipe,
        },
    );

    (utilisateur1, utilisateur2, projet1, projet2, travail1)
}

/// Fills the three collections with the seed data, stamped with the
/// current time. The clock's reading is not under the library's control:
/// when it leaves no room for the planned end dates, nothing is seeded and
/// the collections stay as they were. The first seeded project starts at
/// the moment the clock read, so every seeded date is stated relative to
/// its start date.
pub fn init_mock_data_now(
    projets: &mut ProjetStore,
    travaux: &mut TravailStore,
    utilisateurs: &mut UtilisateurStore,
) -> (r: Option<(
    UtilisateurResponse,
    UtilisateurResponse,
    ProjetResponse,
    ProjetResponse,
    TravailResponse,
)>)
    requires
        old(projets).wf(),
        old(travaux).wf(),
        old(utilisateurs).wf(),
    ensures
        final(projets).wf(),
        final(travaux).wf(),
        final(utilisateurs).wf(),
        match r {
            Some(t) => {
                &&& mock_utilisateur1(t.0@)
                &&& mock_utilisateur2(t.1@)
                &&& mock_projet1(t.2@, t.2@.date_debut)
                &&& mock_projet2(t.3@, t.2@.date_debut)
                &&& mock_travail1(t.4@, t.2@.date_debut, t.2@.id, t.0@.id, t.1@.id)
                &&& 0 <= t.2@.date_debut
                &&& final(utilisateurs)@ == put(
                    put(old(utilisateurs)@, utilisateur_key(), t.0@),
                    utilisateur_key(),
                    t.1@,
                )
                &&& final(projets)@ == put(
                    put(old(projets)@, projet_key(), t.2@),
                    projet_key(),
                    t.3@,
                )
                &&& final(travaux)@ == put(old(travaux)@, travail_key(), t.4@)
            },
            None => {
                &&& final(projets)@ == old(projets)@
                &&& final(travaux)@ == old(travaux)@
                &&& final(utilisateurs)@ == old(utilisateurs)@
            },
        },
{
    let now = now_millis();
    if 0 <= now && now <= i64::MAX - 60 * MILLIS_PER_DAY {
        Some(init_mock_data(projets, travaux, utilisateurs, now))
    } else {
        None
    }
}

} // verus!
