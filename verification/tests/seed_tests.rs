use gestion_projets::models::{
    Application, Environnement, Priorite, Role, StatutProjet, StatutTravail, TypeTravail,
};
use gestion_projets::projets::ProjetStore;
use gestion_projets::seed::{init_mock_data, init_mock_data_now, MILLIS_PER_DAY};
use gestion_projets::travaux::TravailStore;
use gestion_projets::utilisateurs::UtilisateurStore;

#[test]
fn seed_fills_the_three_collections() {
    let mut projets = ProjetStore::new();
    let mut travaux = TravailStore::new();
    let mut utilisateurs = UtilisateurStore::new();
    let now: i64 = 1_700_000_000_000;

    let (u1, u2, p1, p2, t1) = init_mock_data(&mut projets, &mut travaux, &mut utilisateurs, now);

    assert_eq!(projets.get_projets().len(), 2);
    assert_eq!(travaux.get_travaux().len(), 1);
    assert_eq!(utilisateurs.get_utilisateurs().len(), 2);

    assert_eq!(u1.nom, "Jean Dupont");
    assert_eq!(u1.email, "jean.dupont@entreprise.com");
    assert_eq!(u1.role, Role::Manager);
    assert_eq!(u1.equipe, "Infrastructure");
    assert!(u1.actif);

    assert_eq!(u2.nom, "Marie Martin");
    assert_eq!(u2.email, "marie.martin@entreprise.com");
    assert_eq!(u2.role, Role::Specialiste);
    assert_eq!(u2.equipe, "Base de données");
    assert!(u2.actif);

    assert_eq!(p1.code, "PRJ001");
    assert_eq!(p1.nom, "Migration Espresso GFR");
    assert_eq!(p1.description, "Migration de la version 2.5 vers 3.0");
    assert_eq!(p1.date_debut, now);
    assert_eq!(p1.date_fin_prevue, now + 60 * MILLIS_PER_DAY);
    assert_eq!(p1.statut, StatutProjet::EnCours);
    assert_eq!(p1.priorite, Priorite::Haute);

    assert_eq!(p2.code, "PRJ002");
    assert_eq!(p2.nom, "Rehausement Infrastructure GRM");
    assert_eq!(p2.description, "Augmentation des capacités serveurs");
    assert_eq!(p2.date_debut, now + 5 * MILLIS_PER_DAY);
    assert_eq!(p2.date_fin_prevue, now + 45 * MILLIS_PER_DAY);
    assert_eq!(p2.statut, StatutProjet::Planifie);
    assert_eq!(p2.priorite, Priorite::Moyenne);

    assert_eq!(t1.projet_id, p1.id);
    assert_eq!(t1.type_travail, TypeTravail::Migration);
    assert_eq!(t1.application, Application::EspressoGfr);
    assert_eq!(t1.environnement, Environnement::Production);
    assert_eq!(t1.description, "Migration base de données");
    assert_eq!(t1.date_debut, now);
    assert_eq!(t1.date_fin_prevue, now + 5 * MILLIS_PER_DAY);
    assert_eq!(t1.statut, StatutTravail::EnCours);
    assert_eq!(t1.responsable, u2.id);
    assert_eq!(t1.equipe, vec![u1.id, u2.id]);
}

#[test]
fn seed_with_real_clock_succeeds() {
    let mut projets = ProjetStore::new();
    let mut travaux = TravailStore::new();
    let mut utilisateurs = UtilisateurStore::new();

    let seeded = init_mock_data_now(&mut projets, &mut travaux, &mut utilisateurs);
    let (u1, _, p1, _, t1) = seeded.expect("the real clock leaves room for the planned end dates");
    assert_eq!(p1.code, "PRJ001");
    assert!(p1.date_debut > 0);
    assert_eq!(p1.date_fin_prevue, p1.date_debut + 60 * MILLIS_PER_DAY);
    assert_eq!(u1.nom, "Jean Dupont");
    assert_eq!(t1.projet_id, p1.id);
    assert_eq!(projets.get_projets().len(), 2);
}

#[test]
fn seeded_travaux_are_found_through_their_projet() {
    let mut projets = ProjetStore::new();
    let mut travaux = TravailStore::new();
    let mut utilisateurs = UtilisateurStore::new();

    let (_, _, p1, p2, t1) =
        init_mock_data(&mut projets, &mut travaux, &mut utilisateurs, 1_700_000_000_000);

    let of_p1 = travaux.get_travaux_by_projet(p1.id);
    assert_eq!(of_p1.len(), 1);
    assert_eq!(of_p1[0], t1);
    assert!(travaux.get_travaux_by_projet(p2.id).is_empty());
}
