use gestion_projets::collection::StoreError;
use gestion_projets::models::{Application, Environnement, StatutTravail, TypeTravail};
use gestion_projets::travaux::{travail_not_found_message, CreateTravailRequest, TravailStore};

fn request_for_projet(projet_id: u128) -> CreateTravailRequest {
    CreateTravailRequest {
        projet_id,
        type_travail: TypeTravail::Migration,
        application: Application::EspressoGfr,
        environnement: Environnement::Production,
        description: "Migration base de données".to_string(),
        date_debut: 1_700_000_000_000,
        date_fin_prevue: 1_700_432_000_000,
        statut: StatutTravail::EnCours,
        responsable: 21,
        equipe: vec![20, 21],
    }
}

#[test]
fn create_travail_returns_payload_fields() {
    let mut store = TravailStore::new();
    let r = store.create_travail(&request_for_projet(77));
    assert_eq!(r.projet_id, 77);
    assert_eq!(r.type_travail, TypeTravail::Migration);
    assert_eq!(r.application, Application::EspressoGfr);
    assert_eq!(r.environnement, Environnement::Production);
    assert_eq!(r.description, "Migration base de données");
    assert_eq!(r.date_debut, 1_700_000_000_000);
    assert_eq!(r.date_fin_prevue, 1_700_432_000_000);
    assert_eq!(r.statut, StatutTravail::EnCours);
    assert_eq!(r.responsable, 21);
    assert_eq!(r.equipe, vec![20, 21]);
}

#[test]
fn get_after_create_returns_equal_travail() {
    let mut store = TravailStore::new();
    let created = store.create_travail(&request_for_projet(77));
    let fetched = store.get_travail(created.id).unwrap();
    assert_eq!(fetched, created);
}

#[test]
fn update_travail_keeps_id_and_replaces_fields() {
    let mut store = TravailStore::new();
    store.create_travail_with_id(4, &request_for_projet(77));
    let mut newer = request_for_projet(78);
    newer.statut = StatutTravail::Annule;
    newer.equipe = vec![30];
    let updated = store.update_travail(4, &newer).unwrap();
    assert_eq!(updated.id, 4);
    assert_eq!(updated.projet_id, 78);
    assert_eq!(updated.statut, StatutTravail::Annule);
    assert_eq!(updated.equipe, vec![30]);
    assert_eq!(store.get_travail(4).unwrap(), updated);
}

#[test]
fn update_absent_travail_signals_not_found() {
    let mut store = TravailStore::new();
    assert_eq!(
        store.update_travail(4, &request_for_projet(1)).unwrap_err(),
        StoreError::NotFound
    );
}

#[test]
fn delete_travail_then_get_signals_not_found() {
    let mut store = TravailStore::new();
    store.create_travail_with_id(6, &request_for_projet(1));
    assert!(store.delete_travail(6).is_ok());
    assert_eq!(store.get_travail(6).unwrap_err(), StoreError::NotFound);
    assert_eq!(store.delete_travail(6).unwrap_err(), StoreError::NotFound);
    assert_eq!(travail_not_found_message(), "Travail non trouvé");
}

#[test]
fn filter_returns_exactly_matching_travaux() {
    let mut store = TravailStore::new();
    store.create_travail_with_id(1, &request_for_projet(100));
    store.create_travail_with_id(2, &request_for_projet(200));
    store.create_travail_with_id(3, &request_for_projet(100));

    let of_100 = store.get_travaux_by_projet(100);
    assert_eq!(of_100.len(), 2);
    assert!(of_100.iter().all(|t| t.projet_id == 100));
    assert_eq!(of_100[0].id, 1);
    assert_eq!(of_100[1].id, 3);

    let of_200 = store.get_travaux_by_projet(200);
    assert_eq!(of_200.len(), 1);
    assert_eq!(of_200[0].id, 2);
}

#[test]
fn filter_with_no_match_returns_empty_list() {
    let mut store = TravailStore::new();
    store.create_travail_with_id(1, &request_for_projet(100));
    assert!(store.get_travaux_by_projet(999).is_empty());
}

#[test]
fn scenario_two_travaux_under_different_projets() {
    let mut store = TravailStore::new();
    let a = store.create_travail(&request_for_projet(11));
    let b = store.create_travail(&request_for_projet(22));
    assert_ne!(a.id, b.id);
    let of_a = store.get_travaux_by_projet(11);
    assert_eq!(of_a.len(), 1);
    assert_eq!(of_a[0], store.get_travail(a.id).unwrap());
    assert_eq!(of_a[0].projet_id, 11);
}
