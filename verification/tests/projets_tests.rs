use gestion_projets::collection::StoreError;
use gestion_projets::models::{Priorite, StatutProjet};
use gestion_projets::projets::{projet_not_found_message, CreateProjetRequest, ProjetStore};

fn sample_request() -> CreateProjetRequest {
    CreateProjetRequest {
        code: "PRJ001".to_string(),
        nom: "Migration Espresso GFR".to_string(),
        description: "Migration de la version 2.5 vers 3.0".to_string(),
        date_debut: 1_700_000_000_000,
        date_fin_prevue: 1_705_184_000_000,
        statut: StatutProjet::EnCours,
        priorite: Priorite::Haute,
    }
}

#[test]
fn create_returns_payload_fields() {
    let mut store = ProjetStore::new();
    let r = store.create_projet(&sample_request());
    assert_eq!(r.code, "PRJ001");
    assert_eq!(r.nom, "Migration Espresso GFR");
    assert_eq!(r.description, "Migration de la version 2.5 vers 3.0");
    assert_eq!(r.date_debut, 1_700_000_000_000);
    assert_eq!(r.date_fin_prevue, 1_705_184_000_000);
    assert_eq!(r.statut, StatutProjet::EnCours);
    assert_eq!(r.priorite, Priorite::Haute);
}

#[test]
fn created_identifiers_differ() {
    let mut store = ProjetStore::new();
    let a = store.create_projet(&sample_request());
    let b = store.create_projet(&sample_request());
    assert_ne!(a.id, b.id);
    assert_eq!(store.get_projets().len(), 2);
}

#[test]
fn get_after_create_returns_equal_entity() {
    let mut store = ProjetStore::new();
    let created = store.create_projet(&sample_request());
    let fetched = store.get_projet(created.id).unwrap();
    assert_eq!(fetched, created);
}

#[test]
fn get_absent_signals_not_found() {
    let store = ProjetStore::new();
    assert_eq!(store.get_projet(42).unwrap_err(), StoreError::NotFound);
}

#[test]
fn update_then_get_returns_new_fields_same_id() {
    let mut store = ProjetStore::new();
    let created = store.create_projet_with_id(9, &sample_request());
    let newer = CreateProjetRequest {
        code: "PRJ001B".to_string(),
        nom: "Migration Espresso GFR, phase 2".to_string(),
        description: "Suite de la migration".to_string(),
        date_debut: 1_700_000_000_001,
        date_fin_prevue: 1_705_184_000_001,
        statut: StatutProjet::Termine,
        priorite: Priorite::Faible,
    };
    let updated = store.update_projet(9, &newer).unwrap();
    assert_eq!(updated.id, created.id);
    assert_eq!(updated.code, "PRJ001B");
    assert_eq!(updated.statut, StatutProjet::Termine);
    let fetched = store.get_projet(9).unwrap();
    assert_eq!(fetched, updated);
    assert_eq!(store.get_projets().len(), 1);
}

#[test]
fn update_absent_signals_not_found() {
    let mut store = ProjetStore::new();
    assert_eq!(
        store.update_projet(5, &sample_request()).unwrap_err(),
        StoreError::NotFound
    );
    assert!(store.get_projets().is_empty());
}

#[test]
fn delete_then_get_signals_not_found() {
    let mut store = ProjetStore::new();
    store.create_projet_with_id(3, &sample_request());
    assert!(store.delete_projet(3).is_ok());
    assert_eq!(store.get_projet(3).unwrap_err(), StoreError::NotFound);
}

#[test]
fn delete_absent_signals_not_found() {
    let mut store = ProjetStore::new();
    assert_eq!(store.delete_projet(3).unwrap_err(), StoreError::NotFound);
    store.create_projet_with_id(3, &sample_request());
    assert!(store.delete_projet(3).is_ok());
    assert_eq!(store.delete_projet(3).unwrap_err(), StoreError::NotFound);
}

#[test]
fn list_is_a_snapshot_in_storage_order() {
    let mut store = ProjetStore::new();
    assert!(store.get_projets().is_empty());
    store.create_projet_with_id(1, &sample_request());
    let mut second = sample_request();
    second.code = "PRJ002".to_string();
    store.create_projet_with_id(2, &second);
    let all = store.get_projets();
    assert_eq!(all.len(), 2);
    assert_eq!(all[0].code, "PRJ001");
    assert_eq!(all[1].code, "PRJ002");
}

#[test]
fn create_with_taken_id_replaces_wholesale() {
    let mut store = ProjetStore::new();
    store.create_projet_with_id(8, &sample_request());
    let mut other = sample_request();
    other.code = "PRJ009".to_string();
    let replaced = store.create_projet_with_id(8, &other);
    assert_eq!(replaced.code, "PRJ009");
    assert_eq!(store.get_projets().len(), 1);
    assert_eq!(store.get_projet(8).unwrap().code, "PRJ009");
}

#[test]
fn scenario_prj001_lifecycle() {
    let mut store = ProjetStore::new();
    let created = store.create_projet(&sample_request());
    assert_eq!(created.code, "PRJ001");
    let fetched = store.get_projet(created.id).unwrap();
    assert_eq!(fetched, created);
    assert!(store.delete_projet(created.id).is_ok());
    assert_eq!(store.get_projet(created.id).unwrap_err(), StoreError::NotFound);
    assert_eq!(projet_not_found_message(), "Projet non trouvé");
}
