use gestion_projets::collection::StoreError;
use gestion_projets::models::Role;
use gestion_projets::utilisateurs::{
    utilisateur_not_found_message, CreateUtilisateurRequest, UtilisateurStore,
};

fn sample_request() -> CreateUtilisateurRequest {
    CreateUtilisateurRequest {
        nom: "Jean Dupont".to_string(),
        email: "jean.dupont@entreprise.com".to_string(),
        role: Role::Manager,
        equipe: "Infrastructure".to_string(),
        actif: true,
    }
}

#[test]
fn create_utilisateur_returns_payload_fields() {
    let mut store = UtilisateurStore::new();
    let r = store.create_utilisateur(&sample_request());
    assert_eq!(r.nom, "Jean Dupont");
    assert_eq!(r.email, "jean.dupont@entreprise.com");
    assert_eq!(r.role, Role::Manager);
    assert_eq!(r.equipe, "Infrastructure");
    assert!(r.actif);
}

#[test]
fn get_after_create_returns_equal_utilisateur() {
    let mut store = UtilisateurStore::new();
    let created = store.create_utilisateur(&sample_request());
    assert_eq!(store.get_utilisateur(created.id).unwrap(), created);
}

#[test]
fn update_utilisateur_keeps_id_and_replaces_fields() {
    let mut store = UtilisateurStore::new();
    store.create_utilisateur_with_id(12, &sample_request());
    let newer = CreateUtilisateurRequest {
        nom: "Jean Dupont".to_string(),
        email: "j.dupont@entreprise.com".to_string(),
        role: Role::Admin,
        equipe: "Direction".to_string(),
        actif: false,
    };
    let updated = store.update_utilisateur(12, &newer).unwrap();
    assert_eq!(updated.id, 12);
    assert_eq!(updated.email, "j.dupont@entreprise.com");
    assert_eq!(updated.role, Role::Admin);
    assert!(!updated.actif);
    assert_eq!(store.get_utilisateur(12).unwrap(), updated);
}

#[test]
fn utilisateur_not_found_paths() {
    let mut store = UtilisateurStore::new();
    assert_eq!(store.get_utilisateur(1).unwrap_err(), StoreError::NotFound);
    assert_eq!(
        store.update_utilisateur(1, &sample_request()).unwrap_err(),
        StoreError::NotFound
    );
    assert_eq!(store.delete_utilisateur(1).unwrap_err(), StoreError::NotFound);
    store.create_utilisateur_with_id(1, &sample_request());
    assert!(store.delete_utilisateur(1).is_ok());
    assert_eq!(store.get_utilisateur(1).unwrap_err(), StoreError::NotFound);
    assert_eq!(utilisateur_not_found_message(), "Utilisateur non trouvé");
}

#[test]
fn list_utilisateurs_reflects_creations() {
    let mut store = UtilisateurStore::new();
    assert!(store.get_utilisateurs().is_empty());
    store.create_utilisateur_with_id(1, &sample_request());
    store.create_utilisateur_with_id(2, &sample_request());
    let all = store.get_utilisateurs();
    assert_eq!(all.len(), 2);
    assert_eq!(all[0].id, 1);
    assert_eq!(all[1].id, 2);
}
