use rustok_seo::storage::{storage_object_path, LocalStorage, LocalStorageConfig, StorageError, StorageService};

#[test]
fn local_storage_resolves_paths_under_its_base_directory() {
    let storage = LocalStorage::new("/var/uploads", "https://cdn.example.com/media///");
    assert_eq!(storage.base_url, "https://cdn.example.com/media");
    assert_eq!(storage.resolve("/tenant/a.png").expect("path"), "/var/uploads/tenant/a.png");
    assert!(matches!(storage.resolve("../etc/passwd"), Err(StorageError::InvalidPath(p)) if p == "../etc/passwd"));
    assert_eq!(storage.public_url("//tenant/a.png"), "https://cdn.example.com/media/tenant/a.png");
    let object = storage.uploaded("tenant/a.png", 42);
    assert_eq!(object.public_url, "https://cdn.example.com/media/tenant/a.png");
    assert_eq!(object.size, 42);
}

#[test]
fn storage_service_uses_the_local_backend() {
    let config = LocalStorageConfig::default();
    let service = StorageService::new(config.build());
    assert_eq!(service.backend_name(), "local");
    assert!(service.public_url("x.png").ends_with("/x.png"));
}

#[test]
fn storage_object_paths_keep_the_original_extension() {
    let path = storage_object_path(1, "2026", "06", 2, "photo.final.JPG");
    assert_eq!(
        path,
        "00000000-0000-0000-0000-000000000001/2026/06/00000000-0000-0000-0000-000000000002.JPG"
    );
    assert!(storage_object_path(1, "2026", "06", 2, "README").ends_with(".bin"));
    assert!(storage_object_path(1, "2026", "06", 2, ".hidden").ends_with(".bin"));
}
