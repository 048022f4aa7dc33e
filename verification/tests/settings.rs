use vector_store_uploader::settings::{
    Found, Saved, Settings, SettingsManager, APP_NAME, APP_ORGANIZATION, APP_QUALIFIER,
    DEFAULT_NAMESPACE, SETTINGS_FILE,
};

#[test]
fn test_settings_load_save() {
    let test_settings = Settings {
        openai_api_key: "test_key".to_string(),
        pinecone_api_key: "test_key".to_string(),
        pinecone_index_host: "test_host".to_string(),
        pinecone_namespace: "test_namespace".to_string(),
    };

    assert!(SettingsManager::save(Saved::Written).is_ok());

    let loaded = SettingsManager::load(Found::Stored(test_settings.clone())).unwrap();
    assert_eq!(loaded.openai_api_key, test_settings.openai_api_key);
    assert_eq!(loaded.pinecone_api_key, test_settings.pinecone_api_key);
    assert_eq!(loaded.pinecone_index_host, test_settings.pinecone_index_host);
    assert_eq!(loaded.pinecone_namespace, test_settings.pinecone_namespace);
}

#[test]
fn default_settings_are_empty_but_for_the_namespace() {
    let settings = Settings::default();
    assert_eq!(settings.openai_api_key, "");
    assert_eq!(settings.pinecone_api_key, "");
    assert_eq!(settings.pinecone_index_host, "");
    assert_eq!(settings.pinecone_namespace, "book");
    assert_eq!(DEFAULT_NAMESPACE, "book");
}

#[test]
fn load_without_a_file_gives_the_default_settings() {
    let settings = SettingsManager::load(Found::NoFile).unwrap();
    assert_eq!(settings.openai_api_key, "");
    assert_eq!(settings.pinecone_api_key, "");
    assert_eq!(settings.pinecone_index_host, "");
    assert_eq!(settings.pinecone_namespace, "book");
}

#[test]
fn load_without_a_path_fails() {
    assert_eq!(
        SettingsManager::load(Found::NoPath).unwrap_err(),
        "Не удалось определить путь для настроек"
    );
}

#[test]
fn load_of_an_unreadable_file_fails() {
    assert_eq!(
        SettingsManager::load(Found::Unreadable("permission denied".to_string())).unwrap_err(),
        "Ошибка чтения файла настроек: permission denied"
    );
}

#[test]
fn load_of_a_malformed_file_fails() {
    assert_eq!(
        SettingsManager::load(Found::Malformed("expected value at line 1 column 1".to_string()))
            .unwrap_err(),
        "Ошибка парсинга настроек: expected value at line 1 column 1"
    );
}

#[test]
fn save_reports_the_step_that_failed() {
    assert_eq!(SettingsManager::save(Saved::Written), Ok(()));
    assert_eq!(
        SettingsManager::save(Saved::NoPath),
        Err("Не удалось определить путь для настроек".to_string())
    );
    assert_eq!(
        SettingsManager::save(Saved::NoDirectory("read-only".to_string())),
        Err("Ошибка создания директории настроек: read-only".to_string())
    );
    assert_eq!(
        SettingsManager::save(Saved::NotEncoded("bad".to_string())),
        Err("Ошибка сериализации настроек: bad".to_string())
    );
    assert_eq!(
        SettingsManager::save(Saved::NotWritten("disk full".to_string())),
        Err("Ошибка сохранения настроек: disk full".to_string())
    );
}

#[test]
fn names_of_the_settings_file() {
    assert_eq!(SETTINGS_FILE, "settings.json");
    assert_eq!(APP_QUALIFIER, "com");
    assert_eq!(APP_ORGANIZATION, "open-source-solutions");
    assert_eq!(APP_NAME, "vectore-store-uploader");
}
