use todo_cli::domain::Settings;
use todo_cli::domain::TodoErrorType;
use todo_cli::domain::TodoResponse;

#[test]
fn system_default_is_not_saved() {
    let settings = Settings::system_default();
    assert_eq!(settings.db, "todo");
    assert!(!settings.is_config_available());
}

#[test]
fn create_and_update_keep_fields() {
    let settings = Settings::create("alpha".to_string(), true);
    assert_eq!(settings.db, "alpha");
    assert!(settings.is_config_available());
    let updated = settings.update("beta".to_string());
    assert_eq!(updated.db, "beta");
    assert!(updated.is_saved);
    let unsaved = Settings::create("alpha".to_string(), false).update("beta".to_string());
    assert!(!unsaved.is_saved);
}

#[test]
fn get_db_appends_store_suffix() {
    let settings = Settings::create("alpha".to_string(), false);
    assert_eq!(settings.get_db(), "alpha.store");
}

#[test]
fn config_text_of_default_settings() {
    let settings = Settings::system_default();
    assert_eq!(settings.config_text(), "db=todo\n");
}

#[test]
fn config_text_strips_store_suffix() {
    let settings = Settings::create("alpha.store".to_string(), true);
    assert_eq!(settings.config_text(), "db=alpha\n");
}

#[test]
fn load_config_test() {
    let loaded = Settings::load_config(Some("db=mydb\n")).unwrap();
    assert_eq!(loaded.db, "mydb");
    assert!(loaded.is_config_available());
}

#[test]
fn load_config_without_file_is_init_not_available() {
    let err = Settings::load_config(None).unwrap_err();
    assert!(matches!(err.error_type, TodoErrorType::InitNotAvailable));
}

#[test]
fn load_config_round_trip() {
    let settings = Settings::create("alpha".to_string(), false);
    let text = settings.config_text();
    let loaded = Settings::load_config(Some(text.as_str())).unwrap();
    assert_eq!(loaded.db, "alpha");
    assert!(loaded.is_saved);
}

#[test]
fn load_config_round_trip_drops_store_suffix() {
    let settings = Settings::create("notes.store".to_string(), true);
    let loaded = Settings::load_config(Some(settings.config_text().as_str())).unwrap();
    assert_eq!(loaded.db, "notes");
}

#[test]
fn load_config_skips_malformed_lines() {
    let content = "no equals sign here\ndb=kept\n";
    let loaded = Settings::load_config(Some(content)).unwrap();
    assert_eq!(loaded.db, "kept");
}

#[test]
fn load_config_ignores_other_keys() {
    let content = "color=red\ndb=real\nmode=fast\n";
    let loaded = Settings::load_config(Some(content)).unwrap();
    assert_eq!(loaded.db, "real");
}

#[test]
fn load_config_last_db_line_wins() {
    let content = "db=first\ndb=second\n";
    let loaded = Settings::load_config(Some(content)).unwrap();
    assert_eq!(loaded.db, "second");
}

#[test]
fn load_config_trims_value() {
    let content = "db=  padded \n";
    let loaded = Settings::load_config(Some(content)).unwrap();
    assert_eq!(loaded.db, "padded");
}

#[test]
fn load_config_empty_content_falls_back_to_default() {
    let loaded = Settings::load_config(Some("")).unwrap();
    assert_eq!(loaded.db, "todo");
    assert!(loaded.is_saved);
}

#[test]
fn load_config_value_keeps_inner_equals() {
    let loaded = Settings::load_config(Some("db=a=b\n")).unwrap();
    assert_eq!(loaded.db, "a=b");
}

#[test]
fn write_custom_config_is_a_no_op_success() {
    let settings = Settings::system_default();
    assert!(matches!(settings.write_custom_config(), Ok(TodoResponse::Done)));
}
