use gsheet::config::config_content;
use gsheet::config::get_client_secret_path;
use gsheet::config::secret_path_from;
use gsheet::config::CONFIG_FILE;
use gsheet::config::SECRET_PATH_KEY;
use gsheet::error::GsheetError;

#[test]
fn config_names() {
    assert_eq!(CONFIG_FILE, "gsheet_config.json");
    assert_eq!(SECRET_PATH_KEY, "client_secret_path");
}

#[test]
fn reads_the_configured_path() {
    let content = "{\"client_secret_path\": \"/x/y.json\"}";
    assert_eq!(get_client_secret_path(Some(content)), Ok(String::from("/x/y.json")));
}

#[test]
fn reads_the_path_among_other_members() {
    let content = "{\"a\": 1, \"client_secret_path\": \"rel/secret.json\", \"b\": [true]}";
    assert_eq!(get_client_secret_path(Some(content)), Ok(String::from("rel/secret.json")));
}

#[test]
fn reads_an_escaped_path() {
    let content = "{\"client_secret_path\": \"C:\\\\keys\\\\s \\\"1\\\".json\"}";
    assert_eq!(get_client_secret_path(Some(content)), Ok(String::from("C:\\keys\\s \"1\".json")));
}

#[test]
fn missing_file_is_config_missing() {
    assert_eq!(get_client_secret_path(None), Err(GsheetError::ConfigMissing));
}

#[test]
fn invalid_json_is_config_malformed() {
    assert_eq!(get_client_secret_path(Some("{\"client_secret_path\": ")), Err(GsheetError::ConfigMalformed));
    assert_eq!(get_client_secret_path(Some("")), Err(GsheetError::ConfigMalformed));
    assert_eq!(get_client_secret_path(Some("not json")), Err(GsheetError::ConfigMalformed));
}

#[test]
fn absent_member_is_config_malformed() {
    assert_eq!(get_client_secret_path(Some("{}")), Err(GsheetError::ConfigMalformed));
    assert_eq!(get_client_secret_path(Some("{\"path\": \"/x/y.json\"}")), Err(GsheetError::ConfigMalformed));
}

#[test]
fn member_that_is_no_string_is_config_malformed() {
    assert_eq!(get_client_secret_path(Some("{\"client_secret_path\": 7}")), Err(GsheetError::ConfigMalformed));
    assert_eq!(get_client_secret_path(Some("{\"client_secret_path\": null}")), Err(GsheetError::ConfigMalformed));
    assert_eq!(
        get_client_secret_path(Some("{\"client_secret_path\": [\"/x/y.json\"]}")),
        Err(GsheetError::ConfigMalformed)
    );
}

#[test]
fn document_that_is_no_object_is_config_malformed() {
    assert_eq!(get_client_secret_path(Some("\"client_secret_path\"")), Err(GsheetError::ConfigMalformed));
    assert_eq!(get_client_secret_path(Some("[1, 2]")), Err(GsheetError::ConfigMalformed));
}

#[test]
fn lookup_results_map_to_paths_and_failures() {
    assert_eq!(secret_path_from(Ok(Some(String::from("/p.json")))), Ok(String::from("/p.json")));
    assert_eq!(secret_path_from(Ok(None)), Err(GsheetError::ConfigMalformed));
    let failure = serde_json::from_str::<serde_json::Value>("{").unwrap_err();
    assert_eq!(secret_path_from(Err(failure)), Err(GsheetError::ConfigMalformed));
}

#[test]
fn writes_the_configuration() {
    assert_eq!(config_content("/x/y.json"), "{\"client_secret_path\":\"/x/y.json\"}");
}

#[test]
fn written_configuration_escapes_the_path() {
    assert_eq!(config_content("a\"b\\c"), "{\"client_secret_path\":\"a\\\"b\\\\c\"}");
}

#[test]
fn written_configuration_reads_back() {
    let paths = vec!["/x/y.json", "client_secret.json", "C:\\keys\\s \"1\".json", "", "päth/ß.json", "a\nb"];
    for path in paths {
        let content = config_content(path);
        assert_eq!(get_client_secret_path(Some(content.as_str())), Ok(String::from(path)));
    }
}

#[test]
fn later_configuration_replaces_the_earlier() {
    let first = config_content("/first.json");
    let second = config_content("/second.json");
    assert_ne!(first, second);
    assert_eq!(get_client_secret_path(Some(second.as_str())), Ok(String::from("/second.json")));
}
