use aquadoggo_cli::config_file::{
    config_file_path, missing_config_file_message, try_determine_config_file_path, Candidate,
    MissingConfigFile, CONFIG_FILE_NAME,
};

fn candidate(path: &str, exists: bool) -> Candidate<String> {
    Candidate {
        path: path.to_string(),
        exists,
    }
}

#[test]
fn config_file_name_is_fixed() {
    assert_eq!(CONFIG_FILE_NAME, "config.toml");
}

#[test]
fn current_folder_goes_first() {
    assert_eq!(
        try_determine_config_file_path(candidate("here", true), candidate("xdg", true)),
        Some("here".to_string())
    );
    assert_eq!(
        try_determine_config_file_path(candidate("here", true), candidate("xdg", false)),
        Some("here".to_string())
    );
}

#[test]
fn config_folder_goes_second() {
    assert_eq!(
        try_determine_config_file_path(candidate("here", false), candidate("xdg", true)),
        Some("xdg".to_string())
    );
}

#[test]
fn no_file_is_determined_where_none_exists() {
    assert_eq!(
        try_determine_config_file_path(candidate("here", false), candidate("xdg", false)),
        None
    );
}

#[test]
fn given_file_is_used() {
    assert_eq!(
        config_file_path(Some(candidate("given", true)), Some("found".to_string())),
        Ok(Some("given".to_string()))
    );
}

#[test]
fn given_file_has_to_exist() {
    assert_eq!(
        config_file_path(Some(candidate("given", false)), Some("found".to_string())),
        Err(MissingConfigFile {
            path: "given".to_string()
        })
    );
    assert_eq!(
        missing_config_file_message("given"),
        "Config file 'given' does not exist"
    );
}

#[test]
fn found_file_is_used_where_none_is_given() {
    assert_eq!(
        config_file_path(None, Some("found".to_string())),
        Ok(Some("found".to_string()))
    );
    assert_eq!(config_file_path::<String>(None, None), Ok(None));
}
