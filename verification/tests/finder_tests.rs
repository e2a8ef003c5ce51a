use boxlite::error::ErrorKind;
use boxlite::finder::find_binary;
use boxlite::finder::RuntimeBinaryFinder;
use boxlite::formatter::OutputFormat;

#[test]
fn test_builder_with_path() {
    let finder = RuntimeBinaryFinder::builder()
        .with_path("/path/one")
        .with_path("/path/two")
        .build();

    assert_eq!(finder.search_paths().len(), 2);
    assert_eq!(finder.search_paths()[0], "/path/one");
    assert_eq!(finder.search_paths()[1], "/path/two");
}

#[test]
fn test_find_binary_not_found() {
    let finder = RuntimeBinaryFinder::builder()
        .with_path("/nonexistent/path")
        .build();

    let result = finder.find("nonexistent-binary");
    assert!(result.is_err());
    assert!(result
        .unwrap_err()
        .to_string()
        .contains("Binary 'nonexistent-binary' not found"));
}

#[test]
fn test_find_among_takes_the_first_directory_that_holds_the_program() {
    let finder = RuntimeBinaryFinder::builder()
        .with_path("/one")
        .with_path("/two/")
        .with_path("/three")
        .build();
    assert_eq!(
        finder
            .find_among("shim", &vec![false, true, true])
            .unwrap(),
        "/two/shim"
    );
    assert_eq!(
        finder
            .find_among("shim", &vec![true, false, false])
            .unwrap(),
        "/one/shim"
    );
    let err = finder
        .find_among("shim", &vec![false, false, false])
        .unwrap_err();
    assert_eq!(err.kind(), ErrorKind::Storage);
    assert_eq!(
        err.message(),
        "Binary 'shim' not found.\nSearched locations:\n  - /one/shim\n  - /two/shim\n  - /three/shim"
    );
    let none = RuntimeBinaryFinder::builder().build();
    assert_eq!(
        none.find("x").unwrap_err().message(),
        "Binary 'x' not found.\nSearched locations:\n"
    );
}

#[test]
fn test_finder_from_env_values() {
    let finder = RuntimeBinaryFinder::from_env_values(
        &Some("/rt/one::/rt/two:".to_string()),
        &Some(":/lib".to_string()),
        &Some("/opt/boxlite/lib".to_string()),
    );
    assert_eq!(
        finder.search_paths(),
        &vec![
            "/rt/one".to_string(),
            "/rt/two".to_string(),
            "/lib".to_string(),
            "/opt/boxlite/lib".to_string(),
            "/opt/boxlite/lib/runtime".to_string(),
        ]
    );
    let empty = RuntimeBinaryFinder::from_env_values(&None, &None, &None);
    assert!(empty.search_paths().is_empty());
    assert!(find_binary("surely-missing-program", &None, &None, &None).is_err());
}

#[test]
fn test_output_format_from_str() {
    assert_eq!(OutputFormat::from_str("table").unwrap(), OutputFormat::Table);
    assert_eq!(OutputFormat::from_str("TABLE").unwrap(), OutputFormat::Table);
    assert_eq!(OutputFormat::from_str("json").unwrap(), OutputFormat::Json);
    assert_eq!(OutputFormat::from_str("JSON").unwrap(), OutputFormat::Json);
    assert_eq!(OutputFormat::from_str("yaml").unwrap(), OutputFormat::Yaml);
    assert_eq!(OutputFormat::from_str("YAML").unwrap(), OutputFormat::Yaml);
}

#[test]
fn test_output_format_from_str_invalid() {
    let result = OutputFormat::from_str("invalid");
    assert!(result.is_err());
    assert!(result.unwrap_err().to_string().contains("Unknown format"));
}

#[test]
fn test_output_format_failure_quotes_the_name_as_given() {
    let err = OutputFormat::from_str("XML").unwrap_err();
    assert_eq!(err.kind(), ErrorKind::Config);
    assert_eq!(
        err.message(),
        "Unknown format: 'XML'. Valid formats: table, json, yaml"
    );
    assert_eq!(
        err.to_string(),
        "configuration error: Unknown format: 'XML'. Valid formats: table, json, yaml"
    );
    assert_eq!(err.exit_code(), 2);
    assert!(OutputFormat::from_lowercase("JSON", "JSON").is_err());
    assert!(OutputFormat::from_str(" json").is_err());
}
