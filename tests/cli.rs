use rcli::cli::{
    check_dir, check_input_file, verify_file, verify_path, CsvOpts, TextKeyGenerateOpts,
};
use rcli::formats::{OutputFormat, TextSignFormat};

#[test]
fn test_verify_input_file() {
    assert_eq!(verify_file("src/lib.rs"), Ok("src/lib.rs".into()));
    assert_eq!(verify_file("-"), Ok("-".into()));
    assert_eq!(verify_file("*"), Err("File does not exist"));
    assert_eq!(verify_file("not_exist.txt"), Err("File does not exist"));
}

#[test]
fn verify_path_accepts_directories_only() {
    assert_eq!(verify_path("src"), Ok("src".to_string()));
    assert_eq!(
        verify_path("Cargo.toml"),
        Err("Path does not exist or is not a directory")
    );
    assert_eq!(
        verify_path("no_such_dir"),
        Err("Path does not exist or is not a directory")
    );
}

#[test]
fn check_input_file_decides_on_flag_and_stdin() {
    assert_eq!(check_input_file("a.txt", true), Ok("a.txt".to_string()));
    assert_eq!(check_input_file("a.txt", false), Err("File does not exist"));
    assert_eq!(check_input_file("-", false), Ok("-".to_string()));
}

#[test]
fn check_dir_needs_both_flags() {
    assert_eq!(check_dir("d", true, true), Ok("d".to_string()));
    assert_eq!(
        check_dir("d", true, false),
        Err("Path does not exist or is not a directory")
    );
    assert_eq!(
        check_dir("d", false, false),
        Err("Path does not exist or is not a directory")
    );
}

#[test]
fn csv_output_file_names() {
    let named = CsvOpts {
        input: "in.csv".to_string(),
        output: Some("players".to_string()),
        format: OutputFormat::Json,
        delimiter: ',',
        header: true,
    };
    assert_eq!(named.output_file(), "players.json");
    let unnamed = CsvOpts {
        input: "in.csv".to_string(),
        output: None,
        format: OutputFormat::Yaml,
        delimiter: ',',
        header: true,
    };
    assert_eq!(unnamed.output_file(), "output.yaml");
}

#[test]
fn key_files_per_format() {
    let opts = |format| TextKeyGenerateOpts { format, output: ".".to_string() };
    assert_eq!(opts(TextSignFormat::Blake3).key_files(), vec!["blake3.txt"]);
    assert_eq!(
        opts(TextSignFormat::Ed25519).key_files(),
        vec!["ed25519.sk", "ed25519.pk"]
    );
    assert_eq!(
        opts(TextSignFormat::ChaCha20Poly1305).key_files(),
        vec!["chacha20poly1305.txt"]
    );
}
