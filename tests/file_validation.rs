use arkaft_adk_agents::{
    FileEntry, FileStatistics, FileType, FileValidationResult, FileValidator, PathStatus,
};

#[test]
fn test_validate_rust_file() {
    let validator = FileValidator::default();
    let content = "fn main() { println!(\"Hello, world!\"); }";
    let result = validator.validate_file("/tmp/project/main.rs", PathStatus::File(content.len() as u64));

    assert!(result.is_valid);
    assert_eq!(result.file_type, FileType::Rust);
    assert!(result.file_size > 0);
    assert!(result.reason.is_none());
}

#[test]
fn test_validate_large_file() {
    let validator = FileValidator::default();
    let result = validator.validate_file("/tmp/project/large.rs", PathStatus::File(60 * 1024 * 1024));

    assert!(!result.is_valid);
    assert!(result.reason.is_some());
    assert!(result.reason.unwrap().contains("too large"));
}

#[test]
fn test_validate_excluded_file() {
    let validator = FileValidator::default();
    let size = "binary content".len() as u64;
    let result = validator.validate_file("/tmp/project/target/debug/main", PathStatus::File(size));

    assert!(!result.is_valid);
    assert!(result.reason.is_some());
    assert!(result.reason.unwrap().contains("excluded pattern"));
}

#[test]
fn test_file_type_detection() {
    let validator = FileValidator::default();

    assert_eq!(validator.determine_file_type("main.rs"), FileType::Rust);
    assert_eq!(validator.determine_file_type("script.py"), FileType::Python);
    assert_eq!(validator.determine_file_type("config.toml"), FileType::Config);
    assert_eq!(validator.determine_file_type("README.md"), FileType::Documentation);
    assert_eq!(validator.determine_file_type("Cargo.toml"), FileType::Build);
    assert_eq!(validator.determine_file_type(".env"), FileType::Environment);
}

#[test]
fn test_code_review_validator() {
    let validator = FileValidator::for_code_review();

    assert!(validator.is_suitable_for_review("/tmp/p/small.rs", PathStatus::File("fn main() {}".len() as u64)));
    assert!(!validator.is_suitable_for_review("/tmp/p/large.rs", PathStatus::File(2 * 1024 * 1024)));
}

#[test]
fn test_file_statistics() {
    let results = vec![
        FileValidationResult {
            path: "main.rs".to_string(),
            is_valid: true,
            file_size: 1000,
            file_type: FileType::Rust,
            reason: None,
        },
        FileValidationResult {
            path: "config.toml".to_string(),
            is_valid: true,
            file_size: 500,
            file_type: FileType::Config,
            reason: None,
        },
        FileValidationResult {
            path: "large.py".to_string(),
            is_valid: false,
            file_size: 1000000,
            file_type: FileType::Python,
            reason: Some("Too large".to_string()),
        },
    ];

    let stats = FileValidator::get_file_statistics(&results);

    assert_eq!(stats.total_files, 3);
    assert_eq!(stats.valid_files, 2);
    assert_eq!(stats.invalid_files, 1);
    assert_eq!(stats.rust_files, 1);
    assert_eq!(stats.config_files, 1);
    assert_eq!(stats.python_files, 1);
    assert_eq!(stats.total_size, 1001500);
    assert_eq!(stats.valid_size, 1500);
}

#[test]
fn test_format_file_size() {
    assert_eq!(FileValidator::format_file_size(500), "500 B");
    assert_eq!(FileValidator::format_file_size(1536), "1.5 KB");
    assert_eq!(FileValidator::format_file_size(1048576), "1.0 MB");
    assert_eq!(FileValidator::format_file_size(1073741824), "1.0 GB");
}

#[test]
fn format_file_size_edges() {
    assert_eq!(FileValidator::format_file_size(0), "0 B");
    assert_eq!(FileValidator::format_file_size(1023), "1023 B");
    assert_eq!(FileValidator::format_file_size(1024), "1.0 KB");
    assert_eq!(FileValidator::format_file_size(1075), "1.0 KB");
    assert_eq!(FileValidator::format_file_size(1126), "1.1 KB");
    assert_eq!(FileValidator::format_file_size(5 * 1073741824), "5.0 GB");
    assert_eq!(FileValidator::format_file_size(2048 * 1073741824), "2048.0 GB");
}

#[test]
fn test_file_validation_with_various_sizes() {
    let validator = FileValidator::for_code_review();

    let small_result = validator.validate_file("/tmp/p/small.rs", PathStatus::File("fn main() {}".len() as u64));
    let medium_result = validator.validate_file("/tmp/p/medium.rs", PathStatus::File(1024));
    let large_result = validator.validate_file("/tmp/p/large.rs", PathStatus::File(2 * 1024 * 1024));

    assert!(small_result.is_valid);
    assert!(medium_result.is_valid);
    assert!(!large_result.is_valid);
    assert!(large_result.reason.unwrap().contains("too large"));
}

#[test]
fn test_file_validator_basic() {
    let validator = FileValidator::new(50 * 1024, 0);
    let large_content = format!("// {}", "x".repeat(100000));

    assert!(validator.validate_file("/tmp/p/small.rs", PathStatus::File("fn main() {}".len() as u64)).is_valid);
    assert!(!validator.validate_file("/tmp/p/large.rs", PathStatus::File(large_content.len() as u64)).is_valid);
}

#[test]
fn size_bounds_are_inclusive() {
    let validator = FileValidator::new(100, 10);

    assert!(validator.validate_file("a/lib.rs", PathStatus::File(10)).is_valid);
    assert!(validator.validate_file("a/lib.rs", PathStatus::File(100)).is_valid);
    assert!(validator.validate_file("a/lib.rs", PathStatus::File(55)).is_valid);

    let small = validator.validate_file("a/lib.rs", PathStatus::File(9));
    assert!(!small.is_valid);
    assert_eq!(small.reason, Some("File too small: 9 bytes".to_string()));

    let large = validator.validate_file("a/lib.rs", PathStatus::File(101));
    assert!(!large.is_valid);
    assert_eq!(large.reason, Some("File too large: 101 bytes (max: 100)".to_string()));

    let wrong = validator.validate_file("a/lib.exe", PathStatus::File(50));
    assert!(!wrong.is_valid);
    assert_eq!(wrong.reason, Some("File type not allowed".to_string()));
}

#[test]
fn exclusion_is_reported_before_size() {
    let validator = FileValidator::new(100, 10);

    let r = validator.validate_file("x/node_modules/pkg/index.rs", PathStatus::File(5000));
    assert!(!r.is_valid);
    assert_eq!(r.reason, Some("File matches excluded pattern".to_string()));
    assert_eq!(r.file_size, 5000);

    let r = validator.validate_file("x/run.log", PathStatus::File(1));
    assert_eq!(r.reason, Some("File matches excluded pattern".to_string()));
}

#[test]
fn missing_and_non_file_paths() {
    let validator = FileValidator::default();

    let r = validator.validate_file("nowhere/main.rs", PathStatus::Missing);
    assert!(!r.is_valid);
    assert_eq!(r.file_size, 0);
    assert_eq!(r.file_type, FileType::Unknown);
    assert_eq!(r.reason, Some("File does not exist".to_string()));
    assert_eq!(r.path, "nowhere/main.rs");

    let r = validator.validate_file("some/dir", PathStatus::NotAFile);
    assert!(!r.is_valid);
    assert_eq!(r.reason, Some("Path is not a file".to_string()));
}

#[test]
fn batch_validation_isolates_errors() {
    let validator = FileValidator::default();
    let entries = vec![
        FileEntry { path: "a/main.rs".to_string(), status: Ok(PathStatus::File(10)) },
        FileEntry { path: "a/secret.rs".to_string(), status: Err("permission denied".to_string()) },
        FileEntry { path: "a/gone.rs".to_string(), status: Ok(PathStatus::Missing) },
    ];
    let results = validator.validate_files(&entries);

    assert_eq!(results.len(), 3);
    assert!(results[0].is_valid);
    assert!(!results[1].is_valid);
    assert_eq!(results[1].reason, Some("Validation error: permission denied".to_string()));
    assert_eq!(results[1].path, "a/secret.rs");
    assert_eq!(results[1].file_type, FileType::Unknown);
    assert_eq!(results[2].reason, Some("File does not exist".to_string()));

    let valid = FileValidator::get_valid_files(&results);
    let invalid = FileValidator::get_invalid_files(&results);
    assert_eq!(valid.len(), 1);
    assert_eq!(valid[0].path, "a/main.rs");
    assert_eq!(invalid.len(), 2);
    assert_eq!(invalid[0].path, "a/secret.rs");
    assert_eq!(invalid[1].path, "a/gone.rs");
}

#[test]
fn file_names_and_extensions_from_paths() {
    let validator = FileValidator::default();

    assert_eq!(validator.determine_file_type("some/dir/Cargo.toml"), FileType::Build);
    assert_eq!(validator.determine_file_type("src/MAIN.RS"), FileType::Rust);
    assert_eq!(validator.determine_file_type("docs/notes.TXT"), FileType::Documentation);
    assert_eq!(validator.determine_file_type("LICENSE"), FileType::Documentation);
    assert_eq!(validator.determine_file_type("bin/tool"), FileType::Unknown);
    assert!(validator.is_allowed_file_type("deep/path/.env"));
    assert!(validator.is_allowed_file_type("src/Lib.PY"));
    assert!(!validator.is_allowed_file_type("src/lib.c"));
}

#[test]
fn presets() {
    let review = FileValidator::for_code_review();
    assert_eq!(review.max_file_size, 1024 * 1024);
    assert_eq!(review.min_file_size, 10);
    assert!(!review.validate_file("a/config.toml", PathStatus::File(100)).is_valid);

    let config = FileValidator::for_config_files();
    assert_eq!(config.max_file_size, 10 * 1024);
    assert!(config.validate_file("a/config.toml", PathStatus::File(100)).is_valid);
    assert!(!config.validate_file("a/main.rs", PathStatus::File(100)).is_valid);
    assert!(!config.validate_file("a/big.json", PathStatus::File(10 * 1024 + 1)).is_valid);
}

#[test]
fn statistics_average_and_empty() {
    let empty: Vec<FileValidationResult> = Vec::new();
    let stats = FileValidator::get_file_statistics(&empty);
    assert_eq!(stats.total_files, 0);
    assert_eq!(stats.average_file_size(), 0);

    let d = FileStatistics::default();
    assert_eq!(d.valid_size, 0);

    let results = vec![
        FileValidationResult {
            path: "a.md".to_string(),
            is_valid: true,
            file_size: 10,
            file_type: FileType::Documentation,
            reason: None,
        },
        FileValidationResult {
            path: ".env".to_string(),
            is_valid: false,
            file_size: 21,
            file_type: FileType::Environment,
            reason: Some("x".to_string()),
        },
    ];
    let stats = FileValidator::get_file_statistics(&results);
    assert_eq!(stats.average_file_size(), 15);
    assert_eq!(stats.doc_files, 1);
    assert_eq!(stats.env_files, 1);
    assert_eq!(stats.unknown_files, 0);
}

#[test]
fn exclusion_pattern_forms() {
    let v = FileValidator::default();
    assert!(v.matches_pattern("proj/target/debug/app", "target/**"));
    assert!(!v.matches_pattern("proj/targets.rs", "target/**"));
    assert!(v.matches_pattern("notes.tmp", "*.tmp"));
    assert!(!v.matches_pattern("tmp/notes.txt", "*.tmp"));
    assert!(v.matches_pattern("a/secret/b.rs", "secret"));
    assert!(v.matches_pattern("anything", "**"));
    assert!(v.is_excluded_file("repo/.git/config"));
    assert!(!v.is_excluded_file("repo/src/main.rs"));
}
