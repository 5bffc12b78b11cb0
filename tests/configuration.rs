use arkaft_adk_agents::{AdkConfigDetector, AdkConfigInfo, ConfigSource, ConfigType, EnvVars};

fn source(path: &str, content: &str) -> ConfigSource {
    ConfigSource { path: path.to_string(), content: content.to_string() }
}

#[test]
fn test_detect_env_config() {
    let env_content = r#"
GOOGLE_API_KEY=your_api_key_here
GOOGLE_GENAI_USE_VERTEXAI=FALSE
RUST_LOG=info
"#;
    let detector = AdkConfigDetector::default();
    let result = detector.detect_adk_config(&vec![source("/tmp/p/.env", env_content)]);

    assert!(result.has_adk_config);
    assert!(result.google_api_configured);
    assert_eq!(result.config_files.len(), 1);
    assert_eq!(result.config_files[0].config_type, ConfigType::Environment);
    assert!(result.environment_variables.contains_key("GOOGLE_API_KEY"));
}

#[test]
fn test_detect_cargo_adk_config() {
    let cargo_content = r#"
[package]
name = "adk-project"
version = "0.1.0"

[dependencies]
google-adk = { version = "1.0.0" }
tokio = "1.0"
"#;
    let detector = AdkConfigDetector::default();
    let result = detector.detect_adk_config(&vec![source("/tmp/p/Cargo.toml", cargo_content)]);

    assert!(result.has_adk_config);
    assert_eq!(result.adk_version, Some("1.0.0".to_string()));
    assert_eq!(result.config_files.len(), 1);
    assert_eq!(result.config_files[0].config_type, ConfigType::CargoToml);
}

#[test]
fn test_detect_mcp_config() {
    let mcp_content = r#"
{
  "mcpServers": {
    "arkaft-google-adk": {
      "command": "./arkaft-mcp-google-adk",
      "args": []
    }
  }
}
"#;
    let detector = AdkConfigDetector::default();
    let result = detector.detect_adk_config(&vec![source("/tmp/p/.kiro/settings/mcp.json", mcp_content)]);

    assert!(result.has_adk_config);
    assert!(result.mcp_server_configured);
    assert_eq!(result.config_files[0].config_type, ConfigType::McpConfig);
}

#[test]
fn test_validate_adk_config() {
    let mut config_info = AdkConfigInfo {
        config_files: vec![],
        has_adk_config: true,
        adk_version: Some("1.0.0".to_string()),
        google_api_configured: false,
        vertex_ai_configured: false,
        mcp_server_configured: false,
        environment_variables: EnvVars::new(),
    };

    let detector = AdkConfigDetector::default();
    let issues = detector.validate_adk_config(&config_info);

    assert!(!issues.is_empty());
    assert!(issues.iter().any(|issue| issue.contains("Neither Google API nor Vertex AI")));

    config_info.google_api_configured = true;
    config_info.environment_variables.insert("GOOGLE_API_KEY".to_string(), "test_key".to_string());

    let issues = detector.validate_adk_config(&config_info);
    assert!(!issues.iter().any(|issue| issue.contains("Neither Google API nor Vertex AI")));
}

#[test]
fn test_config_recommendations() {
    let config_info = AdkConfigInfo {
        config_files: vec![],
        has_adk_config: false,
        adk_version: None,
        google_api_configured: false,
        vertex_ai_configured: false,
        mcp_server_configured: false,
        environment_variables: EnvVars::new(),
    };

    let detector = AdkConfigDetector::default();
    let recommendations = detector.get_config_recommendations(&config_info);

    assert!(!recommendations.is_empty());
    assert!(recommendations.iter().any(|rec| rec.contains("Add ADK dependencies")));
    assert!(recommendations.iter().any(|rec| rec.contains("Create a .env file")));
}

#[test]
fn test_extract_adk_version() {
    let detector = AdkConfigDetector::default();

    let cargo_content = r#"google-adk = { version = "1.2.3" }"#;
    let version = detector.extract_adk_version(cargo_content);
    assert_eq!(version, Some("1.2.3".to_string()));

    let no_version_content = "tokio = \"1.0\"";
    let version = detector.extract_adk_version(no_version_content);
    assert_eq!(version, None);
}

#[test]
fn version_extraction_rules() {
    let detector = AdkConfigDetector::default();

    // The line must mention the word `version`.
    assert_eq!(detector.extract_adk_version("google-adk = \"1.0.0\""), None);
    // The first quoted run must start with a digit; otherwise the next line is tried.
    let text = "google-adk = { version = \"v1\" }\ngoogle-adk = { version = \"2.0\" }\n";
    assert_eq!(detector.extract_adk_version(text), Some("2.0".to_string()));
    // An unterminated quote gives nothing on that line.
    assert_eq!(detector.extract_adk_version("google-adk version \"3.1"), None);
    // Windows line endings.
    let text = "name = \"x\"\r\ngoogle-adk = { version = \"4.5.6\" }\r\n";
    assert_eq!(detector.extract_adk_version(text), Some("4.5.6".to_string()));
}

#[test]
fn version_extraction_is_repeatable() {
    let detector = AdkConfigDetector::default();
    let text = "[dependencies]\ngoogle-adk = { version = \"1.0.0\" }\n";
    let first = detector.extract_adk_version(text);
    let _other = detector.extract_adk_version("google-adk = { version = \"9.9\" }");
    let second = detector.extract_adk_version(text);
    assert_eq!(first, second);
    assert_eq!(first, Some("1.0.0".to_string()));
}

#[test]
fn environment_keys_outside_the_list_are_dropped() {
    let detector = AdkConfigDetector::default();
    let mut env = EnvVars::new();
    let content = "# comment\n\n  GOOGLE_API_KEY =  abc123  \nAWS_SECRET=hunter2\nRUST_LOG=debug\nnot a pair\nVERTEXAI_PROJECT=p=q\n";
    detector.extract_env_variables(content, &mut env);

    assert_eq!(env.get("GOOGLE_API_KEY"), Some(&"abc123".to_string()));
    assert_eq!(env.get("RUST_LOG"), Some(&"debug".to_string()));
    assert_eq!(env.get("VERTEXAI_PROJECT"), Some(&"p=q".to_string()));
    assert!(!env.contains_key("AWS_SECRET"));
    assert_eq!(env.entries().len(), 3);
}

#[test]
fn environment_later_value_wins() {
    let detector = AdkConfigDetector::default();
    let mut env = EnvVars::new();
    detector.extract_env_variables("RUST_LOG=info\nRUST_LOG=trace\n", &mut env);
    assert_eq!(env.get("RUST_LOG"), Some(&"trace".to_string()));
    assert_eq!(env.entries().len(), 1);
}

#[test]
fn analyze_records_settings_in_order() {
    let detector = AdkConfigDetector::default();
    let info = detector.analyze_config_file("cfg/settings.yaml", "GOOGLE_API_KEY: x\nuse google-adk and vertex_ai\n");

    assert_eq!(info.config_type, ConfigType::Yaml);
    assert!(info.contains_adk_settings);
    assert_eq!(
        info.detected_settings,
        vec![
            "env:GOOGLE_API_KEY".to_string(),
            "key:google-adk".to_string(),
            "google:GOOGLE_API_KEY".to_string(),
            "vertex:vertex_ai".to_string(),
        ]
    );

    let none = detector.analyze_config_file("cfg/other.json", "{}");
    assert!(!none.contains_adk_settings);
    assert!(none.detected_settings.is_empty());
    assert_eq!(none.config_type, ConfigType::Json);
}

#[test]
fn config_types_by_name_and_extension() {
    let detector = AdkConfigDetector::default();
    assert_eq!(detector.determine_config_type("p/Cargo.toml"), ConfigType::CargoToml);
    assert_eq!(detector.determine_config_type("p/requirements.txt"), ConfigType::Requirements);
    assert_eq!(detector.determine_config_type("p/pyproject.toml"), ConfigType::PythonBuild);
    assert_eq!(detector.determine_config_type("p/mcp.json"), ConfigType::McpConfig);
    assert_eq!(detector.determine_config_type("p/.env.local"), ConfigType::Environment);
    assert_eq!(detector.determine_config_type("p/app.YML"), ConfigType::Yaml);
    assert_eq!(detector.determine_config_type("p/adk.toml"), ConfigType::Toml);
    assert_eq!(detector.determine_config_type("p/notes.txt"), ConfigType::Unknown);
}

#[test]
fn config_file_names() {
    let detector = AdkConfigDetector::default();
    assert!(detector.is_config_file("app.json"));
    assert!(detector.is_config_file("local.env"));
    assert!(detector.is_config_file("MySettings.ini"));
    assert!(detector.is_config_file("Google_Credentials"));
    assert!(!detector.is_config_file("main.rs"));
    assert!(!detector.is_config_file("json.rs"));
}

#[test]
fn validation_issue_list() {
    let detector = AdkConfigDetector::default();
    let info = AdkConfigInfo {
        config_files: vec![],
        has_adk_config: false,
        adk_version: None,
        google_api_configured: true,
        vertex_ai_configured: false,
        mcp_server_configured: false,
        environment_variables: EnvVars::new(),
    };
    assert_eq!(detector.validate_adk_config(&info), vec!["No ADK configuration detected".to_string()]);

    let info = AdkConfigInfo { has_adk_config: true, ..info };
    assert_eq!(
        detector.validate_adk_config(&info),
        vec![
            "No .env file found for environment configuration".to_string(),
            "GOOGLE_API_KEY not found in environment variables".to_string(),
        ]
    );
    assert_eq!(
        detector.get_config_recommendations(&info),
        vec![
            "Consider setting up arkaft-mcp-google-adk MCP server for enhanced ADK support".to_string(),
            "Consider using Vertex AI for production deployments".to_string(),
            "Pin ADK dependency versions for reproducible builds".to_string(),
        ]
    );
}

#[test]
fn test_configuration_validation_and_recommendations() {
    let cargo_content = r#"
[dependencies]
google-adk = "1.0"
"#;
    let config_detector = AdkConfigDetector::default();
    let config_info = config_detector.detect_adk_config(&vec![source("/tmp/p/Cargo.toml", cargo_content)]);

    assert!(config_info.has_adk_config);
    assert!(!config_info.google_api_configured);
    assert!(!config_info.vertex_ai_configured);

    let issues = config_detector.validate_adk_config(&config_info);
    assert!(!issues.is_empty());
    assert!(issues.iter().any(|issue| issue.contains("Neither Google API nor Vertex AI")));

    let recommendations = config_detector.get_config_recommendations(&config_info);
    assert!(!recommendations.is_empty());
    assert!(recommendations
        .iter()
        .any(|rec| rec.contains("MCP server") || rec.contains("arkaft-mcp-google-adk")));
}

#[test]
fn files_without_settings_contribute_nothing() {
    let detector = AdkConfigDetector::default();
    let sources = vec![
        source("p/.env", "OTHER=1\nRUST_LOG=warn\n"),
        source("p/config.json", "{\"mcpServers\": {}}"),
    ];
    let info = detector.detect_adk_config(&sources);
    // RUST_LOG is itself a setting, so the environment file counts.
    assert!(info.has_adk_config);
    assert_eq!(info.environment_variables.get("RUST_LOG"), Some(&"warn".to_string()));
    // The JSON file holds no known setting, so its protocol-server marker is not read.
    assert!(!info.mcp_server_configured);
    assert_eq!(info.config_files.len(), 2);
}

#[test]
fn environment_map_clones_and_overrides() {
    let mut env = EnvVars::new();
    env.insert("RUST_LOG".to_string(), "info".to_string());
    let copy = env.clone();
    env.insert("RUST_LOG".to_string(), "debug".to_string());
    assert_eq!(copy.get("RUST_LOG"), Some(&"info".to_string()));
    assert_eq!(env.get("RUST_LOG"), Some(&"debug".to_string()));
    assert_eq!(env.get("OTHER"), None);
}

#[test]
fn project_environment_holds_only_known_keys() {
    let detector = AdkConfigDetector::default();
    let info = detector.detect_adk_config(&vec![
        source("p/.env", "GOOGLE_API_KEY=k\nDATABASE_PASSWORD=secret\n"),
        source("p/.env.local", "ADK_VERSION=2\nHOME=/root\n"),
    ]);
    let keys: Vec<&str> = info.environment_variables.entries().iter().map(|(k, _)| k.as_str()).collect();
    assert_eq!(keys, vec!["GOOGLE_API_KEY", "ADK_VERSION"]);
}
