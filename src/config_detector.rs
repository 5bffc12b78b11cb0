//! Reads development-kit configuration out of configuration files: settings mentioned,
//! integrations configured, the version named and environment variables set.
use vstd::prelude::*;

use crate::env::EnvVars;
use crate::paths::{extension, file_name, file_name_of, lower_extension_of};
use crate::scan::{extract_version, lemma_line_end, opt_view, version_in};
use crate::text::{
    back_space, back_spaces, char_pos, chars_of, contains, contains_any, contains_some, find_char,
    line_end, list_has, lower_of, lowercase, next_line_end, owned, same_text, skip_space,
    skip_spaces, slice_text, starts_with, string_list, text_starts_with, views,
};

verus! {

/// The kind of a configuration file.
#[derive(Debug, Clone, Copy, PartialEq, Eq, Structural)]
pub enum ConfigType {
    /// Environment files (`.env` and its variants)
    Environment,
    /// The Rust manifest `Cargo.toml`
    CargoToml,
    /// The Python `requirements.txt`
    Requirements,
    /// Python build files (`setup.py`, `pyproject.toml`)
    PythonBuild,
    /// JSON files
    Json,
    /// YAML files
    Yaml,
    /// TOML files other than the Rust manifest
    Toml,
    /// The protocol-server configuration `mcp.json`
    McpConfig,
    /// Anything else
    Unknown,
}

/// What was found in one configuration file.
#[derive(Debug, Clone)]
pub struct ConfigFileInfo {
    pub path: String,
    pub config_type: ConfigType,
    pub contains_adk_settings: bool,
    /// Each setting found, as `category:marker`, in the order found
    pub detected_settings: Vec<String>,
}

/// What was found in the configuration files of one project.
#[derive(Debug, Clone)]
pub struct AdkConfigInfo {
    pub config_files: Vec<ConfigFileInfo>,
    pub has_adk_config: bool,
    pub adk_version: Option<String>,
    pub google_api_configured: bool,
    pub vertex_ai_configured: bool,
    pub mcp_server_configured: bool,
    pub environment_variables: EnvVars,
}

/// A configuration file and its text.
#[derive(Debug)]
pub struct ConfigSource {
    pub path: String,
    pub content: String,
}

/// Scans configuration files for known settings.
pub struct AdkConfigDetector {
    /// Environment variables of the development kit
    pub adk_env_vars: Vec<String>,
    /// Configuration keys of the development kit
    pub adk_config_keys: Vec<String>,
    /// Text that marks a configured hosted API
    pub google_api_patterns: Vec<String>,
    /// Text that marks a configured cloud platform
    pub vertex_ai_patterns: Vec<String>,
}

/// Extensions of configuration files found in subdirectories.
pub open spec fn config_extensions() -> Seq<Seq<char>> {
    seq!["json"@, "yaml"@, "yml"@, "toml"@, "env"@]
}

/// Words in the names of configuration files found in subdirectories.
pub open spec fn config_name_words() -> Seq<Seq<char>> {
    seq!["config"@, "settings"@, "adk"@, "vertex"@, "google"@]
}

/// Text that marks a configured protocol server.
pub open spec fn mcp_config_markers() -> Seq<Seq<char>> {
    seq!["rmcp"@, "arkaft-mcp-google-adk"@, "mcpServers"@]
}

/// The dependency name whose version a configuration file may give.
pub open spec fn config_version_markers() -> Seq<Seq<char>> {
    seq!["google-adk"@]
}

/// The position of the last dot in `f` before `i`, or -1.
pub open spec fn last_dot(f: Seq<char>, i: int) -> int
    decreases i,
{
    if i <= 0 {
        -1
    } else if f[i - 1] == '.' {
        i - 1
    } else {
        last_dot(f, i - 1)
    }
}

/// The text of `f` after its last dot, or all of it.
pub open spec fn after_last_dot(f: Seq<char>) -> Seq<char> {
    f.skip(last_dot(f, f.len() as int) + 1)
}

/// A file name that looks like configuration: its last dot-separated part is a configuration
/// extension, or its lowercased name holds a configuration word.
pub open spec fn is_config_name(f: Seq<char>) -> bool {
    config_extensions().contains(after_last_dot(f)) || contains_any(
        lower_of(f),
        config_name_words(),
    )
}

/// The kind of a configuration file with the given name and lowercased extension.
pub open spec fn config_type_for(name: Option<Seq<char>>, ext: Option<Seq<char>>) -> ConfigType {
    if name matches Some(n) && n == "Cargo.toml"@ {
        ConfigType::CargoToml
    } else if name matches Some(n) && n == "requirements.txt"@ {
        ConfigType::Requirements
    } else if name matches Some(n) && (n == "setup.py"@ || n == "pyproject.toml"@) {
        ConfigType::PythonBuild
    } else if name matches Some(n) && n == "mcp.json"@ {
        ConfigType::McpConfig
    } else if name matches Some(n) && starts_with(n, ".env"@) {
        ConfigType::Environment
    } else {
        match ext {
            Some(e) => if e == "json"@ {
                ConfigType::Json
            } else if e == "yaml"@ || e == "yml"@ {
                ConfigType::Yaml
            } else if e == "toml"@ {
                ConfigType::Toml
            } else {
                ConfigType::Unknown
            },
            None => ConfigType::Unknown,
        }
    }
}

/// The kind of the configuration file at `path`.
pub open spec fn config_type_of(path: Seq<char>) -> ConfigType {
    config_type_for(file_name_of(path), lower_extension_of(path))
}

/// `prefix` followed by each of `markers` that occurs in `t`, in order.
pub open spec fn tagged(prefix: Seq<char>, markers: Seq<Seq<char>>, t: Seq<char>) -> Seq<Seq<char>>
    decreases markers.len(),
{
    if markers.len() == 0 {
        seq![]
    } else {
        let rest = tagged(prefix, markers.drop_last(), t);
        if crate::text::contains_text(t, markers.last()) {
            rest.push(prefix + markers.last())
        } else {
            rest
        }
    }
}

/// The issues found in a project's configuration.
pub open spec fn issues_of(info: &AdkConfigInfo) -> Seq<Seq<char>> {
    if !info.has_adk_config {
        seq!["No ADK configuration detected"@]
    } else {
        (if !info.google_api_configured && !info.vertex_ai_configured {
            seq!["Neither Google API nor Vertex AI is configured"@]
        } else {
            seq![]
        }) + (if !info.has_env_file() {
            seq!["No .env file found for environment configuration"@]
        } else {
            seq![]
        }) + (if info.google_api_configured && !info.environment_variables@.dom().contains(
            "GOOGLE_API_KEY"@,
        ) {
            seq!["GOOGLE_API_KEY not found in environment variables"@]
        } else {
            seq![]
        })
    }
}

/// The advice for a project's configuration.
pub open spec fn recommendations_of(info: &AdkConfigInfo) -> Seq<Seq<char>> {
    if !info.has_adk_config {
        seq![
            "Add ADK dependencies to your project configuration"@,
            "Create a .env file for API key configuration"@,
        ]
    } else {
        (if !info.mcp_server_configured {
            seq!["Consider setting up arkaft-mcp-google-adk MCP server for enhanced ADK support"@]
        } else {
            seq![]
        }) + (if info.google_api_configured && !info.vertex_ai_configured {
            seq!["Consider using Vertex AI for production deployments"@]
        } else {
            seq![]
        }) + (if info.adk_version is None {
            seq!["Pin ADK dependency versions for reproducible builds"@]
        } else {
            seq![]
        })
    }
}

impl AdkConfigInfo {
    /// One of the configuration files is an environment file.
    pub open spec fn has_env_file(&self) -> bool {
        exists|i: int|
            0 <= i < self.config_files@.len() && (#[trigger] self.config_files@[i]).config_type
                == ConfigType::Environment
    }
}

impl AdkConfigDetector {
    /// The lists every detector has.
    pub open spec fn has_default_lists(&self) -> bool {
        &&& views(self.adk_env_vars@) == seq![
            "GOOGLE_API_KEY"@,
            "GOOGLE_APPLICATION_CREDENTIALS"@,
            "GOOGLE_GENAI_USE_VERTEXAI"@,
            "VERTEXAI_PROJECT"@,
            "VERTEXAI_LOCATION"@,
            "ADK_VERSION"@,
            "ADK_DOCS_VERSION"@,
            "RUST_LOG"@,
        ]
        &&& views(self.adk_config_keys@) == seq![
            "google-adk"@,
            "google-genai"@,
            "vertexai"@,
            "adk-core"@,
            "adk-runtime"@,
            "rmcp"@,
            "arkaft-mcp-google-adk"@,
        ]
        &&& views(self.google_api_patterns@) == seq![
            "GOOGLE_API_KEY"@,
            "google_api_key"@,
            "googleApiKey"@,
            "GOOGLE_APPLICATION_CREDENTIALS"@,
            "google-cloud"@,
        ]
        &&& views(self.vertex_ai_patterns@) == seq![
            "VERTEXAI"@,
            "vertex_ai"@,
            "vertexAi"@,
            "GOOGLE_GENAI_USE_VERTEXAI"@,
            "vertex-ai"@,
        ]
    }

    /// The settings found in the text `t`: environment variables, configuration keys, hosted
    /// API markers and cloud platform markers, each tagged with its category.
    pub open spec fn settings_in(&self, t: Seq<char>) -> Seq<Seq<char>> {
        tagged("env:"@, views(self.adk_env_vars@), t) + tagged(
            "key:"@,
            views(self.adk_config_keys@),
            t,
        ) + tagged("google:"@, views(self.google_api_patterns@), t) + tagged(
            "vertex:"@,
            views(self.vertex_ai_patterns@),
            t,
        )
    }

    /// The text `t` holds some known setting.
    pub open spec fn has_settings(&self, t: Seq<char>) -> bool {
        self.settings_in(t).len() > 0
    }

    /// `r` describes the configuration file at `path` with text `t`.
    pub open spec fn describes_file(&self, r: ConfigFileInfo, path: Seq<char>, t: Seq<char>) -> bool {
        &&& r.path@ == path
        &&& r.config_type == config_type_of(path)
        &&& views(r.detected_settings@) == self.settings_in(t)
        &&& r.contains_adk_settings == self.has_settings(t)
    }

    /// The map `m` after the line `[lo, hi)` of `t`: a `KEY=VALUE` line, once trimmed and
    /// unless empty or a comment, sets the trimmed key to the trimmed value when the key is a
    /// known environment variable.
    pub open spec fn env_line(
        &self,
        m: Map<Seq<char>, Seq<char>>,
        t: Seq<char>,
        lo: int,
        hi: int,
    ) -> Map<Seq<char>, Seq<char>> {
        let a = skip_space(t, lo, hi);
        let b = back_space(t, a, hi);
        if a == b || t[a] == '#' {
            m
        } else {
            let q = char_pos(t, '=', a, b);
            if q == b {
                m
            } else {
                let ka = skip_space(t, a, q);
                let kb = back_space(t, ka, q);
                let va = skip_space(t, q + 1, b);
                let vb = back_space(t, va, b);
                let key = t.subrange(ka, kb);
                if views(self.adk_env_vars@).contains(key) {
                    m.insert(key, t.subrange(va, vb))
                } else {
                    m
                }
            }
        }
    }

    /// The map `m` after the lines of `t` from position `i` on.
    pub open spec fn env_from(&self, m: Map<Seq<char>, Seq<char>>, t: Seq<char>, i: int) -> Map<
        Seq<char>,
        Seq<char>,
    >
        decreases t.len() + 1 - i,
        via Self::env_from_decreases
    {
        if i < 0 || i >= t.len() {
            m
        } else {
            let e = line_end(t, i);
            self.env_from(self.env_line(m, t, i, e), t, e + 1)
        }
    }

    #[via_fn]
    proof fn env_from_decreases(&self, m: Map<Seq<char>, Seq<char>>, t: Seq<char>, i: int) {
        if 0 <= i < t.len() {
            lemma_line_end(t, i);
        }
    }

    /// The version given by the first `n` sources, taken from the first with settings that
    /// was searched for one.
    pub open spec fn version_upto(&self, s: Seq<ConfigSource>, n: int) -> Option<Seq<char>>
        decreases n,
    {
        if n <= 0 {
            None
        } else {
            let prev = self.version_upto(s, n - 1);
            if prev is Some {
                prev
            } else if self.has_settings(s[n - 1].content@) {
                version_in(s[n - 1].content@, config_version_markers())
            } else {
                None
            }
        }
    }

    /// The environment variables set by the environment files with settings among the first
    /// `n` sources.
    pub open spec fn env_upto(&self, s: Seq<ConfigSource>, n: int) -> Map<Seq<char>, Seq<char>>
        decreases n,
    {
        if n <= 0 {
            Map::empty()
        } else {
            let m = self.env_upto(s, n - 1);
            if self.has_settings(s[n - 1].content@) && config_type_of(s[n - 1].path@)
                == ConfigType::Environment {
                self.env_from(m, s[n - 1].content@, 0)
            } else {
                m
            }
        }
    }
}

impl Default for AdkConfigDetector {
    /// The known environment variables, configuration keys, hosted API markers and cloud
    /// platform markers.
    fn default() -> (r: Self)
        ensures
            r.has_default_lists(),
    {
        let r = AdkConfigDetector {
            adk_env_vars: string_list(
                &[
                    "GOOGLE_API_KEY",
                    "GOOGLE_APPLICATION_CREDENTIALS",
                    "GOOGLE_GENAI_USE_VERTEXAI",
                    "VERTEXAI_PROJECT",
                    "VERTEXAI_LOCATION",
                    "ADK_VERSION",
                    "ADK_DOCS_VERSION",
                    "RUST_LOG",
                ],
            ),
            adk_config_keys: string_list(
                &[
                    "google-adk",
                    "google-genai",
                    "vertexai",
                    "adk-core",
                    "adk-runtime",
                    "rmcp",
                    "arkaft-mcp-google-adk",
                ],
            ),
            google_api_patterns: string_list(
                &[
                    "GOOGLE_API_KEY",
                    "google_api_key",
                    "googleApiKey",
                    "GOOGLE_APPLICATION_CREDENTIALS",
                    "google-cloud",
                ],
            ),
            vertex_ai_patterns: string_list(
                &[
                    "VERTEXAI",
                    "vertex_ai",
                    "vertexAi",
                    "GOOGLE_GENAI_USE_VERTEXAI",
                    "vertex-ai",
                ],
            ),
        };
        assert(views(r.adk_env_vars@) =~= seq![
            "GOOGLE_API_KEY"@,
            "GOOGLE_APPLICATION_CREDENTIALS"@,
            "GOOGLE_GENAI_USE_VERTEXAI"@,
            "VERTEXAI_PROJECT"@,
            "VERTEXAI_LOCATION"@,
            "ADK_VERSION"@,
            "ADK_DOCS_VERSION"@,
            "RUST_LOG"@,
        ]);
        assert(views(r.adk_config_keys@) =~= seq![
            "google-adk"@,
            "google-genai"@,
            "vertexai"@,
            "adk-core"@,
            "adk-runtime"@,
            "rmcp"@,
            "arkaft-mcp-google-adk"@,
        ]);
        assert(views(r.google_api_patterns@) =~= seq![
            "GOOGLE_API_KEY"@,
            "google_api_key"@,
            "googleApiKey"@,
            "GOOGLE_APPLICATION_CREDENTIALS"@,
            "google-cloud"@,
        ]);
        assert(views(r.vertex_ai_patterns@) =~= seq![
            "VERTEXAI"@,
            "vertex_ai"@,
            "vertexAi"@,
            "GOOGLE_GENAI_USE_VERTEXAI"@,
            "vertex-ai"@,
        ]);
        r
    }
}

/// The configuration files looked for under a project directory, as relative paths.
pub fn config_file_candidates() -> (r: Vec<String>)
    ensures
        views(r@) == seq![
            ".env"@,
            ".env.template"@,
            ".env.local"@,
            ".env.production"@,
            ".env.development"@,
            "Cargo.toml"@,
            "requirements.txt"@,
            "setup.py"@,
            "pyproject.toml"@,
            "config.json"@,
            "config.yaml"@,
            "config.yml"@,
            "config.toml"@,
            "adk.toml"@,
            "adk-config.json"@,
            "vertex-config.json"@,
            "google-cloud-config.json"@,
            "mcp.json"@,
            ".kiro/settings/mcp.json"@,
        ],
{
    let r = string_list(
        &[
            ".env",
            ".env.template",
            ".env.local",
            ".env.production",
            ".env.development",
            "Cargo.toml",
            "requirements.txt",
            "setup.py",
            "pyproject.toml",
            "config.json",
            "config.yaml",
            "config.yml",
            "config.toml",
            "adk.toml",
            "adk-config.json",
            "vertex-config.json",
            "google-cloud-config.json",
            "mcp.json",
            ".kiro/settings/mcp.json",
        ],
    );
    assert(views(r@) =~= seq![
        ".env"@,
        ".env.template"@,
        ".env.local"@,
        ".env.production"@,
        ".env.development"@,
        "Cargo.toml"@,
        "requirements.txt"@,
        "setup.py"@,
        "pyproject.toml"@,
        "config.json"@,
        "config.yaml"@,
        "config.yml"@,
        "config.toml"@,
        "adk.toml"@,
        "adk-config.json"@,
        "vertex-config.json"@,
        "google-cloud-config.json"@,
        "mcp.json"@,
        ".kiro/settings/mcp.json"@,
    ]);
    r
}

/// The subdirectories, relative to a project directory, whose files are scanned for
/// configuration.
pub fn config_subdirectories() -> (r: Vec<String>)
    ensures
        views(r@) == seq!["src"@, "config"@, ".kiro/settings"@],
{
    let r = string_list(&["src", "config", ".kiro/settings"]);
    assert(views(r@) =~= seq!["src"@, "config"@, ".kiro/settings"@]);
    r
}

/// The kind of a configuration file with the given name and lowercased extension.
pub fn config_type_from_parts(file_name: &Option<String>, lower_extension: &Option<String>) -> (r:
    ConfigType)
    ensures
        r == config_type_for(opt_view(*file_name), opt_view(*lower_extension)),
{
    if let Some(n) = file_name {
        let n = n.as_str();
        if same_text(n, "Cargo.toml") {
            return ConfigType::CargoToml;
        }
        if same_text(n, "requirements.txt") {
            return ConfigType::Requirements;
        }
        if same_text(n, "setup.py") || same_text(n, "pyproject.toml") {
            return ConfigType::PythonBuild;
        }
        if same_text(n, "mcp.json") {
            return ConfigType::McpConfig;
        }
        if text_starts_with(n, ".env") {
            return ConfigType::Environment;
        }
    }
    match lower_extension {
        Some(e) => {
            let e = e.as_str();
            if same_text(e, "json") {
                ConfigType::Json
            } else if same_text(e, "yaml") || same_text(e, "yml") {
                ConfigType::Yaml
            } else if same_text(e, "toml") {
                ConfigType::Toml
            } else {
                ConfigType::Unknown
            }
        },
        None => ConfigType::Unknown,
    }
}

/// Appends `prefix` followed by each of `markers` that occurs in `t`, in order.
fn push_tagged(out: &mut Vec<String>, prefix: &str, markers: &Vec<String>, t: &Vec<char>)
    ensures
        views(final(out)@) == views(old(out)@) + tagged(prefix@, views(markers@), t@),
{
    let ghost start = views(out@);
    let mut i: usize = 0;
    assert(views(markers@).take(0) =~= Seq::<Seq<char>>::empty());
    assert(start + tagged(prefix@, views(markers@).take(0), t@) =~= start);
    while i < markers.len()
        invariant
            i <= markers@.len(),
            views(out@) == start + tagged(prefix@, views(markers@).take(i as int), t@),
        decreases markers@.len() - i,
    {
        let ghost before = views(out@);
        assert(views(markers@).take(i + 1).drop_last() =~= views(markers@).take(i as int));
        assert(views(markers@).take(i + 1).last() == markers@[i as int]@);
        if contains(t, &chars_of(markers[i].as_str())) {
            out.push(owned(prefix).concat(markers[i].as_str()));
            assert(views(out@) =~= before.push(prefix@ + markers@[i as int]@));
        }
        i += 1;
    }
    assert(views(markers@).take(markers@.len() as int) =~= views(markers@));
}

impl AdkConfigDetector {
    /// Whether a file found in a scanned subdirectory looks like configuration.
    pub fn is_config_file(&self, filename: &str) -> (r: bool)
        ensures
            r == is_config_name(filename@),
    {
        self.matches_config_name(filename, lowercase(filename).as_str())
    }

    /// Whether a file name, given with its lowercased form, looks like configuration: its last
    /// dot-separated part is a configuration extension, or the lowercased name holds a
    /// configuration word.
    pub fn matches_config_name(&self, filename: &str, lower_filename: &str) -> (r: bool)
        ensures
            r == (config_extensions().contains(after_last_dot(filename@)) || contains_any(
                lower_filename@,
                config_name_words(),
            )),
    {
        let f = chars_of(filename);
        let mut i: usize = f.len();
        while i > 0 && f[i - 1] != '.'
            invariant
                i <= f@.len(),
                last_dot(f@, f@.len() as int) == last_dot(f@, i as int),
            decreases i,
        {
            i -= 1;
        }
        let last = slice_text(filename, i, f.len());
        assert(last@ =~= after_last_dot(filename@));
        let exts = string_list(&["json", "yaml", "yml", "toml", "env"]);
        assert(views(exts@) =~= config_extensions());
        if list_has(&exts, last.as_str()) {
            return true;
        }
        let words = string_list(&["config", "settings", "adk", "vertex", "google"]);
        assert(views(words@) =~= config_name_words());
        contains_some(&chars_of(lower_filename), &words)
    }

    /// The kind of the configuration file at `path`: by exact name first, then by lowercased
    /// extension.
    pub fn determine_config_type(&self, path: &str) -> (r: ConfigType)
        ensures
            r == config_type_of(path@),
    {
        let ext = match extension(path) {
            Some(e) => Some(lowercase(e.as_str())),
            None => None,
        };
        config_type_from_parts(&file_name(path), &ext)
    }

    /// The settings found in the configuration file at `path` with text `content`.
    pub fn analyze_config_file(&self, path: &str, content: &str) -> (r: ConfigFileInfo)
        ensures
            self.describes_file(r, path@, content@),
    {
        let t = chars_of(content);
        let mut settings: Vec<String> = Vec::new();
        push_tagged(&mut settings, "env:", &self.adk_env_vars, &t);
        push_tagged(&mut settings, "key:", &self.adk_config_keys, &t);
        push_tagged(&mut settings, "google:", &self.google_api_patterns, &t);
        push_tagged(&mut settings, "vertex:", &self.vertex_ai_patterns, &t);
        assert(views(settings@) =~= self.settings_in(content@));
        ConfigFileInfo {
            path: owned(path),
            config_type: self.determine_config_type(path),
            contains_adk_settings: settings.len() > 0,
            detected_settings: settings,
        }
    }

    /// The version that a configuration text gives the development kit.
    pub fn extract_adk_version(&self, content: &str) -> (r: Option<String>)
        ensures
            opt_view(r) == version_in(content@, config_version_markers()),
    {
        let markers = string_list(&["google-adk"]);
        assert(views(markers@) =~= config_version_markers());
        extract_version(content, &markers)
    }

    /// Sets in `env_vars` the known environment variables that the `KEY=VALUE` lines of
    /// `content` give, leaving every other key alone.
    pub fn extract_env_variables(&self, content: &str, env_vars: &mut EnvVars)
        ensures
            final(env_vars)@ == self.env_from(old(env_vars)@, content@, 0),
    {
        let t = chars_of(content);
        let mut i: usize = 0;
        while i < t.len()
            invariant
                t@ == content@,
                self.env_from(old(env_vars)@, content@, 0) == self.env_from(env_vars@, t@, i as int),
            decreases t.len() - i,
        {
            let e = next_line_end(&t, i);
            let ghost before = env_vars@;
            let a = skip_spaces(&t, i, e);
            let b = back_spaces(&t, a, e);
            if a < b && t[a] != '#' {
                let q = find_char(&t, '=', a, b);
                if q < b {
                    let ka = skip_spaces(&t, a, q);
                    let kb = back_spaces(&t, ka, q);
                    let key = slice_text(content, ka, kb);
                    if list_has(&self.adk_env_vars, key.as_str()) {
                        let va = skip_spaces(&t, q + 1, b);
                        let vb = back_spaces(&t, va, b);
                        env_vars.insert(key, slice_text(content, va, vb));
                    }
                }
            }
            assert(env_vars@ == self.env_line(before, t@, i as int, e as int));
            if e >= t.len() {
                assert(self.env_from(env_vars@, t@, e + 1) == env_vars@);
                return;
            }
            i = e + 1;
        }
    }
}

/// Lines of environment files only ever set known environment variables: every key of the
/// result is a key of the map started from or one of the detector's environment variables.
pub proof fn lemma_env_keys_allowed(
    d: &AdkConfigDetector,
    m: Map<Seq<char>, Seq<char>>,
    t: Seq<char>,
    i: int,
)
    ensures
        forall|k: Seq<char>|
            #[trigger] d.env_from(m, t, i).dom().contains(k) ==> m.dom().contains(k) || views(
                d.adk_env_vars@,
            ).contains(k),
    decreases t.len() + 1 - i,
{
    if 0 <= i < t.len() {
        let e = line_end(t, i);
        lemma_line_end(t, i);
        let m2 = d.env_line(m, t, i, e);
        lemma_env_keys_allowed(d, m2, t, e + 1);
        assert(d.env_from(m, t, i) == d.env_from(m2, t, e + 1));
        assert forall|k: Seq<char>| m2.dom().contains(k) implies m.dom().contains(k) || views(
            d.adk_env_vars@,
        ).contains(k) by {}
    }
}

impl AdkConfigDetector {
    /// Folds one analysed configuration file into `config_info`: a file without settings
    /// changes nothing; a file with settings supplies the version when none was found yet,
    /// turns on each integration it marks, and, when it is an environment file, sets the known
    /// environment variables it gives.
    pub fn extract_config_details(
        &self,
        file_info: &ConfigFileInfo,
        content: &str,
        config_info: &mut AdkConfigInfo,
    )
        ensures
            !file_info.contains_adk_settings ==> *final(config_info) == *old(config_info),
            file_info.contains_adk_settings ==> {
                &&& final(config_info).config_files@ == old(config_info).config_files@
                &&& final(config_info).has_adk_config == old(config_info).has_adk_config
                &&& opt_view(final(config_info).adk_version) == if old(config_info).adk_version is Some {
                    opt_view(old(config_info).adk_version)
                } else {
                    version_in(content@, config_version_markers())
                }
                &&& final(config_info).google_api_configured == (old(config_info).google_api_configured
                    || contains_any(content@, views(self.google_api_patterns@)))
                &&& final(config_info).vertex_ai_configured == (old(config_info).vertex_ai_configured
                    || contains_any(content@, views(self.vertex_ai_patterns@)))
                &&& final(config_info).mcp_server_configured == (old(config_info).mcp_server_configured
                    || contains_any(content@, mcp_config_markers()))
                &&& final(config_info).environment_variables@ == if file_info.config_type
                    == ConfigType::Environment {
                    self.env_from(old(config_info).environment_variables@, content@, 0)
                } else {
                    old(config_info).environment_variables@
                }
            },
    {
        if !file_info.contains_adk_settings {
            return;
        }
        let t = chars_of(content);
        if config_info.adk_version.is_none() {
            config_info.adk_version = self.extract_adk_version(content);
        }
        if contains_some(&t, &self.google_api_patterns) {
            config_info.google_api_configured = true;
        }
        if contains_some(&t, &self.vertex_ai_patterns) {
            config_info.vertex_ai_configured = true;
        }
        let mcp = string_list(&["rmcp", "arkaft-mcp-google-adk", "mcpServers"]);
        assert(views(mcp@) =~= mcp_config_markers());
        if contains_some(&t, &mcp) {
            config_info.mcp_server_configured = true;
        }
        if file_info.config_type == ConfigType::Environment {
            self.extract_env_variables(content, &mut config_info.environment_variables);
        }
    }

    /// The configuration of a project whose configuration files, in the order they were
    /// found, are `sources`: each file analysed, whether any holds settings, the integrations
    /// that files with settings mark, the first version such a file gives, and the known
    /// environment variables that its environment files set.
    pub fn detect_adk_config(&self, sources: &Vec<ConfigSource>) -> (r: AdkConfigInfo)
        ensures
            r.config_files@.len() == sources@.len(),
            forall|i: int|
                0 <= i < sources@.len() ==> self.describes_file(
                    #[trigger] r.config_files@[i],
                    sources@[i].path@,
                    sources@[i].content@,
                ),
            r.has_adk_config == exists|i: int|
                0 <= i < sources@.len() && self.has_settings((#[trigger] sources@[i]).content@),
            r.google_api_configured == exists|i: int|
                0 <= i < sources@.len() && self.has_settings((#[trigger] sources@[i]).content@)
                    && contains_any(sources@[i].content@, views(self.google_api_patterns@)),
            r.vertex_ai_configured == exists|i: int|
                0 <= i < sources@.len() && self.has_settings((#[trigger] sources@[i]).content@)
                    && contains_any(sources@[i].content@, views(self.vertex_ai_patterns@)),
            r.mcp_server_configured == exists|i: int|
                0 <= i < sources@.len() && self.has_settings((#[trigger] sources@[i]).content@)
                    && contains_any(sources@[i].content@, mcp_config_markers()),
            opt_view(r.adk_version) == self.version_upto(sources@, sources@.len() as int),
            r.environment_variables@ == self.env_upto(sources@, sources@.len() as int),
    {
        let mut info = AdkConfigInfo {
            config_files: Vec::new(),
            has_adk_config: false,
            adk_version: None,
            google_api_configured: false,
            vertex_ai_configured: false,
            mcp_server_configured: false,
            environment_variables: EnvVars::new(),
        };
        let ghost s = sources@;
        let mut i: usize = 0;
        while i < sources.len()
            invariant
                i <= s.len(),
                s == sources@,
                info.config_files@.len() == i,
                forall|j: int|
                    0 <= j < i ==> self.describes_file(
                        #[trigger] info.config_files@[j],
                        s[j].path@,
                        s[j].content@,
                    ),
                info.has_adk_config == exists|j: int|
                    0 <= j < i && self.has_settings((#[trigger] s[j]).content@),
                info.google_api_configured == exists|j: int|
                    0 <= j < i && self.has_settings((#[trigger] s[j]).content@) && contains_any(
                        s[j].content@,
                        views(self.google_api_patterns@),
                    ),
                info.vertex_ai_configured == exists|j: int|
                    0 <= j < i && self.has_settings((#[trigger] s[j]).content@) && contains_any(
                        s[j].content@,
                        views(self.vertex_ai_patterns@),
                    ),
                info.mcp_server_configured == exists|j: int|
                    0 <= j < i && self.has_settings((#[trigger] s[j]).content@) && contains_any(
                        s[j].content@,
                        mcp_config_markers(),
                    ),
                opt_view(info.adk_version) == self.version_upto(s, i as int),
                info.environment_variables@ == self.env_upto(s, i as int),
            decreases s.len() - i,
        {
            let src = &sources[i];
            let file_info = self.analyze_config_file(src.path.as_str(), src.content.as_str());
            if file_info.contains_adk_settings {
                info.has_adk_config = true;
            }
            self.extract_config_details(&file_info, src.content.as_str(), &mut info);
            info.config_files.push(file_info);
            i += 1;
        }
        info
    }

    /// The issues with a project's configuration, in order: no configuration at all (and then
    /// nothing else), neither integration configured, no environment file, and the hosted API
    /// configured without its key among the environment variables.
    pub fn validate_adk_config(&self, config_info: &AdkConfigInfo) -> (r: Vec<String>)
        ensures
            views(r@) == issues_of(config_info),
    {
        let mut issues: Vec<String> = Vec::new();
        if !config_info.has_adk_config {
            issues.push(owned("No ADK configuration detected"));
            assert(views(issues@) =~= issues_of(config_info));
            return issues;
        }
        let ghost a: Seq<Seq<char>> = if !config_info.google_api_configured
            && !config_info.vertex_ai_configured {
            seq!["Neither Google API nor Vertex AI is configured"@]
        } else {
            seq![]
        };
        if !config_info.google_api_configured && !config_info.vertex_ai_configured {
            issues.push(owned("Neither Google API nor Vertex AI is configured"));
        }
        assert(views(issues@) =~= a);
        let mut has_env_file = false;
        let mut i: usize = 0;
        while i < config_info.config_files.len()
            invariant
                i <= config_info.config_files@.len(),
                has_env_file == exists|j: int|
                    0 <= j < i && (#[trigger] config_info.config_files@[j]).config_type
                        == ConfigType::Environment,
            decreases config_info.config_files@.len() - i,
        {
            if config_info.config_files[i].config_type == ConfigType::Environment {
                has_env_file = true;
            }
            i += 1;
        }
        let ghost b: Seq<Seq<char>> = if !config_info.has_env_file() {
            seq!["No .env file found for environment configuration"@]
        } else {
            seq![]
        };
        if !has_env_file {
            issues.push(owned("No .env file found for environment configuration"));
        }
        assert(views(issues@) =~= a + b);
        if config_info.google_api_configured {
            if !config_info.environment_variables.contains_key("GOOGLE_API_KEY") {
                issues.push(owned("GOOGLE_API_KEY not found in environment variables"));
            }
        }
        assert(views(issues@) =~= issues_of(config_info));
        issues
    }

    /// Advice on a project's configuration, in order: without configuration, to add the
    /// dependencies and an environment file; otherwise to set up the protocol server when it
    /// is not configured, to use the cloud platform when only the hosted API is configured,
    /// and to pin the version when none was found.
    pub fn get_config_recommendations(&self, config_info: &AdkConfigInfo) -> (r: Vec<String>)
        ensures
            views(r@) == recommendations_of(config_info),
    {
        let mut recs: Vec<String> = Vec::new();
        if !config_info.has_adk_config {
            recs.push(owned("Add ADK dependencies to your project configuration"));
            recs.push(owned("Create a .env file for API key configuration"));
            assert(views(recs@) =~= recommendations_of(config_info));
            return recs;
        }
        let ghost a: Seq<Seq<char>> = if !config_info.mcp_server_configured {
            seq!["Consider setting up arkaft-mcp-google-adk MCP server for enhanced ADK support"@]
        } else {
            seq![]
        };
        if !config_info.mcp_server_configured {
            recs.push(
                owned("Consider setting up arkaft-mcp-google-adk MCP server for enhanced ADK support"),
            );
        }
        assert(views(recs@) =~= a);
        let ghost b: Seq<Seq<char>> = if config_info.google_api_configured
            && !config_info.vertex_ai_configured {
            seq!["Consider using Vertex AI for production deployments"@]
        } else {
            seq![]
        };
        if config_info.google_api_configured && !config_info.vertex_ai_configured {
            recs.push(owned("Consider using Vertex AI for production deployments"));
        }
        assert(views(recs@) =~= a + b);
        if config_info.adk_version.is_none() {
            recs.push(owned("Pin ADK dependency versions for reproducible builds"));
        }
        assert(views(recs@) =~= recommendations_of(config_info));
        recs
    }
}

/// The environment variables of a project's configuration are all known environment
/// variables, whatever else its environment files set.
pub proof fn lemma_config_env_keys_allowed(d: &AdkConfigDetector, s: Seq<ConfigSource>, n: int)
    ensures
        forall|k: Seq<char>|
            #[trigger] d.env_upto(s, n).dom().contains(k) ==> views(d.adk_env_vars@).contains(k),
    decreases n,
{
    if n > 0 {
        lemma_config_env_keys_allowed(d, s, n - 1);
        lemma_env_keys_allowed(d, d.env_upto(s, n - 1), s[n - 1].content@, 0);
    }
}

} // verus!
