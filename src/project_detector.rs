//! Classifies a directory as a development-kit project from its manifests and configuration,
//! and searches a directory tree for such projects.
use vstd::prelude::*;

use crate::paths::{extension, extension_of, file_name, file_name_of};
use crate::scan::{extract_version, opt_view, version_in};
use crate::text::{chars_of, contains_any, contains_some, owned, same_text, string_list, views};

verus! {

/// The kind of project found in a directory.
#[derive(Debug, Clone, Copy, PartialEq, Eq, Structural)]
pub enum AdkProjectType {
    /// A Rust project that depends on the development kit
    RustAdk,
    /// A Python project that depends on the development kit
    PythonAdk,
    /// A Rust protocol server that serves the development kit
    McpAdkServer,
    /// A project with both Rust and Python manifests
    Mixed,
    /// Not a development-kit project
    NotAdk,
}

/// What was found in one directory.
#[derive(Debug, Clone)]
pub struct AdkProjectInfo {
    pub project_type: AdkProjectType,
    pub root_path: String,
    pub has_cargo_toml: bool,
    pub has_requirements_txt: bool,
    pub has_adk_dependencies: bool,
    pub has_adk_config: bool,
    pub estimated_size: u64,
    pub adk_version: Option<String>,
}

/// What was read from one directory for its classification.
#[derive(Debug)]
pub struct ProjectProbe {
    /// The directory
    pub root_path: String,
    /// Whether `Cargo.toml` exists there
    pub cargo_toml_exists: bool,
    /// The text of `Cargo.toml`, when it could be read
    pub cargo_toml: Option<String>,
    /// Whether `requirements.txt` exists there
    pub requirements_exists: bool,
    /// The text of `requirements.txt`, when it could be read
    pub requirements: Option<String>,
    /// The texts of the known configuration files that exist there and could be read, in the
    /// order of `sdk_config_file_names`
    pub config_contents: Vec<String>,
    /// Whether one of `sdk_directory_names` is a directory there
    pub has_sdk_directory: bool,
    /// The total size of the files under the directory, as far as it was summed
    pub estimated_size: u64,
}

/// The dependency names that carry a version worth reporting.
pub open spec fn version_markers() -> Seq<Seq<char>> {
    seq!["google-adk"@, "adk-core"@]
}

/// Text in a configuration file that marks it as development-kit configuration.
pub open spec fn config_markers() -> Seq<Seq<char>> {
    seq!["GOOGLE_API_KEY"@, "VERTEXAI"@, "ADK"@, "google-genai"@]
}

/// Text in a Rust manifest that marks a protocol server.
pub open spec fn mcp_markers() -> Seq<Seq<char>> {
    seq!["rmcp"@, "mcp"@]
}

/// Directory names that searches and size estimates pass over.
pub open spec fn is_skipped_dir_name(n: Seq<char>) -> bool {
    n == "target"@ || n == "node_modules"@ || n == ".git"@ || n == "__pycache__"@ || n == ".venv"@
}

/// The decision table: no development-kit signal means no project; otherwise both manifests
/// make a mixed project, a Rust manifest alone a protocol server when it names one and a Rust
/// project otherwise, and a Python manifest alone, or configuration alone, a Python project.
pub open spec fn project_type_for(
    has_cargo: bool,
    has_requirements: bool,
    has_dependencies: bool,
    has_config: bool,
    has_mcp_marker: bool,
) -> AdkProjectType {
    if !(has_dependencies || has_config) {
        AdkProjectType::NotAdk
    } else if has_cargo && has_requirements {
        AdkProjectType::Mixed
    } else if has_cargo {
        if has_mcp_marker {
            AdkProjectType::McpAdkServer
        } else {
            AdkProjectType::RustAdk
        }
    } else if has_requirements {
        AdkProjectType::PythonAdk
    } else if has_config {
        AdkProjectType::PythonAdk
    } else {
        AdkProjectType::NotAdk
    }
}

impl ProjectProbe {
    /// A text is only there for a file that exists.
    pub open spec fn wf(&self) -> bool {
        &&& self.cargo_toml is Some ==> self.cargo_toml_exists
        &&& self.requirements is Some ==> self.requirements_exists
    }

    /// The Rust manifest names a protocol server.
    pub open spec fn has_mcp_marker(&self) -> bool {
        self.cargo_toml matches Some(c) && contains_any(c@, mcp_markers())
    }

    /// A known configuration file holds development-kit configuration, or a known directory
    /// exists.
    pub open spec fn has_config(&self) -> bool {
        (exists|i: int|
            0 <= i < self.config_contents@.len() && contains_any(
                #[trigger] self.config_contents@[i]@,
                config_markers(),
            )) || self.has_sdk_directory
    }

    /// The version named in the Rust manifest.
    pub open spec fn version(&self) -> Option<Seq<char>> {
        match self.cargo_toml {
            Some(c) => version_in(c@, version_markers()),
            None => None,
        }
    }
}

/// Classifies directories by their manifests and configuration.
pub struct AdkProjectDetector {
    /// The size up to which a directory's files are summed
    pub max_file_size: u64,
    /// Dependency names that mark a Rust manifest
    pub adk_rust_dependencies: Vec<String>,
    /// Package names that mark a Python manifest
    pub adk_python_dependencies: Vec<String>,
}

impl AdkProjectDetector {
    /// The dependency lists every detector has.
    pub open spec fn has_default_lists(&self) -> bool {
        &&& views(self.adk_rust_dependencies@) == seq![
            "google-adk"@,
            "google-cloud-adk"@,
            "adk-core"@,
            "adk-runtime"@,
            "google-genai"@,
            "vertexai"@,
            "rmcp"@,
        ]
        &&& views(self.adk_python_dependencies@) == seq![
            "google-adk"@,
            "google-cloud-adk"@,
            "google-genai"@,
            "vertexai"@,
            "google-cloud-aiplatform"@,
            "adk-agents"@,
        ]
    }

    /// A manifest that could be read names a known dependency.
    pub open spec fn has_dependencies(&self, p: &ProjectProbe) -> bool {
        (p.cargo_toml matches Some(c) && contains_any(c@, views(self.adk_rust_dependencies@))) || (
        p.requirements matches Some(c) && contains_any(c@, views(self.adk_python_dependencies@)))
    }

    /// The kind of project that `p` shows.
    pub open spec fn project_type_of(&self, p: &ProjectProbe) -> AdkProjectType {
        project_type_for(
            p.cargo_toml_exists,
            p.requirements_exists,
            self.has_dependencies(p),
            p.has_config(),
            p.has_mcp_marker(),
        )
    }
}

impl Default for AdkProjectDetector {
    /// Sums sizes up to 50 MiB, with the known Rust and Python dependency names.
    fn default() -> (r: Self)
        ensures
            r.max_file_size == 50 * 1024 * 1024,
            r.has_default_lists(),
    {
        let r = AdkProjectDetector {
            max_file_size: 50 * 1024 * 1024,
            adk_rust_dependencies: string_list(
                &[
                    "google-adk",
                    "google-cloud-adk",
                    "adk-core",
                    "adk-runtime",
                    "google-genai",
                    "vertexai",
                    "rmcp",
                ],
            ),
            adk_python_dependencies: string_list(
                &[
                    "google-adk",
                    "google-cloud-adk",
                    "google-genai",
                    "vertexai",
                    "google-cloud-aiplatform",
                    "adk-agents",
                ],
            ),
        };
        assert(views(r.adk_rust_dependencies@) =~= seq![
            "google-adk"@,
            "google-cloud-adk"@,
            "adk-core"@,
            "adk-runtime"@,
            "google-genai"@,
            "vertexai"@,
            "rmcp"@,
        ]);
        assert(views(r.adk_python_dependencies@) =~= seq![
            "google-adk"@,
            "google-cloud-adk"@,
            "google-genai"@,
            "vertexai"@,
            "google-cloud-aiplatform"@,
            "adk-agents"@,
        ]);
        r
    }
}

/// Whether a directory called `name` is passed over by searches and size estimates.
pub fn is_skipped_dir(name: &str) -> (r: bool)
    ensures
        r == is_skipped_dir_name(name@),
{
    same_text(name, "target") || same_text(name, "node_modules") || same_text(name, ".git")
        || same_text(name, "__pycache__") || same_text(name, ".venv")
}

/// The configuration files looked for directly under a directory.
pub fn sdk_config_file_names() -> (r: Vec<String>)
    ensures
        views(r@) == seq![
            ".env"@,
            ".env.template"@,
            "adk.toml"@,
            "adk-config.json"@,
            "vertex-config.json"@,
            "google-cloud-config.json"@,
        ],
{
    let r = string_list(
        &[
            ".env",
            ".env.template",
            "adk.toml",
            "adk-config.json",
            "vertex-config.json",
            "google-cloud-config.json",
        ],
    );
    assert(views(r@) =~= seq![
        ".env"@,
        ".env.template"@,
        "adk.toml"@,
        "adk-config.json"@,
        "vertex-config.json"@,
        "google-cloud-config.json"@,
    ]);
    r
}

/// The directories, relative to a directory, whose presence marks a project.
pub fn sdk_directory_names() -> (r: Vec<String>)
    ensures
        views(r@) == seq!["multi_tool_agent"@, "adk_agents"@, "src/expert"@, "src/review"@],
{
    let r = string_list(&["multi_tool_agent", "adk_agents", "src/expert", "src/review"]);
    assert(views(r@) =~= seq!["multi_tool_agent"@, "adk_agents"@, "src/expert"@, "src/review"@]);
    r
}

impl AdkProjectDetector {
    /// The kind of project that the findings in `info` show, by the decision table, where
    /// `has_mcp_marker` says whether the Rust manifest names a protocol server.
    pub fn determine_project_type(&self, info: &AdkProjectInfo, has_mcp_marker: bool) -> (r:
        AdkProjectType)
        ensures
            r == project_type_for(
                info.has_cargo_toml,
                info.has_requirements_txt,
                info.has_adk_dependencies,
                info.has_adk_config,
                has_mcp_marker,
            ),
    {
        if !(info.has_adk_dependencies || info.has_adk_config) {
            return AdkProjectType::NotAdk;
        }
        match (info.has_cargo_toml, info.has_requirements_txt) {
            (true, true) => AdkProjectType::Mixed,
            (true, false) => if has_mcp_marker {
                AdkProjectType::McpAdkServer
            } else {
                AdkProjectType::RustAdk
            },
            (false, true) => AdkProjectType::PythonAdk,
            (false, false) => if info.has_adk_config {
                AdkProjectType::PythonAdk
            } else {
                AdkProjectType::NotAdk
            },
        }
    }

    /// A detector that sums sizes up to `max_file_size`, with the known dependency names.
    pub fn new(max_file_size: u64) -> (r: Self)
        ensures
            r.max_file_size == max_file_size,
            r.has_default_lists(),
    {
        let mut r = Self::default();
        r.max_file_size = max_file_size;
        r
    }

    /// Whether a Rust manifest names a known dependency.
    pub fn check_rust_adk_dependencies(&self, cargo_content: &str) -> (r: bool)
        ensures
            r == contains_any(cargo_content@, views(self.adk_rust_dependencies@)),
    {
        contains_some(&chars_of(cargo_content), &self.adk_rust_dependencies)
    }

    /// Whether a Python manifest names a known package.
    pub fn check_python_adk_dependencies(&self, requirements_content: &str) -> (r: bool)
        ensures
            r == contains_any(requirements_content@, views(self.adk_python_dependencies@)),
    {
        contains_some(&chars_of(requirements_content), &self.adk_python_dependencies)
    }

    /// The version that a Rust manifest gives the development kit.
    pub fn extract_adk_version_from_cargo(&self, cargo_content: &str) -> (r: Option<String>)
        ensures
            opt_view(r) == version_in(cargo_content@, version_markers()),
    {
        let markers = string_list(&["google-adk", "adk-core"]);
        assert(views(markers@) =~= version_markers());
        extract_version(cargo_content, &markers)
    }

    /// Whether a known configuration file holds development-kit configuration, or a known
    /// directory exists.
    pub fn check_adk_config_files(&self, probe: &ProjectProbe) -> (r: bool)
        ensures
            r == probe.has_config(),
    {
        let markers = string_list(&["GOOGLE_API_KEY", "VERTEXAI", "ADK", "google-genai"]);
        assert(views(markers@) =~= config_markers());
        let mut i: usize = 0;
        while i < probe.config_contents.len()
            invariant
                i <= probe.config_contents@.len(),
                views(markers@) == config_markers(),
                forall|j: int|
                    0 <= j < i ==> !contains_any(
                        #[trigger] probe.config_contents@[j]@,
                        config_markers(),
                    ),
            decreases probe.config_contents@.len() - i,
        {
            if contains_some(&chars_of(probe.config_contents[i].as_str()), &markers) {
                assert(contains_any(probe.config_contents@[i as int]@, config_markers()));
                return true;
            }
            i += 1;
        }
        probe.has_sdk_directory
    }

    /// Classifies the directory that `probe` describes.
    pub fn detect_adk_project(&self, probe: &ProjectProbe) -> (r: AdkProjectInfo)
        ensures
            r.root_path@ == probe.root_path@,
            r.has_cargo_toml == probe.cargo_toml_exists,
            r.has_requirements_txt == probe.requirements_exists,
            r.has_adk_dependencies == self.has_dependencies(probe),
            r.has_adk_config == probe.has_config(),
            r.estimated_size == probe.estimated_size,
            opt_view(r.adk_version) == probe.version(),
            r.project_type == self.project_type_of(probe),
    {
        let mut has_deps = false;
        let mut version: Option<String> = None;
        let mut mcp = false;
        if let Some(c) = &probe.cargo_toml {
            has_deps = self.check_rust_adk_dependencies(c.as_str());
            version = self.extract_adk_version_from_cargo(c.as_str());
            let markers = string_list(&["rmcp", "mcp"]);
            assert(views(markers@) =~= mcp_markers());
            mcp = contains_some(&chars_of(c.as_str()), &markers);
        }
        if let Some(c) = &probe.requirements {
            if self.check_python_adk_dependencies(c.as_str()) {
                has_deps = true;
            }
        }
        let mut info = AdkProjectInfo {
            project_type: AdkProjectType::NotAdk,
            root_path: owned(probe.root_path.as_str()),
            has_cargo_toml: probe.cargo_toml_exists,
            has_requirements_txt: probe.requirements_exists,
            has_adk_dependencies: has_deps,
            has_adk_config: self.check_adk_config_files(probe),
            estimated_size: probe.estimated_size,
            adk_version: version,
        };
        info.project_type = self.determine_project_type(&info, mcp);
        info
    }

    /// Whether the file at `path`, of `size` bytes when it exists, is worth processing: it
    /// exists, is no larger than the size limit, and has a known source, configuration or
    /// documentation extension or, lacking an extension, a known manifest name.
    pub fn should_process_file(&self, path: &str, size: Option<u64>) -> (r: bool)
        ensures
            r == self.processes(size, file_name_of(path@), extension_of(path@)),
    {
        self.should_process_parts(size, &file_name(path), &extension(path))
    }

    /// The rule of `should_process_file`: the file exists, is no larger than the size limit,
    /// and has one of the known extensions or, lacking an extension, one of the known names.
    pub open spec fn processes(&self, size: Option<u64>, name: Option<Seq<char>>, ext: Option<
        Seq<char>,
    >) -> bool {
        size matches Some(n) && n <= self.max_file_size && match ext {
            Some(e) => e == "rs"@ || e == "py"@ || e == "toml"@ || e == "json"@ || e == "yaml"@
                || e == "yml"@ || e == "md"@,
            None => name matches Some(f) && (f == "Cargo.toml"@ || f == "requirements.txt"@ || f
                == "setup.py"@ || f == ".env"@ || f == ".env.template"@),
        }
    }

    /// Whether a file of `size` bytes when it exists, with the given name and extension, is
    /// worth processing.
    pub fn should_process_parts(
        &self,
        size: Option<u64>,
        file_name: &Option<String>,
        extension: &Option<String>,
    ) -> (r: bool)
        ensures
            r == self.processes(size, opt_view(*file_name), opt_view(*extension)),
    {
        match size {
            None => false,
            Some(n) => {
                if n > self.max_file_size {
                    return false;
                }
                match extension {
                    Some(e) => {
                        let e = e.as_str();
                        same_text(e, "rs") || same_text(e, "py") || same_text(e, "toml")
                            || same_text(e, "json") || same_text(e, "yaml") || same_text(e, "yml")
                            || same_text(e, "md")
                    },
                    None => match file_name {
                        Some(f) => {
                            let f = f.as_str();
                            same_text(f, "Cargo.toml") || same_text(f, "requirements.txt")
                                || same_text(f, "setup.py") || same_text(f, ".env") || same_text(
                                f,
                                ".env.template",
                            )
                        },
                        None => false,
                    },
                }
            },
        }
    }
}

/// Adds the size of one more file to a running total, stopping at the largest `u64`.
pub fn add_file_size(total: u64, size: u64) -> (r: u64)
    ensures
        r == if total + size > u64::MAX {
            u64::MAX as int
        } else {
            total + size
        },
{
    total.saturating_add(size)
}

/// A directory with neither manifest, no known configuration file and no known directory is no
/// project, and shows neither dependencies nor configuration.
pub proof fn lemma_no_signal_is_no_project(d: &AdkProjectDetector, p: &ProjectProbe)
    requires
        p.wf(),
        !p.cargo_toml_exists,
        !p.requirements_exists,
        p.config_contents@.len() == 0,
        !p.has_sdk_directory,
    ensures
        d.project_type_of(p) == AdkProjectType::NotAdk,
        !d.has_dependencies(p),
        !p.has_config(),
{
}

/// A directory whose Rust and Python manifests both name a known dependency is a mixed project.
pub proof fn lemma_both_manifests_is_mixed(d: &AdkProjectDetector, p: &ProjectProbe)
    requires
        p.wf(),
        p.cargo_toml matches Some(c) && contains_any(c@, views(d.adk_rust_dependencies@)),
        p.requirements matches Some(c) && contains_any(c@, views(d.adk_python_dependencies@)),
    ensures
        d.project_type_of(p) == AdkProjectType::Mixed,
{
}

/// A directory with a readable Rust manifest and no Python manifest, and with some
/// development-kit signal, is a protocol server when the manifest names one, and a Rust project
/// otherwise.
pub proof fn lemma_rust_manifest_alone(d: &AdkProjectDetector, p: &ProjectProbe)
    requires
        p.wf(),
        p.cargo_toml is Some,
        !p.requirements_exists,
        d.has_dependencies(p) || p.has_config(),
    ensures
        p.has_mcp_marker() ==> d.project_type_of(p) == AdkProjectType::McpAdkServer,
        !p.has_mcp_marker() ==> d.project_type_of(p) == AdkProjectType::RustAdk,
{
}

/// A directory waiting to be searched.
#[derive(Debug)]
pub struct PendingDir {
    pub path: String,
    pub depth: usize,
}

/// A subdirectory found while searching.
#[derive(Debug)]
pub struct SubDir {
    /// Its name within its parent
    pub name: String,
    /// Its path
    pub path: String,
}

/// The state of a depth-first search for projects: the directories still to visit, the last
/// to be visited first, and the projects found so far.
pub struct ProjectFinder {
    pub pending: Vec<PendingDir>,
    pub projects: Vec<AdkProjectInfo>,
    pub max_depth: usize,
}

/// The view of a pending directory.
pub open spec fn pending_view(d: PendingDir) -> (Seq<char>, usize) {
    (d.path@, d.depth)
}

/// The directories to visit below a directory at `depth` that is no project, given its
/// subdirectories: those not passed over by name, when their depth is still searched, last
/// first so that the first is visited first.
pub open spec fn descend(subdirs: Seq<SubDir>, depth: int, max_depth: int) -> Seq<(Seq<char>, usize)>
    decreases subdirs.len(),
{
    if subdirs.len() == 0 {
        seq![]
    } else {
        let rest = descend(subdirs.skip(1), depth, max_depth);
        if !is_skipped_dir_name(subdirs[0].name@) && depth + 1 < max_depth {
            rest.push((subdirs[0].path@, (depth + 1) as usize))
        } else {
            rest
        }
    }
}

impl ProjectFinder {
    /// Every pending directory lies above the depth limit.
    pub open spec fn wf(&self) -> bool {
        forall|i: int| 0 <= i < self.pending@.len() ==> (#[trigger] self.pending@[i]).depth < self.max_depth
    }

    /// The pending directories, as paths and depths.
    pub open spec fn pending_views(&self) -> Seq<(Seq<char>, usize)> {
        self.pending@.map_values(|d: PendingDir| pending_view(d))
    }

    /// A search of the tree under `root`, down to `max_depth` levels.
    pub fn new(root: &str, max_depth: usize) -> (r: Self)
        ensures
            r.max_depth == max_depth,
            r.wf(),
            r.projects@.len() == 0,
            r.pending_views() == if 0 < max_depth {
                seq![(root@, 0usize)]
            } else {
                seq![]
            },
    {
        let mut pending: Vec<PendingDir> = Vec::new();
        if 0 < max_depth {
            pending.push(PendingDir { path: owned(root), depth: 0 });
        }
        let r = ProjectFinder { pending, projects: Vec::new(), max_depth };
        assert(r.pending_views() =~= if 0 < max_depth {
            seq![(root@, 0usize)]
        } else {
            seq![]
        });
        r
    }

    /// The next directory to visit, taken off the pending ones; `None` when the search is over.
    pub fn next_directory(&mut self) -> (r: Option<PendingDir>)
        ensures
            final(self).max_depth == old(self).max_depth,
            final(self).projects@ == old(self).projects@,
            old(self).pending@.len() == 0 ==> r is None && final(self).pending@.len() == 0,
            old(self).pending@.len() > 0 ==> r == Some(old(self).pending@.last())
                && final(self).pending@ == old(self).pending@.drop_last(),
            old(self).wf() ==> final(self).wf() && (r matches Some(d) ==> d.depth < old(self).max_depth),
    {
        self.pending.pop()
    }

    /// Takes in the visit of a directory at `depth`: a detected project is recorded and its
    /// subdirectories are not searched; otherwise, or when the directory could not be
    /// classified (`info` is `None`), its subdirectories are queued.
    pub fn record(&mut self, depth: usize, info: Option<AdkProjectInfo>, subdirs: &Vec<SubDir>)
        ensures
            final(self).max_depth == old(self).max_depth,
            old(self).wf() ==> final(self).wf(),
            (info matches Some(p) && p.project_type != AdkProjectType::NotAdk) ==> {
                &&& final(self).projects@ == old(self).projects@.push(info->0)
                &&& final(self).pending@ == old(self).pending@
            },
            !(info matches Some(p) && p.project_type != AdkProjectType::NotAdk) ==> {
                &&& final(self).projects@ == old(self).projects@
                &&& final(self).pending_views() == old(self).pending_views() + descend(
                    subdirs@,
                    depth as int,
                    old(self).max_depth as int,
                )
            },
    {
        if let Some(p) = info {
            if p.project_type != AdkProjectType::NotAdk {
                self.projects.push(p);
                return;
            }
        }
        let ghost start = self.pending_views();
        let mut i: usize = subdirs.len();
        assert(subdirs@.skip(i as int) =~= Seq::<SubDir>::empty());
        assert(start + descend(subdirs@.skip(i as int), depth as int, self.max_depth as int) =~= start);
        while i > 0
            invariant
                i <= subdirs@.len(),
                self.max_depth == old(self).max_depth,
                self.projects@ == old(self).projects@,
                start == old(self).pending_views(),
                old(self).wf() ==> self.wf(),
                self.pending_views() == start + descend(
                    subdirs@.skip(i as int),
                    depth as int,
                    self.max_depth as int,
                ),
            decreases i,
        {
            i -= 1;
            assert(subdirs@.skip(i as int).skip(1) =~= subdirs@.skip(i as int + 1));
            assert(subdirs@.skip(i as int)[0] == subdirs@[i as int]);
            let sub = &subdirs[i];
            let ghost before = self.pending_views();
            let ghost rest = descend(subdirs@.skip(i as int + 1), depth as int, self.max_depth as int);
            assert(before == start + rest);
            if !is_skipped_dir(sub.name.as_str()) && depth < self.max_depth && depth + 1
                < self.max_depth {
                self.pending.push(PendingDir { path: owned(sub.path.as_str()), depth: depth + 1 });
                assert(self.pending_views() =~= before.push((sub.path@, (depth + 1) as usize)));
            }
            assert(self.pending_views() =~= start + descend(
                subdirs@.skip(i as int),
                depth as int,
                self.max_depth as int,
            ));
        }
        assert(subdirs@.skip(0) =~= subdirs@);
    }

    /// The projects found, in the order they were found.
    pub fn into_projects(self) -> (r: Vec<AdkProjectInfo>)
        ensures
            r@ == self.projects@,
    {
        self.projects
    }
}

/// What a directory listing found at one entry.
#[derive(Debug, Clone, Copy, PartialEq, Eq, Structural)]
pub enum EntryKind {
    /// A directory
    Directory,
    /// A regular file of the given size in bytes
    File(u64),
    /// Anything else, or a file whose size could not be read
    Other,
}

/// One entry of a directory listing.
#[derive(Debug)]
pub struct WalkEntry {
    /// Its name within the directory
    pub name: String,
    /// Its path
    pub path: String,
    pub kind: EntryKind,
}

/// `x`, or the largest `u64` when `x` exceeds it.
pub open spec fn capped(x: nat) -> nat {
    if x > u64::MAX {
        u64::MAX as nat
    } else {
        x
    }
}

/// The bytes that an entry adds to a size estimate: a file's size unless its name is passed
/// over.
pub open spec fn entry_bytes(e: WalkEntry) -> nat {
    match e.kind {
        EntryKind::File(n) => if is_skipped_dir_name(e.name@) {
            0
        } else {
            n as nat
        },
        _ => 0,
    }
}

/// `total` with the bytes of `es` added in order, each sum capped at the largest `u64`.
pub open spec fn add_bytes(total: nat, es: Seq<WalkEntry>) -> nat
    decreases es.len(),
{
    if es.len() == 0 {
        total
    } else {
        capped(add_bytes(total, es.drop_last()) + entry_bytes(es.last()))
    }
}

/// The directories among `es` that a size estimate goes into, last first so that the first
/// is visited first.
pub open spec fn walk_dirs(es: Seq<WalkEntry>) -> Seq<Seq<char>>
    decreases es.len(),
{
    if es.len() == 0 {
        seq![]
    } else {
        let rest = walk_dirs(es.skip(1));
        if es[0].kind == EntryKind::Directory && !is_skipped_dir_name(es[0].name@) {
            rest.push(es[0].path@)
        } else {
            rest
        }
    }
}

/// The state of a depth-first size estimate: the directories still to list, the last to be
/// listed first, the bytes counted so far, and the total past which it stops.
pub struct SizeWalk {
    pub pending: Vec<String>,
    pub total: u64,
    pub limit: u64,
}

impl SizeWalk {
    /// The pending directories, as paths.
    pub open spec fn pending_views(&self) -> Seq<Seq<char>> {
        views(self.pending@)
    }

    /// An estimate of the size of the tree under `root` that stops past `limit` bytes.
    pub fn new(root: &str, limit: u64) -> (r: Self)
        ensures
            r.pending_views() == seq![root@],
            r.total == 0,
            r.limit == limit,
    {
        let mut pending: Vec<String> = Vec::new();
        pending.push(owned(root));
        let r = SizeWalk { pending, total: 0, limit };
        assert(r.pending_views() =~= seq![root@]);
        r
    }

    /// The next directory to list, taken off the pending ones; `None` once the total exceeds
    /// the limit or no directory is left.
    pub fn next_directory(&mut self) -> (r: Option<String>)
        ensures
            final(self).total == old(self).total,
            final(self).limit == old(self).limit,
            (old(self).total > old(self).limit || old(self).pending@.len() == 0) ==> r is None
                && final(self).pending@ == old(self).pending@,
            (old(self).total <= old(self).limit && old(self).pending@.len() > 0) ==> r
                == Some(old(self).pending@.last()) && final(self).pending@
                == old(self).pending@.drop_last(),
    {
        if self.total > self.limit {
            return None;
        }
        self.pending.pop()
    }

    /// Takes in the listing of a directory: the sizes of its files are added and its
    /// subdirectories are queued, except entries whose names are passed over.
    pub fn record(&mut self, entries: &Vec<WalkEntry>)
        ensures
            final(self).limit == old(self).limit,
            final(self).total == add_bytes(old(self).total as nat, entries@),
            final(self).pending_views() == old(self).pending_views() + walk_dirs(entries@),
    {
        let ghost t0 = self.total as nat;
        let mut i: usize = 0;
        assert(entries@.take(0) =~= Seq::<WalkEntry>::empty());
        while i < entries.len()
            invariant
                i <= entries@.len(),
                self.limit == old(self).limit,
                self.pending@ == old(self).pending@,
                t0 == old(self).total,
                self.total == add_bytes(t0, entries@.take(i as int)),
            decreases entries@.len() - i,
        {
            assert(entries@.take(i + 1).drop_last() =~= entries@.take(i as int));
            let e = &entries[i];
            if let EntryKind::File(n) = e.kind {
                if !is_skipped_dir(e.name.as_str()) {
                    self.total = add_file_size(self.total, n);
                }
            }
            i += 1;
        }
        assert(entries@.take(entries@.len() as int) =~= entries@);
        let ghost start = self.pending_views();
        let mut k: usize = entries.len();
        assert(entries@.skip(k as int) =~= Seq::<WalkEntry>::empty());
        assert(start + walk_dirs(entries@.skip(k as int)) =~= start);
        while k > 0
            invariant
                k <= entries@.len(),
                self.limit == old(self).limit,
                self.total == add_bytes(t0, entries@),
                start == old(self).pending_views(),
                self.pending_views() == start + walk_dirs(entries@.skip(k as int)),
            decreases k,
        {
            k -= 1;
            assert(entries@.skip(k as int).skip(1) =~= entries@.skip(k as int + 1));
            assert(entries@.skip(k as int)[0] == entries@[k as int]);
            let e = &entries[k];
            let ghost before = self.pending_views();
            if e.kind == EntryKind::Directory && !is_skipped_dir(e.name.as_str()) {
                self.pending.push(owned(e.path.as_str()));
                assert(self.pending_views() =~= before.push(e.path@));
            }
            assert(self.pending_views() =~= start + walk_dirs(entries@.skip(k as int)));
        }
        assert(entries@.skip(0) =~= entries@);
    }
}

} // verus!
