//! Decides whether a file is eligible for further processing, by exclusion patterns, size and
//! name or extension.
use vstd::prelude::*;

use crate::paths::{extension, file_name, file_name_of, lower_extension_of};
use crate::scan::opt_view;
use crate::scan::sub_chars;
use crate::text::{
    chars_of, contains, contains_text, decimal, decimal_text, ends_with, find_from, find_text,
    lemma_find_from, list_has, lowercase, owned, same_text, slice_text, starts_with, str_contains,
    string_list, text_ends_with, text_starts_with, views,
};

verus! {

/// The kind of a file, by name and extension.
#[derive(Debug, Clone, Copy, PartialEq, Eq, Structural)]
pub enum FileType {
    /// Rust source files
    Rust,
    /// Python source files
    Python,
    /// Configuration files (TOML, JSON, YAML)
    Config,
    /// Documentation files
    Documentation,
    /// Environment files
    Environment,
    /// Build and dependency files
    Build,
    /// Anything else
    Unknown,
}

/// What is known of a path on disk when it is validated.
#[derive(Debug, Clone, Copy, PartialEq, Eq, Structural)]
pub enum PathStatus {
    /// Nothing exists at the path.
    Missing,
    /// Something exists at the path but it is not a regular file.
    NotAFile,
    /// A regular file of the given size in bytes.
    File(u64),
}

/// A path to validate, with what was found there or why nothing could be found out.
#[derive(Debug)]
pub struct FileEntry {
    pub path: String,
    pub status: Result<PathStatus, String>,
}

/// The verdict on one file.
#[derive(Debug, Clone)]
pub struct FileValidationResult {
    pub path: String,
    pub is_valid: bool,
    pub file_size: u64,
    pub file_type: FileType,
    pub reason: Option<String>,
}

/// Size bounds, allowed extensions and exclusion patterns for files.
pub struct FileValidator {
    /// Largest size accepted, in bytes
    pub max_file_size: u64,
    /// Smallest size accepted, in bytes
    pub min_file_size: u64,
    /// Accepted extensions, lowercase
    pub allowed_extensions: Vec<String>,
    /// Patterns of excluded paths
    pub excluded_patterns: Vec<String>,
}

/// Counts and sizes over a collection of verdicts.
#[derive(Debug, Clone)]
pub struct FileStatistics {
    pub total_files: usize,
    pub valid_files: usize,
    pub invalid_files: usize,
    pub total_size: u64,
    pub valid_size: u64,
    pub rust_files: usize,
    pub python_files: usize,
    pub config_files: usize,
    pub doc_files: usize,
    pub env_files: usize,
    pub build_files: usize,
    pub unknown_files: usize,
}

/// The text of `pat` before the first `**`, or all of it.
pub open spec fn prefix_before_glob(pat: Seq<char>) -> Seq<char> {
    match find_from(pat, "**"@, 0) {
        Some(k) => pat.take(k),
        None => pat,
    }
}

/// Whether `path` matches the exclusion pattern `pat`: a pattern holding `**` matches any path
/// that contains the text before it, `*.ext` matches a path ending in `ext`, and any other
/// pattern matches a path that contains it.
pub open spec fn pattern_matches(path: Seq<char>, pat: Seq<char>) -> bool {
    if contains_text(pat, "**"@) {
        contains_text(path, prefix_before_glob(pat))
    } else if starts_with(pat, "*."@) {
        ends_with(path, pat.skip(2))
    } else {
        contains_text(path, pat)
    }
}

/// File names accepted whatever their extension.
pub open spec fn always_allowed_name(n: Seq<char>) -> bool {
    n == "Cargo.toml"@ || n == "requirements.txt"@ || n == "setup.py"@ || n == ".env"@ || n
        == ".env.template"@
}

/// The kind of a file with the given name and lowercased extension.
pub open spec fn file_type_for(name: Option<Seq<char>>, ext: Option<Seq<char>>) -> FileType {
    if name matches Some(n) && (n == "Cargo.toml"@ || n == "Cargo.lock"@ || n
        == "requirements.txt"@ || n == "setup.py"@ || n == "pyproject.toml"@) {
        FileType::Build
    } else if name matches Some(n) && (n == ".env"@ || n == ".env.template"@ || n == ".env.local"@
        || n == ".env.production"@) {
        FileType::Environment
    } else if name matches Some(n) && (n == "README.md"@ || n == "CHANGELOG.md"@ || n
        == "LICENSE"@ || n == "CONTRIBUTING.md"@) {
        FileType::Documentation
    } else {
        match ext {
            Some(e) => if e == "rs"@ {
                FileType::Rust
            } else if e == "py"@ || e == "pyi"@ {
                FileType::Python
            } else if e == "toml"@ || e == "json"@ || e == "yaml"@ || e == "yml"@ {
                FileType::Config
            } else if e == "md"@ || e == "rst"@ || e == "txt"@ {
                FileType::Documentation
            } else {
                FileType::Unknown
            },
            None => FileType::Unknown,
        }
    }
}

/// The kind of the file at `path`.
pub open spec fn file_type_of(path: Seq<char>) -> FileType {
    file_type_for(file_name_of(path), lower_extension_of(path))
}

/// The reason given for a file that is too small.
pub open spec fn too_small_reason(size: u64) -> Seq<char> {
    "File too small: "@ + decimal(size as nat) + " bytes"@
}

/// The reason given for a file that is too large.
pub open spec fn too_large_reason(size: u64, max: u64) -> Seq<char> {
    "File too large: "@ + decimal(size as nat) + " bytes (max: "@ + decimal(max as nat) + ")"@
}

/// The reason given for a path whose status could not be found out.
pub open spec fn error_reason(msg: Seq<char>) -> Seq<char> {
    "Validation error: "@ + msg
}

/// Only the valid verdicts of `s`, in order.
pub open spec fn valid_only(s: Seq<FileValidationResult>) -> Seq<FileValidationResult>
    decreases s.len(),
{
    if s.len() == 0 {
        s
    } else if s.last().is_valid {
        valid_only(s.drop_last()).push(s.last())
    } else {
        valid_only(s.drop_last())
    }
}

/// Only the invalid verdicts of `s`, in order.
pub open spec fn invalid_only(s: Seq<FileValidationResult>) -> Seq<FileValidationResult>
    decreases s.len(),
{
    if s.len() == 0 {
        s
    } else if !s.last().is_valid {
        invalid_only(s.drop_last()).push(s.last())
    } else {
        invalid_only(s.drop_last())
    }
}

/// How many verdicts of `s` satisfy `f`.
pub open spec fn count_where(s: Seq<FileValidationResult>, f: spec_fn(FileValidationResult) -> bool) -> nat
    decreases s.len(),
{
    if s.len() == 0 {
        0
    } else {
        count_where(s.drop_last(), f) + if f(s.last()) {
            1nat
        } else {
            0nat
        }
    }
}

/// The summed sizes of the verdicts of `s` that satisfy `f`.
pub open spec fn size_where(s: Seq<FileValidationResult>, f: spec_fn(FileValidationResult) -> bool) -> nat
    decreases s.len(),
{
    if s.len() == 0 {
        0
    } else {
        size_where(s.drop_last(), f) + if f(s.last()) {
            s.last().file_size as nat
        } else {
            0nat
        }
    }
}

/// How many verdicts of `s` are of kind `t`.
pub open spec fn type_count(s: Seq<FileValidationResult>, t: FileType) -> nat {
    count_where(s, |r: FileValidationResult| r.file_type == t)
}

/// The statistics of `s`, field by field.
pub open spec fn statistics_of(st: FileStatistics, s: Seq<FileValidationResult>) -> bool {
    &&& st.total_files == s.len()
    &&& st.valid_files == count_where(s, |r: FileValidationResult| r.is_valid)
    &&& st.invalid_files == count_where(s, |r: FileValidationResult| !r.is_valid)
    &&& st.total_size == size_where(s, |r: FileValidationResult| true)
    &&& st.valid_size == size_where(s, |r: FileValidationResult| r.is_valid)
    &&& st.rust_files == type_count(s, FileType::Rust)
    &&& st.python_files == type_count(s, FileType::Python)
    &&& st.config_files == type_count(s, FileType::Config)
    &&& st.doc_files == type_count(s, FileType::Documentation)
    &&& st.env_files == type_count(s, FileType::Environment)
    &&& st.build_files == type_count(s, FileType::Build)
    &&& st.unknown_files == type_count(s, FileType::Unknown)
}

impl FileValidationResult {
    /// The verdict on a path whose status could not be found out.
    pub open spec fn is_error_verdict(self, path: Seq<char>, msg: Seq<char>) -> bool {
        &&& self.path@ == path
        &&& !self.is_valid
        &&& self.file_size == 0
        &&& self.file_type == FileType::Unknown
        &&& opt_view(self.reason) == Some(error_reason(msg))
    }
}

impl FileValidator {
    /// `path` matches one of the exclusion patterns.
    pub open spec fn excludes(&self, path: Seq<char>) -> bool {
        exists|i: int|
            0 <= i < self.excluded_patterns@.len() && pattern_matches(
                path,
                #[trigger] self.excluded_patterns@[i]@,
            )
    }

    /// The name or the extension of `path` is accepted.
    pub open spec fn allows_type(&self, path: Seq<char>) -> bool {
        (file_name_of(path) matches Some(n) && always_allowed_name(n)) || (lower_extension_of(
            path,
        ) matches Some(e) && views(self.allowed_extensions@).contains(e))
    }

    /// Why a file of `size` bytes at `path` is rejected, checking in turn exclusion, the
    /// smallest size, the largest size and the kind of file; `None` when it is accepted.
    pub open spec fn rejection(&self, path: Seq<char>, size: u64) -> Option<Seq<char>> {
        if self.excludes(path) {
            Some("File matches excluded pattern"@)
        } else if size < self.min_file_size {
            Some(too_small_reason(size))
        } else if size > self.max_file_size {
            Some(too_large_reason(size, self.max_file_size))
        } else if !self.allows_type(path) {
            Some("File type not allowed"@)
        } else {
            None
        }
    }

    /// `r` is the verdict on `path` with the given status.
    pub open spec fn is_verdict(&self, r: FileValidationResult, path: Seq<char>, status: PathStatus) -> bool {
        &&& r.path@ == path
        &&& match status {
            PathStatus::Missing => !r.is_valid && r.file_size == 0 && r.file_type == FileType::Unknown
                && opt_view(r.reason) == Some("File does not exist"@),
            PathStatus::NotAFile => !r.is_valid && r.file_size == 0 && r.file_type
                == FileType::Unknown && opt_view(r.reason) == Some("Path is not a file"@),
            PathStatus::File(size) => r.file_size == size && r.file_type == file_type_of(path)
                && opt_view(r.reason) == self.rejection(path, size) && r.is_valid
                == (self.rejection(path, size) is None),
        }
    }

    /// The lists and bounds every validator starts from.
    pub open spec fn has_default_lists(&self) -> bool {
        &&& views(self.allowed_extensions@) == seq![
            "rs"@,
            "py"@,
            "pyi"@,
            "toml"@,
            "json"@,
            "yaml"@,
            "yml"@,
            "md"@,
            "rst"@,
            "txt"@,
        ]
        &&& self.has_default_exclusions()
    }

    /// The exclusion patterns every validator has.
    pub open spec fn has_default_exclusions(&self) -> bool {
        views(self.excluded_patterns@) == seq![
            "target/**"@,
            "build/**"@,
            "dist/**"@,
            "node_modules/**"@,
            ".venv/**"@,
            "__pycache__/**"@,
            ".git/**"@,
            ".svn/**"@,
            ".vscode/**"@,
            ".idea/**"@,
            "*.tmp"@,
            "*.temp"@,
            "*.log"@,
            "*.bak"@,
        ]
    }
}

impl Default for FileValidator {
    /// Up to 50 MiB, at least one byte, the common source, configuration and documentation
    /// extensions, and the usual build, dependency, version-control, editor and temporary
    /// patterns excluded.
    fn default() -> (r: Self)
        ensures
            r.max_file_size == 50 * 1024 * 1024,
            r.min_file_size == 1,
            r.has_default_lists(),
    {
        let r = FileValidator {
            max_file_size: 50 * 1024 * 1024,
            min_file_size: 1,
            allowed_extensions: string_list(
                &["rs", "py", "pyi", "toml", "json", "yaml", "yml", "md", "rst", "txt"],
            ),
            excluded_patterns: default_exclusions(),
        };
        assert(views(r.allowed_extensions@) =~= seq![
            "rs"@,
            "py"@,
            "pyi"@,
            "toml"@,
            "json"@,
            "yaml"@,
            "yml"@,
            "md"@,
            "rst"@,
            "txt"@,
        ]);
        r
    }
}

/// The exclusion patterns every validator has.
fn default_exclusions() -> (r: Vec<String>)
    ensures
        views(r@) == seq![
            "target/**"@,
            "build/**"@,
            "dist/**"@,
            "node_modules/**"@,
            ".venv/**"@,
            "__pycache__/**"@,
            ".git/**"@,
            ".svn/**"@,
            ".vscode/**"@,
            ".idea/**"@,
            "*.tmp"@,
            "*.temp"@,
            "*.log"@,
            "*.bak"@,
        ],
{
    let r = string_list(
        &[
            "target/**",
            "build/**",
            "dist/**",
            "node_modules/**",
            ".venv/**",
            "__pycache__/**",
            ".git/**",
            ".svn/**",
            ".vscode/**",
            ".idea/**",
            "*.tmp",
            "*.temp",
            "*.log",
            "*.bak",
        ],
    );
    assert(views(r@) =~= seq![
        "target/**"@,
        "build/**"@,
        "dist/**"@,
        "node_modules/**"@,
        ".venv/**"@,
        "__pycache__/**"@,
        ".git/**"@,
        ".svn/**"@,
        ".vscode/**"@,
        ".idea/**"@,
        "*.tmp"@,
        "*.temp"@,
        "*.log"@,
        "*.bak"@,
    ]);
    r
}

impl FileStatistics {
    /// The mean size of the files counted, rounded down; zero when none are.
    pub fn average_file_size(&self) -> (r: u64)
        ensures
            r == if self.total_files == 0 {
                0
            } else {
                self.total_size / (self.total_files as u64)
            },
    {
        if self.total_files == 0 {
            0
        } else {
            self.total_size / self.total_files as u64
        }
    }
}

impl Default for FileStatistics {
    /// All counts and sizes zero.
    fn default() -> (r: Self)
        ensures
            statistics_of(r, Seq::empty()),
    {
        FileStatistics {
            total_files: 0,
            valid_files: 0,
            invalid_files: 0,
            total_size: 0,
            valid_size: 0,
            rust_files: 0,
            python_files: 0,
            config_files: 0,
            doc_files: 0,
            env_files: 0,
            build_files: 0,
            unknown_files: 0,
        }
    }
}

impl FileValidator {
    /// A validator with the given bounds and the default lists.
    pub fn new(max_file_size: u64, min_file_size: u64) -> (r: Self)
        ensures
            r.max_file_size == max_file_size,
            r.min_file_size == min_file_size,
            r.has_default_lists(),
    {
        let mut r = Self::default();
        r.max_file_size = max_file_size;
        r.min_file_size = min_file_size;
        r
    }

    /// A validator for code review: Rust and Python sources from 10 bytes up to 1 MiB.
    pub fn for_code_review() -> (r: Self)
        ensures
            r.max_file_size == 1024 * 1024,
            r.min_file_size == 10,
            views(r.allowed_extensions@) == seq!["rs"@, "py"@],
            r.has_default_exclusions(),
    {
        let r = FileValidator {
            max_file_size: 1024 * 1024,
            min_file_size: 10,
            allowed_extensions: string_list(&["rs", "py"]),
            excluded_patterns: default_exclusions(),
        };
        assert(views(r.allowed_extensions@) =~= seq!["rs"@, "py"@]);
        r
    }

    /// A validator for configuration files: TOML, JSON and YAML from 1 byte up to 10 KiB.
    pub fn for_config_files() -> (r: Self)
        ensures
            r.max_file_size == 10 * 1024,
            r.min_file_size == 1,
            views(r.allowed_extensions@) == seq!["toml"@, "json"@, "yaml"@, "yml"@],
            r.has_default_exclusions(),
    {
        let r = FileValidator {
            max_file_size: 10 * 1024,
            min_file_size: 1,
            allowed_extensions: string_list(&["toml", "json", "yaml", "yml"]),
            excluded_patterns: default_exclusions(),
        };
        assert(views(r.allowed_extensions@) =~= seq!["toml"@, "json"@, "yaml"@, "yml"@]);
        r
    }
}

/// The kind of a file with the given name and lowercased extension.
pub fn file_type_from_parts(file_name: &Option<String>, lower_extension: &Option<String>) -> (r:
    FileType)
    ensures
        r == file_type_for(opt_view(*file_name), opt_view(*lower_extension)),
{
    if let Some(n) = file_name {
        let n = n.as_str();
        if same_text(n, "Cargo.toml") || same_text(n, "Cargo.lock") || same_text(
            n,
            "requirements.txt",
        ) || same_text(n, "setup.py") || same_text(n, "pyproject.toml") {
            return FileType::Build;
        }
        if same_text(n, ".env") || same_text(n, ".env.template") || same_text(n, ".env.local")
            || same_text(n, ".env.production") {
            return FileType::Environment;
        }
        if same_text(n, "README.md") || same_text(n, "CHANGELOG.md") || same_text(n, "LICENSE")
            || same_text(n, "CONTRIBUTING.md") {
            return FileType::Documentation;
        }
    }
    match lower_extension {
        Some(e) => {
            let e = e.as_str();
            if same_text(e, "rs") {
                FileType::Rust
            } else if same_text(e, "py") || same_text(e, "pyi") {
                FileType::Python
            } else if same_text(e, "toml") || same_text(e, "json") || same_text(e, "yaml")
                || same_text(e, "yml") {
                FileType::Config
            } else if same_text(e, "md") || same_text(e, "rst") || same_text(e, "txt") {
                FileType::Documentation
            } else {
                FileType::Unknown
            }
        },
        None => FileType::Unknown,
    }
}

/// The extension of `path`, lowercased.
fn lower_extension(path: &str) -> (r: Option<String>)
    ensures
        opt_view(r) == lower_extension_of(path@),
{
    match extension(path) {
        Some(e) => Some(lowercase(e.as_str())),
        None => None,
    }
}

impl FileValidator {
    /// Whether `path` matches the exclusion pattern `pattern`.
    pub fn matches_pattern(&self, path: &str, pattern: &str) -> (r: bool)
        ensures
            r == pattern_matches(path@, pattern@),
    {
        let pc = chars_of(pattern);
        let glob = chars_of("**");
        if contains(&pc, &glob) {
            let prefix = match find_text(&pc, &glob, 0) {
                Some(k) => {
                    proof {
                        lemma_find_from(pc@, glob@, 0);
                    }
                    let v = sub_chars(&pc, 0, k);
                    assert(v@ =~= pc@.take(k as int));
                    v
                },
                None => pc,
            };
            contains(&chars_of(path), &prefix)
        } else if text_starts_with(pattern, "*.") {
            proof {
                reveal_strlit("*.");
            }
            let rest = slice_text(pattern, 2, pc.len());
            assert(rest@ =~= pattern@.skip(2));
            text_ends_with(path, rest.as_str())
        } else {
            str_contains(path, pattern)
        }
    }

    /// The kind of the file at `path`: by exact name first, then by lowercased extension.
    pub fn determine_file_type(&self, path: &str) -> (r: FileType)
        ensures
            r == file_type_of(path@),
    {
        file_type_from_parts(&file_name(path), &lower_extension(path))
    }

    /// Whether a file with the given name and lowercased extension is of an accepted kind.
    pub fn allows_parts(&self, file_name: &Option<String>, lower_extension: &Option<String>) -> (r:
        bool)
        ensures
            r == ((opt_view(*file_name) matches Some(n) && always_allowed_name(n)) || (opt_view(
                *lower_extension,
            ) matches Some(e) && views(self.allowed_extensions@).contains(e))),
    {
        if let Some(n) = file_name {
            let n = n.as_str();
            if same_text(n, "Cargo.toml") || same_text(n, "requirements.txt") || same_text(
                n,
                "setup.py",
            ) || same_text(n, ".env") || same_text(n, ".env.template") {
                return true;
            }
        }
        match lower_extension {
            Some(e) => list_has(&self.allowed_extensions, e.as_str()),
            None => false,
        }
    }

    /// Whether the name or the extension of `path` is accepted.
    pub fn is_allowed_file_type(&self, path: &str) -> (r: bool)
        ensures
            r == self.allows_type(path@),
    {
        self.allows_parts(&file_name(path), &lower_extension(path))
    }

    /// Whether `path` matches one of the exclusion patterns.
    pub fn is_excluded_file(&self, path: &str) -> (r: bool)
        ensures
            r == self.excludes(path@),
    {
        let mut i: usize = 0;
        while i < self.excluded_patterns.len()
            invariant
                i <= self.excluded_patterns@.len(),
                forall|j: int|
                    0 <= j < i ==> !pattern_matches(path@, #[trigger] self.excluded_patterns@[j]@),
            decreases self.excluded_patterns@.len() - i,
        {
            if self.matches_pattern(path, self.excluded_patterns[i].as_str()) {
                return true;
            }
            i += 1;
        }
        false
    }
}

/// The name of the `k`-th binary size unit.
pub open spec fn unit_name(k: nat) -> Seq<char> {
    if k == 0 {
        "B"@
    } else if k == 1 {
        "KB"@
    } else if k == 2 {
        "MB"@
    } else {
        "GB"@
    }
}

/// The largest unit, up to gibibytes, that `size` bytes reach.
pub open spec fn unit_exponent(size: nat) -> nat {
    if size < 1024 {
        0
    } else if size < 1024 * 1024 {
        1
    } else if size < 1024 * 1024 * 1024 {
        2
    } else {
        3
    }
}

/// The number of bytes in the `k`-th binary size unit.
pub open spec fn unit_bytes(k: nat) -> nat {
    if k == 0 {
        1
    } else if k == 1 {
        1024
    } else if k == 2 {
        1024 * 1024
    } else {
        1024 * 1024 * 1024
    }
}

/// `size / d` in tenths, rounded to the nearest tenth, ties to the even tenth.
pub open spec fn rounded_tenths(size: nat, d: nat) -> nat
    recommends
        d > 0,
{
    let q = (size * 10) / d;
    let r = (size * 10) % d;
    if 2 * r > d || (2 * r == d && q % 2 == 1) {
        q + 1
    } else {
        q
    }
}

/// `size` bytes in the largest binary unit it reaches: whole bytes as `500 B`, larger units
/// with one decimal place as `1.5 KB`.
pub open spec fn size_text(size: u64) -> Seq<char> {
    let k = unit_exponent(size as nat);
    if k == 0 {
        decimal(size as nat) + " B"@
    } else {
        let t = rounded_tenths(size as nat, unit_bytes(k));
        decimal(t / 10) + "."@ + decimal(t % 10) + " "@ + unit_name(k)
    }
}

/// The text of a size in bytes.
fn too_small_text(size: u64) -> (r: String)
    ensures
        r@ == too_small_reason(size),
{
    owned("File too small: ").concat(decimal_text(size).as_str()).concat(" bytes")
}

/// The text of a size above the largest accepted.
fn too_large_text(size: u64, max: u64) -> (r: String)
    ensures
        r@ == too_large_reason(size, max),
{
    owned("File too large: ").concat(decimal_text(size).as_str()).concat(" bytes (max: ").concat(
        decimal_text(max).as_str(),
    ).concat(")")
}

/// Formats `size` bytes for people to read, in binary units up to gibibytes.
pub fn format_size(size: u64) -> (r: String)
    ensures
        r@ == size_text(size),
{
    let (k, d, unit): (u64, u128, &str) = if size < 1024 {
        (0, 1, "B")
    } else if size < 1024 * 1024 {
        (1, 1024, "KB")
    } else if size < 1024 * 1024 * 1024 {
        (2, 1024 * 1024, "MB")
    } else {
        (3, 1024 * 1024 * 1024, "GB")
    };
    if k == 0 {
        return decimal_text(size).concat(" B");
    }
    let n: u128 = size as u128 * 10;
    let q: u128 = n / d;
    let rm: u128 = n % d;
    let t: u128 = if 2 * rm > d || (2 * rm == d && q % 2 == 1) {
        q + 1
    } else {
        q
    };
    assert(t / 10 <= size) by (nonlinear_arith)
        requires
            q == n / d,
            n == size * 10,
            d >= 1024,
            t <= q + 1,
            size >= 1024,
    ;
    let whole = (t / 10) as u64;
    let tenth = (t % 10) as u64;
    decimal_text(whole).concat(".").concat(decimal_text(tenth).as_str()).concat(" ").concat(unit)
}

impl FileValidator {
    /// The verdict on `path` with the given status: a missing path or one that is not a file
    /// is rejected as such; a file is rejected, in this order, when it matches an exclusion
    /// pattern, is smaller than the smallest size, is larger than the largest size or is of a
    /// kind not accepted; otherwise it is valid.
    pub fn validate_file(&self, path: &str, status: PathStatus) -> (r: FileValidationResult)
        ensures
            self.is_verdict(r, path@, status),
            r.is_valid == (r.reason is None),
    {
        match status {
            PathStatus::Missing => FileValidationResult {
                path: owned(path),
                is_valid: false,
                file_size: 0,
                file_type: FileType::Unknown,
                reason: Some(owned("File does not exist")),
            },
            PathStatus::NotAFile => FileValidationResult {
                path: owned(path),
                is_valid: false,
                file_size: 0,
                file_type: FileType::Unknown,
                reason: Some(owned("Path is not a file")),
            },
            PathStatus::File(size) => {
                let file_type = self.determine_file_type(path);
                let reason = if self.is_excluded_file(path) {
                    Some(owned("File matches excluded pattern"))
                } else if size < self.min_file_size {
                    Some(too_small_text(size))
                } else if size > self.max_file_size {
                    Some(too_large_text(size, self.max_file_size))
                } else if !self.is_allowed_file_type(path) {
                    Some(owned("File type not allowed"))
                } else {
                    None
                };
                FileValidationResult {
                    path: owned(path),
                    is_valid: reason.is_none(),
                    file_size: size,
                    file_type,
                    reason,
                }
            },
        }
    }

    /// The verdicts on `entries`, in order; an entry whose status could not be found out gets
    /// an invalid verdict that carries the error.
    pub fn validate_files(&self, entries: &Vec<FileEntry>) -> (r: Vec<FileValidationResult>)
        ensures
            r@.len() == entries@.len(),
            forall|i: int|
                0 <= i < r@.len() ==> match (#[trigger] entries@[i]).status {
                    Ok(st) => self.is_verdict(r@[i], entries@[i].path@, st),
                    Err(msg) => r@[i].is_error_verdict(entries@[i].path@, msg@),
                },
    {
        let mut results: Vec<FileValidationResult> = Vec::new();
        let mut i: usize = 0;
        while i < entries.len()
            invariant
                i <= entries@.len(),
                results@.len() == i,
                forall|j: int|
                    0 <= j < i ==> match (#[trigger] entries@[j]).status {
                        Ok(st) => self.is_verdict(results@[j], entries@[j].path@, st),
                        Err(msg) => results@[j].is_error_verdict(entries@[j].path@, msg@),
                    },
            decreases entries@.len() - i,
        {
            let entry = &entries[i];
            let r = match &entry.status {
                Ok(st) => self.validate_file(entry.path.as_str(), *st),
                Err(msg) => FileValidationResult {
                    path: owned(entry.path.as_str()),
                    is_valid: false,
                    file_size: 0,
                    file_type: FileType::Unknown,
                    reason: Some(owned("Validation error: ").concat(msg.as_str())),
                },
            };
            results.push(r);
            i += 1;
        }
        results
    }

    /// The valid verdicts among `results`, in order.
    pub fn get_valid_files(results: &[FileValidationResult]) -> (r: Vec<&FileValidationResult>)
        ensures
            r@.map_values(|x: &FileValidationResult| *x) == valid_only(results@),
    {
        let mut out: Vec<&FileValidationResult> = Vec::new();
        let mut i: usize = 0;
        while i < results.len()
            invariant
                i <= results@.len(),
                out@.map_values(|x: &FileValidationResult| *x) == valid_only(results@.take(i as int)),
            decreases results@.len() - i,
        {
            assert(results@.take(i + 1).drop_last() =~= results@.take(i as int));
            if results[i].is_valid {
                out.push(&results[i]);
            }
            i += 1;
            assert(out@.map_values(|x: &FileValidationResult| *x) =~= valid_only(results@.take(i as int)));
        }
        assert(results@.take(results@.len() as int) =~= results@);
        out
    }

    /// The invalid verdicts among `results`, in order.
    pub fn get_invalid_files(results: &[FileValidationResult]) -> (r: Vec<&FileValidationResult>)
        ensures
            r@.map_values(|x: &FileValidationResult| *x) == invalid_only(results@),
    {
        let mut out: Vec<&FileValidationResult> = Vec::new();
        let mut i: usize = 0;
        while i < results.len()
            invariant
                i <= results@.len(),
                out@.map_values(|x: &FileValidationResult| *x) == invalid_only(results@.take(i as int)),
            decreases results@.len() - i,
        {
            assert(results@.take(i + 1).drop_last() =~= results@.take(i as int));
            if !results[i].is_valid {
                out.push(&results[i]);
            }
            i += 1;
            assert(out@.map_values(|x: &FileValidationResult| *x) =~= invalid_only(results@.take(i as int)));
        }
        assert(results@.take(results@.len() as int) =~= results@);
        out
    }

    /// Formats `size` bytes for people to read, in binary units up to gibibytes.
    pub fn format_file_size(size: u64) -> (r: String)
        ensures
            r@ == size_text(size),
    {
        format_size(size)
    }

    /// Whether the file at `path` suits a code review: it is valid, a Rust or Python source,
    /// and at most 100 KiB.
    pub fn is_suitable_for_review(&self, path: &str, status: PathStatus) -> (r: bool)
        ensures
            r == (status matches PathStatus::File(size) && self.rejection(path@, size) is None && (
            file_type_of(path@) == FileType::Rust || file_type_of(path@) == FileType::Python)
                && size <= 100 * 1024),
    {
        let result = self.validate_file(path, status);
        if !result.is_valid {
            return false;
        }
        match result.file_type {
            FileType::Rust | FileType::Python => result.file_size <= 100 * 1024,
            _ => false,
        }
    }
}

/// Counting one more verdict adds its share to each count and size.
proof fn lemma_counts_step(s: Seq<FileValidationResult>, i: int)
    requires
        0 <= i < s.len(),
    ensures
        forall|f: spec_fn(FileValidationResult) -> bool|
            #[trigger] count_where(s.take(i + 1), f) == count_where(s.take(i), f) + if f(s[i]) {
                1nat
            } else {
                0nat
            },
        forall|f: spec_fn(FileValidationResult) -> bool|
            #[trigger] size_where(s.take(i + 1), f) == size_where(s.take(i), f) + if f(s[i]) {
                s[i].file_size as nat
            } else {
                0nat
            },
{
    assert(s.take(i + 1).drop_last() =~= s.take(i));
}

/// A sum over a prefix never exceeds the sum over the whole.
proof fn lemma_size_prefix(s: Seq<FileValidationResult>, i: int, f: spec_fn(FileValidationResult) -> bool)
    requires
        0 <= i <= s.len(),
    ensures
        size_where(s.take(i), f) <= size_where(s, f),
    decreases s.len() - i,
{
    if i < s.len() {
        lemma_counts_step(s, i);
        lemma_size_prefix(s, i + 1, f);
    } else {
        assert(s.take(i) =~= s);
    }
}

/// The valid sizes never exceed all sizes.
proof fn lemma_valid_size_le(s: Seq<FileValidationResult>)
    ensures
        size_where(s, |r: FileValidationResult| r.is_valid) <= size_where(
            s,
            |r: FileValidationResult| true,
        ),
    decreases s.len(),
{
    if s.len() > 0 {
        lemma_valid_size_le(s.drop_last());
    }
}

/// A count never exceeds the number of verdicts.
proof fn lemma_count_le(s: Seq<FileValidationResult>, f: spec_fn(FileValidationResult) -> bool)
    ensures
        count_where(s, f) <= s.len(),
    decreases s.len(),
{
    if s.len() > 0 {
        lemma_count_le(s.drop_last(), f);
    }
}

impl FileValidator {
    /// Counts and sizes of `results`: all, valid, invalid, and by kind of file.
    pub fn get_file_statistics(results: &[FileValidationResult]) -> (r: FileStatistics)
        requires
            size_where(results@, |r: FileValidationResult| true) <= u64::MAX,
        ensures
            statistics_of(r, results@),
    {
        let mut st = FileStatistics::default();
        let ghost s = results@;
        let mut i: usize = 0;
        assert(s.take(0) =~= Seq::<FileValidationResult>::empty());
        while i < results.len()
            invariant
                i <= s.len(),
                s == results@,
                size_where(s, |r: FileValidationResult| true) <= u64::MAX,
                statistics_of(st, s.take(i as int)),
            decreases s.len() - i,
        {
            proof {
                lemma_counts_step(s, i as int);
                lemma_size_prefix(s, i as int + 1, |r: FileValidationResult| true);
                lemma_valid_size_le(s.take(i as int + 1));
                lemma_count_le(s.take(i as int + 1), |r: FileValidationResult| r.is_valid);
                lemma_count_le(s.take(i as int + 1), |r: FileValidationResult| !r.is_valid);
                lemma_count_le(s.take(i as int + 1), |r: FileValidationResult| r.file_type == FileType::Rust);
                lemma_count_le(s.take(i as int + 1), |r: FileValidationResult| r.file_type == FileType::Python);
                lemma_count_le(s.take(i as int + 1), |r: FileValidationResult| r.file_type == FileType::Config);
                lemma_count_le(s.take(i as int + 1), |r: FileValidationResult| r.file_type == FileType::Documentation);
                lemma_count_le(s.take(i as int + 1), |r: FileValidationResult| r.file_type == FileType::Environment);
                lemma_count_le(s.take(i as int + 1), |r: FileValidationResult| r.file_type == FileType::Build);
                lemma_count_le(s.take(i as int + 1), |r: FileValidationResult| r.file_type == FileType::Unknown);
            }
            let r = &results[i];
            st.total_files += 1;
            st.total_size += r.file_size;
            if r.is_valid {
                st.valid_files += 1;
                st.valid_size += r.file_size;
            } else {
                st.invalid_files += 1;
            }
            match r.file_type {
                FileType::Rust => st.rust_files += 1,
                FileType::Python => st.python_files += 1,
                FileType::Config => st.config_files += 1,
                FileType::Documentation => st.doc_files += 1,
                FileType::Environment => st.env_files += 1,
                FileType::Build => st.build_files += 1,
                FileType::Unknown => st.unknown_files += 1,
            }
            i += 1;
        }
        assert(s.take(s.len() as int) =~= s);
        st
    }
}

/// A file is valid exactly when it matches no exclusion pattern, its size lies between the
/// smallest and the largest size (both included) and its kind is accepted. When a constraint is
/// broken the reason names it, and exclusion is reported before any size bound.
pub proof fn lemma_validity_constraints(v: &FileValidator, path: Seq<char>, size: u64)
    ensures
        v.rejection(path, size) is None <==> (!v.excludes(path) && v.min_file_size <= size
            <= v.max_file_size && v.allows_type(path)),
        v.excludes(path) ==> v.rejection(path, size) == Some("File matches excluded pattern"@),
        !v.excludes(path) && size < v.min_file_size ==> v.rejection(path, size) == Some(
            too_small_reason(size),
        ),
        !v.excludes(path) && v.min_file_size <= size && size > v.max_file_size ==> v.rejection(
            path,
            size,
        ) == Some(too_large_reason(size, v.max_file_size)),
        !v.excludes(path) && v.min_file_size <= size <= v.max_file_size && !v.allows_type(path)
            ==> v.rejection(path, size) == Some("File type not allowed"@),
{
}

} // verus!
