use vstd::prelude::*;

use crate::paths::{
    extension_of, is_absolute_path, join_path, joined_path, path_extension, path_has_prefix,
    path_is_absolute, path_starts_with,
};
use crate::phase::{phase_order, Phase};
use crate::text::{
    chars_of, collapse_double_star, collapse_double_star_of, concat, decimal, decimal_of, owned,
    seq_has_text, texts, vec_has_text,
};
use crate::types::{capability_flags, PluginCapabilities};

verus! {

/// A compiled glob pattern (the `glob` crate's `Pattern`).
#[verifier::external_type_specification]
#[verifier::external_body]
pub struct ExGlobPattern(glob::Pattern);

/// The error the `glob` crate reports for a pattern it cannot compile.
#[verifier::external_type_specification]
#[verifier::external_body]
pub struct ExGlobPatternError(glob::PatternError);

/// Whether `glob::Pattern::new` accepts the pattern text.
pub uninterp spec fn glob_accepts(pattern: Seq<char>) -> bool;

/// Whether the compiled form of the pattern text matches the text
/// (`glob::Pattern::matches`, default options).
pub uninterp spec fn glob_matches(pattern: Seq<char>, text: Seq<char>) -> bool;

/// A glob pattern together with the text it was compiled from.
pub struct CompiledGlob {
    source: String,
    pattern: glob::Pattern,
}

impl CompiledGlob {
    /// The text the pattern was compiled from.
    pub closed spec fn source(&self) -> Seq<char> {
        self.source@
    }
}

/// `glob::Pattern::new`: compile a pattern. The contract claims that the
/// outcome is the one named by `glob_accepts` for the text, and that a
/// compiled pattern keeps the text it came from. What `glob` accepts is not
/// stated (the crate's grammar; its `**` check uses the target's path
/// separators).
#[verifier::external_body]
fn compile_glob(pattern: &str) -> (r: Result<CompiledGlob, glob::PatternError>)
    ensures
        r is Ok == glob_accepts(pattern@),
        r matches Ok(g) ==> g.source() == pattern@,
{
    match glob::Pattern::new(pattern) {
        Ok(p) => Ok(CompiledGlob { source: pattern.to_string(), pattern: p }),
        Err(e) => Err(e),
    }
}

/// `glob::Pattern::matches`: whether a compiled pattern matches a text. The
/// answer is named by `glob_matches` over the pattern's source text and the
/// text; the matching rules themselves are not stated.
#[verifier::external_body]
fn glob_match(g: &CompiledGlob, text: &str) -> (r: bool)
    ensures
        r == glob_matches(g.source(), text@),
{
    g.pattern.matches(text)
}

/// A path matches a denied pattern when the pattern, with each `**`
/// collapsed to `*`, compiles and matches the path's text.
pub open spec fn path_matches_pattern(path: Seq<char>, pattern: Seq<char>) -> bool {
    let p = collapse_double_star(pattern);
    glob_accepts(p) && glob_matches(p, path)
}

/// A point in time from the system clock, carried without being read.
#[verifier::external_type_specification]
#[verifier::external_body]
pub struct ExSystemTime(std::time::SystemTime);

/// Configuration of the filesystem plugin.
#[derive(Debug, Clone)]
pub struct FilesystemConfig {
    /// Base directory for operations (relative to working dir)
    pub base_dir: Option<String>,
    /// Allow reading files
    pub allow_read: bool,
    /// Allow writing files
    pub allow_write: bool,
    /// Allow listing directories
    pub allow_list: bool,
    /// Allow creating directories
    pub allow_mkdir: bool,
    /// Maximum file size to read (bytes)
    pub max_file_size: usize,
    /// Allowed file extensions (empty = all)
    pub allowed_extensions: Vec<String>,
    /// Denied paths (glob patterns)
    pub denied_paths: Vec<String>,
}

/// The path patterns the default configuration denies.
pub open spec fn default_denied_paths() -> Seq<Seq<char>> {
    seq!["**/.git/**"@, "**/node_modules/**"@, "**/target/**"@, "**/*.secret"@, "**/*.key"@]
}

impl Default for FilesystemConfig {
    fn default() -> (r: Self)
        ensures
            r.base_dir is None,
            r.allow_read && r.allow_write && r.allow_list && r.allow_mkdir,
            r.max_file_size == 10 * 1024 * 1024,
            r.allowed_extensions@.len() == 0,
            texts(r.denied_paths@) == default_denied_paths(),
    {
        let denied_paths = vec![
            "**/.git/**".to_string(),
            "**/node_modules/**".to_string(),
            "**/target/**".to_string(),
            "**/*.secret".to_string(),
            "**/*.key".to_string(),
        ];
        assert(texts(denied_paths@) =~= default_denied_paths());
        FilesystemConfig {
            base_dir: None,
            allow_read: true,
            allow_write: true,
            allow_list: true,
            allow_mkdir: true,
            max_file_size: 10 * 1024 * 1024,
            allowed_extensions: Vec::new(),
            denied_paths,
        }
    }
}

/// A filesystem operation that the configuration may switch off.
#[derive(Debug, Clone, Copy, PartialEq, Eq, Structural)]
pub enum FsOperation {
    Read,
    Write,
    List,
    CreateDir,
}

/// Why the filesystem plugin refused an operation.
#[derive(Debug, Clone)]
pub enum FsError {
    /// The operation is switched off in the configuration
    NotAllowed(FsOperation),
    /// The resolved path leaves the base directory
    PathTraversal(String),
    /// The resolved path matches this denied pattern
    DeniedPattern(String),
    /// No file at the path
    FileNotFound(String),
    /// The path is not a regular file
    NotAFile(String),
    /// No directory at the path
    DirectoryNotFound(String),
    /// The path is not a directory
    NotADirectory(String),
    /// The file is larger than the maximum
    TooLarge { size: u64, max: usize },
    /// The file's extension is not on the allowed list
    ExtensionNotAllowed(String),
}

impl FsError {
    /// The message of the error.
    pub fn message(&self) -> (r: String)
        ensures
            self == (FsError::NotAllowed(FsOperation::Read)) ==> r@ == "File reading not allowed"@,
            self == (FsError::NotAllowed(FsOperation::Write)) ==> r@ == "File writing not allowed"@,
            self == (FsError::NotAllowed(FsOperation::List)) ==> r@
                == "Directory listing not allowed"@,
            self == (FsError::NotAllowed(FsOperation::CreateDir)) ==> r@
                == "Directory creation not allowed"@,
            self matches FsError::PathTraversal(p) ==> r@ == "Path traversal attempt detected: "@
                + p@,
            self matches FsError::DeniedPattern(p) ==> r@ == "Path matches denied pattern: "@
                + p@,
            self matches FsError::FileNotFound(p) ==> r@ == "File not found: "@ + p@,
            self matches FsError::NotAFile(p) ==> r@ == "Not a file: "@ + p@,
            self matches FsError::DirectoryNotFound(p) ==> r@ == "Directory not found: "@ + p@,
            self matches FsError::NotADirectory(p) ==> r@ == "Not a directory: "@ + p@,
            self matches FsError::TooLarge { size, max } ==> r@ == "File too large: "@ + decimal(
                size as nat,
            ) + " bytes (max: "@ + decimal(max as nat) + ")"@,
            self matches FsError::ExtensionNotAllowed(p) ==> r@ == "File extension not allowed: "@
                + p@,
    {
        match self {
            FsError::NotAllowed(FsOperation::Read) => owned("File reading not allowed"),
            FsError::NotAllowed(FsOperation::Write) => owned("File writing not allowed"),
            FsError::NotAllowed(FsOperation::List) => owned("Directory listing not allowed"),
            FsError::NotAllowed(FsOperation::CreateDir) => owned("Directory creation not allowed"),
            FsError::PathTraversal(p) => concat("Path traversal attempt detected: ", p.as_str()),
            FsError::DeniedPattern(p) => concat("Path matches denied pattern: ", p.as_str()),
            FsError::FileNotFound(p) => concat("File not found: ", p.as_str()),
            FsError::NotAFile(p) => concat("Not a file: ", p.as_str()),
            FsError::DirectoryNotFound(p) => concat("Directory not found: ", p.as_str()),
            FsError::NotADirectory(p) => concat("Not a directory: ", p.as_str()),
            FsError::TooLarge { size, max } => {
                let mut r = owned("File too large: ");
                let a = decimal_of(*size);
                r.append(a.as_str());
                r.append(" bytes (max: ");
                let b = decimal_of(*max as u64);
                r.append(b.as_str());
                r.append(")");
                r
            },
            FsError::ExtensionNotAllowed(p) => concat("File extension not allowed: ", p.as_str()),
        }
    }
}

/// Whether the configuration lets the operation run.
pub open spec fn operation_enabled(config: FilesystemConfig, op: FsOperation) -> bool {
    match op {
        FsOperation::Read => config.allow_read,
        FsOperation::Write => config.allow_write,
        FsOperation::List => config.allow_list,
        FsOperation::CreateDir => config.allow_mkdir,
    }
}

/// A file's extension is allowed when no allow list is given, or when the
/// file has an extension that is on the list.
pub open spec fn extension_allowed(config: FilesystemConfig, path: Seq<char>) -> bool {
    config.allowed_extensions@.len() == 0 || match path_extension(path) {
        Some(e) => seq_has_text(config.allowed_extensions@, e),
        None => false,
    }
}

/// An empty list of allowed extensions allows every file; otherwise a file
/// without an extension is refused.
pub proof fn lemma_extension_rules(config: FilesystemConfig, path: Seq<char>)
    ensures
        config.allowed_extensions@.len() == 0 ==> extension_allowed(config, path),
        config.allowed_extensions@.len() > 0 && path_extension(path) is None ==> !extension_allowed(
            config,
            path,
        ),
{
}

/// With a non-empty list of allowed extensions, a file is allowed exactly
/// when its extension is one of the entries of the list, whichever entry it
/// is.
pub proof fn lemma_extension_on_list(config: FilesystemConfig, path: Seq<char>)
    requires
        config.allowed_extensions@.len() > 0,
    ensures
        extension_allowed(config, path) <==> exists|i: int|
            0 <= i < config.allowed_extensions@.len() && path_extension(path) == Some(
                #[trigger] config.allowed_extensions@[i]@,
            ),
{
    if extension_allowed(config, path) {
        let e = path_extension(path)->0;
        let i = choose|i: int|
            0 <= i < config.allowed_extensions@.len() && #[trigger] config.allowed_extensions@[i]@
                == e;
        assert(path_extension(path) == Some(config.allowed_extensions@[i]@));
    }
    if exists|i: int|
        0 <= i < config.allowed_extensions@.len() && path_extension(path) == Some(
            #[trigger] config.allowed_extensions@[i]@,
        ) {
        let i = choose|i: int|
            0 <= i < config.allowed_extensions@.len() && path_extension(path) == Some(
                #[trigger] config.allowed_extensions@[i]@,
            );
        assert(seq_has_text(config.allowed_extensions@, config.allowed_extensions@[i]@));
    }
}

/// File entry for directory listings.
#[derive(Debug, Clone)]
pub struct FileEntry {
    pub name: String,
    pub path: String,
    pub is_dir: bool,
    pub is_file: bool,
    pub size: u64,
    pub modified: Option<std::time::SystemTime>,
}

/// Filesystem plugin for file operations.
#[derive(Debug, Clone)]
pub struct FilesystemPlugin {
    config: FilesystemConfig,
    working_dir: String,
}

impl FilesystemPlugin {
    /// Create a new filesystem plugin.
    pub fn new(config: FilesystemConfig, working_dir: String) -> (r: Self)
        ensures
            r.config() == config,
            r.working_dir() == working_dir,
    {
        FilesystemPlugin { config, working_dir }
    }

    /// The configuration of the plugin.
    pub closed spec fn config(&self) -> FilesystemConfig {
        self.config
    }

    /// The working directory of the plugin.
    pub closed spec fn working_dir(&self) -> String {
        self.working_dir
    }

    /// The configuration of the plugin.
    pub fn get_config(&self) -> (r: &FilesystemConfig)
        ensures
            *r == self.config(),
    {
        &self.config
    }

    /// The working directory of the plugin.
    pub fn get_working_dir(&self) -> (r: &String)
        ensures
            *r == self.working_dir(),
    {
        &self.working_dir
    }

    /// Replace the configuration (as a plugin does on initialization).
    pub fn set_config(&mut self, config: FilesystemConfig)
        ensures
            final(self).config() == config,
            final(self).working_dir() == old(self).working_dir(),
    {
        self.config = config;
    }

    /// Whether the configuration lets the operation run.
    pub fn check_operation(&self, op: FsOperation) -> (r: Result<(), FsError>)
        ensures
            operation_enabled(self.config(), op) ==> r is Ok,
            !operation_enabled(self.config(), op) ==> (r matches Err(FsError::NotAllowed(o)) && o
                == op),
    {
        let enabled = match op {
            FsOperation::Read => self.config.allow_read,
            FsOperation::Write => self.config.allow_write,
            FsOperation::List => self.config.allow_list,
            FsOperation::CreateDir => self.config.allow_mkdir,
        };
        if enabled {
            Ok(())
        } else {
            Err(FsError::NotAllowed(op))
        }
    }

    /// The directory that relative paths are resolved against: the configured
    /// base directory under the working directory, or the working directory.
    pub fn base_path(&self) -> (r: String)
        ensures
            r@ == match self.config().base_dir {
                Some(b) => joined_path(self.working_dir()@, b@),
                None => self.working_dir()@,
            },
    {
        match &self.config.base_dir {
            Some(b) => join_path(self.working_dir.as_str(), b.as_str()),
            None => owned(self.working_dir.as_str()),
        }
    }

    /// The path an operation names, before it is canonicalized: an absolute
    /// path as given, a relative one under the base directory.
    pub fn candidate_path(&self, path: &str) -> (r: String)
        ensures
            path_is_absolute(path@) ==> r@ == path@,
            !path_is_absolute(path@) ==> r@ == joined_path(
                match self.config().base_dir {
                    Some(b) => joined_path(self.working_dir()@, b@),
                    None => self.working_dir()@,
                },
                path@,
            ),
    {
        if is_absolute_path(path) {
            owned(path)
        } else {
            let base = self.base_path();
            join_path(base.as_str(), path)
        }
    }

    /// Check a canonical path against the plugin's rules: it must lie within
    /// the canonical base directory (whole path components), and match none
    /// of the denied patterns; the first denied pattern that matches is
    /// reported. On success the canonical path is returned.
    pub fn check_canonical(&self, path: &str, canonical: &str, base_canonical: &str) -> (r:
        Result<String, FsError>)
        ensures
            !path_has_prefix(canonical@, base_canonical@) ==> (r matches Err(
                FsError::PathTraversal(p),
            ) && p@ == path@),
            path_has_prefix(canonical@, base_canonical@) ==> {
                let denied = self.config().denied_paths@;
                &&& (forall|i: int|
                    0 <= i < denied.len() ==> !path_matches_pattern(
                        canonical@,
                        #[trigger] denied[i]@,
                    )) ==> (r matches Ok(c) && c@ == canonical@)
                &&& (exists|i: int|
                    0 <= i < denied.len() && path_matches_pattern(
                        canonical@,
                        #[trigger] denied[i]@,
                    )) ==> (r matches Err(FsError::DeniedPattern(p)) && exists|i: int|
                    0 <= i < denied.len() && path_matches_pattern(canonical@, #[trigger] denied[i]@)
                        && p@ == denied[i]@ && forall|j: int|
                        0 <= j < i ==> !path_matches_pattern(canonical@, #[trigger] denied[j]@))
            },
    {
        if !path_starts_with(canonical, base_canonical) {
            return Err(FsError::PathTraversal(owned(path)));
        }
        let denied = &self.config.denied_paths;
        let mut i: usize = 0;
        while i < denied.len()
            invariant
                denied == &self.config.denied_paths,
                path_has_prefix(canonical@, base_canonical@),
                i <= denied@.len(),
                forall|j: int|
                    0 <= j < i ==> !path_matches_pattern(canonical@, #[trigger] denied@[j]@),
            decreases denied@.len() - i,
        {
            if matches_pattern(canonical, denied[i].as_str()) {
                assert(path_matches_pattern(canonical@, denied@[i as int]@));
                return Err(FsError::DeniedPattern(owned(denied[i].as_str())));
            }
            i = i + 1;
        }
        Ok(owned(canonical))
    }

    /// Check if a file's extension is allowed.
    pub fn is_extension_allowed(&self, path: &str) -> (r: bool)
        ensures
            r == extension_allowed(self.config(), path@),
    {
        if self.config.allowed_extensions.len() == 0 {
            return true;
        }
        match extension_of(path) {
            Some(e) => vec_has_text(&self.config.allowed_extensions, e.as_str()),
            None => false,
        }
    }

    /// Check a resolved path before it is read, in this order: it must
    /// exist, be a file, be no larger than the maximum, and have an allowed
    /// extension. `path` is the path as the caller gave it.
    pub fn check_readable(
        &self,
        path: &str,
        resolved: &str,
        exists: bool,
        is_file: bool,
        size: u64,
    ) -> (r: Result<(), FsError>)
        ensures
            !exists ==> (r matches Err(FsError::FileNotFound(p)) && p@ == path@),
            exists && !is_file ==> (r matches Err(FsError::NotAFile(p)) && p@ == path@),
            exists && is_file && size > self.config().max_file_size ==> r == Err::<(), FsError>(
                FsError::TooLarge { size, max: self.config().max_file_size },
            ),
            exists && is_file && size <= self.config().max_file_size && !extension_allowed(
                self.config(),
                resolved@,
            ) ==> (r matches Err(FsError::ExtensionNotAllowed(p)) && p@ == path@),
            exists && is_file && size <= self.config().max_file_size && extension_allowed(
                self.config(),
                resolved@,
            ) ==> r is Ok,
    {
        if !exists {
            return Err(FsError::FileNotFound(owned(path)));
        }
        if !is_file {
            return Err(FsError::NotAFile(owned(path)));
        }
        if size > self.config.max_file_size as u64 {
            return Err(FsError::TooLarge { size, max: self.config.max_file_size });
        }
        if !self.is_extension_allowed(resolved) {
            return Err(FsError::ExtensionNotAllowed(owned(path)));
        }
        Ok(())
    }

    /// Check a resolved path before it is written: its extension must be
    /// allowed.
    pub fn check_writable(&self, path: &str, resolved: &str) -> (r: Result<(), FsError>)
        ensures
            extension_allowed(self.config(), resolved@) ==> r is Ok,
            !extension_allowed(self.config(), resolved@) ==> (r matches Err(
                FsError::ExtensionNotAllowed(p),
            ) && p@ == path@),
    {
        if !self.is_extension_allowed(resolved) {
            return Err(FsError::ExtensionNotAllowed(owned(path)));
        }
        Ok(())
    }

    /// Check a resolved path before it is listed: it must exist and be a
    /// directory.
    pub fn check_listable(&self, path: &str, exists: bool, is_dir: bool) -> (r: Result<(), FsError>)
        ensures
            !exists ==> (r matches Err(FsError::DirectoryNotFound(p)) && p@ == path@),
            exists && !is_dir ==> (r matches Err(FsError::NotADirectory(p)) && p@ == path@),
            exists && is_dir ==> r is Ok,
    {
        if !exists {
            return Err(FsError::DirectoryNotFound(owned(path)));
        }
        if !is_dir {
            return Err(FsError::NotADirectory(owned(path)));
        }
        Ok(())
    }

    /// Plugin name.
    pub fn name(&self) -> (r: &'static str)
        ensures
            r@ == "filesystem"@,
    {
        "filesystem"
    }

    /// Plugin version.
    pub fn version(&self) -> (r: &'static str)
        ensures
            r@ == "1.0.0"@,
    {
        "1.0.0"
    }

    /// Plugin description.
    pub fn description(&self) -> (r: &'static str)
        ensures
            r@ == "File system operations plugin - read, write, list, and manage files"@,
    {
        "File system operations plugin - read, write, list, and manage files"
    }

    /// The phases the plugin takes part in: all of them.
    pub fn supported_phases(&self) -> (r: Vec<Phase>)
        ensures
            r@ == phase_order(),
    {
        let r = vec![Phase::Interrogate, Phase::Contract, Phase::Execute, Phase::Finish];
        assert(r@ =~= phase_order());
        r
    }

    /// The plugin's capabilities: filesystem access only.
    pub fn capabilities(&self) -> (r: PluginCapabilities)
        ensures
            capability_flags(r) == (false, true, false, false, false),
            r.custom@ == Map::<String, bool>::empty(),
    {
        let mut caps = PluginCapabilities::default();
        caps.filesystem = true;
        caps
    }
}

/// Whether a path matches a glob pattern, read with each `**` as `*`; a
/// pattern that does not compile matches nothing.
pub fn matches_pattern(path: &str, pattern: &str) -> (r: bool)
    ensures
        r == path_matches_pattern(path@, pattern@),
{
    let p = collapse_double_star_of(pattern);
    match compile_glob(p.as_str()) {
        Ok(g) => glob_match(&g, path),
        Err(_) => false,
    }
}

/// Text order: character by character by code point, a proper prefix first.
/// This is the order of `String`'s `Ord`, since UTF-8 keeps code point order.
pub open spec fn text_le(a: Seq<char>, b: Seq<char>) -> bool
    decreases a.len(),
{
    if a.len() == 0 {
        true
    } else if b.len() == 0 {
        false
    } else if (a[0] as u32) != (b[0] as u32) {
        (a[0] as u32) < (b[0] as u32)
    } else {
        text_le(a.drop_first(), b.drop_first())
    }
}

/// Listing order: directories before other entries, then by name.
pub open spec fn entry_le(a: FileEntry, b: FileEntry) -> bool {
    (a.is_dir && !b.is_dir) || (a.is_dir == b.is_dir && text_le(a.name@, b.name@))
}

/// Entries in listing order.
pub open spec fn entries_sorted(s: Seq<FileEntry>) -> bool {
    forall|i: int, j: int| 0 <= i < j < s.len() ==> entry_le(#[trigger] s[i], #[trigger] s[j])
}

proof fn lemma_text_le_total(a: Seq<char>, b: Seq<char>)
    ensures
        text_le(a, b) || text_le(b, a),
    decreases a.len(),
{
    if a.len() > 0 && b.len() > 0 {
        if (a[0] as u32) == (b[0] as u32) {
            lemma_text_le_total(a.drop_first(), b.drop_first());
        }
    }
}

proof fn lemma_text_le_transitive(a: Seq<char>, b: Seq<char>, c: Seq<char>)
    requires
        text_le(a, b),
        text_le(b, c),
    ensures
        text_le(a, c),
    decreases a.len(),
{
    if a.len() > 0 && b.len() > 0 && c.len() > 0 && (a[0] as u32) == (b[0] as u32) && (b[0] as u32)
        == (c[0] as u32) {
        lemma_text_le_transitive(a.drop_first(), b.drop_first(), c.drop_first());
    }
}

proof fn lemma_entry_le_total(a: FileEntry, b: FileEntry)
    ensures
        entry_le(a, b) || entry_le(b, a),
{
    lemma_text_le_total(a.name@, b.name@);
}

proof fn lemma_entry_le_transitive(a: FileEntry, b: FileEntry, c: FileEntry)
    requires
        entry_le(a, b),
        entry_le(b, c),
    ensures
        entry_le(a, c),
{
    if a.is_dir == b.is_dir && b.is_dir == c.is_dir {
        lemma_text_le_transitive(a.name@, b.name@, c.name@);
    }
}

/// Whether the first text comes no later than the second in text order.
pub fn text_le_exec(a: &str, b: &str) -> (r: bool)
    ensures
        r == text_le(a@, b@),
{
    let av = chars_of(a);
    let bv = chars_of(b);
    let mut i: usize = 0;
    assert(a@.skip(0) =~= a@);
    assert(b@.skip(0) =~= b@);
    while i < av.len() && i < bv.len() && (av[i] as u32) == (bv[i] as u32)
        invariant
            av@ == a@,
            bv@ == b@,
            i <= av@.len(),
            i <= bv@.len(),
            text_le(a@, b@) == text_le(a@.skip(i as int), b@.skip(i as int)),
        decreases av@.len() - i,
    {
        assert(a@.skip(i as int).drop_first() =~= a@.skip(i + 1));
        assert(b@.skip(i as int).drop_first() =~= b@.skip(i + 1));
        i = i + 1;
    }
    if i == av.len() {
        return true;
    }
    if i == bv.len() {
        return false;
    }
    assert(a@.skip(i as int)[0] == a@[i as int]);
    assert(b@.skip(i as int)[0] == b@[i as int]);
    (av[i] as u32) < (bv[i] as u32)
}

fn entry_le_exec(a: &FileEntry, b: &FileEntry) -> (r: bool)
    ensures
        r == entry_le(*a, *b),
{
    (a.is_dir && !b.is_dir) || (a.is_dir == b.is_dir && text_le_exec(a.name.as_str(), b.name.as_str()))
}

/// Put directory entries in listing order: directories first, then by name.
/// The result holds the same entries.
pub fn sort_entries(entries: Vec<FileEntry>) -> (r: Vec<FileEntry>)
    ensures
        entries_sorted(r@),
        r@.to_multiset() == entries@.to_multiset(),
{
    broadcast use vstd::seq_lib::group_to_multiset_ensures;

    let mut rest = entries;
    let mut out: Vec<FileEntry> = Vec::new();
    let ghost given = rest@;
    while rest.len() > 0
        invariant
            entries_sorted(out@),
            out@.to_multiset().add(rest@.to_multiset()) == given.to_multiset(),
        decreases rest@.len(),
    {
        let ghost rest_prev = rest@;
        let e = rest.remove(0);
        proof {
            vstd::seq_lib::to_multiset_remove(rest_prev, 0);
        }
        let mut k: usize = 0;
        while k < out.len() && entry_le_exec(&out[k], &e)
            invariant
                k <= out@.len(),
                forall|j: int| 0 <= j < k ==> entry_le(#[trigger] out@[j], e),
            decreases out@.len() - k,
        {
            k = k + 1;
        }
        let ghost before = out@;
        proof {
            if k < out@.len() {
                lemma_entry_le_total(out@[k as int], e);
            }
        }
        let ghost rest_before = rest@;
        out.insert(k, e);
        proof {
            assert(out@ == before.insert(k as int, e));
            vstd::seq_lib::to_multiset_insert(before, k as int, e);
            assert(out@.to_multiset() == before.to_multiset().insert(e));
            assert(rest_prev[0] == e);
            assert(rest_prev.contains(e));
            vstd::seq_lib::to_multiset_contains(rest_prev, e);
            assert(rest_prev.to_multiset().contains(e));
            assert(out@.to_multiset().add(rest@.to_multiset()) =~= before.to_multiset().add(
                rest_prev.to_multiset(),
            ));
            assert forall|i: int, j: int| 0 <= i < j < out@.len() implies entry_le(
                #[trigger] out@[i],
                #[trigger] out@[j],
            ) by {
                if j < k {
                    assert(out@[i] == before[i] && out@[j] == before[j]);
                } else if j == k {
                    assert(out@[i] == before[i]);
                } else if i == k {
                    assert(out@[j] == before[j - 1]);
                    if j - 1 > k {
                        lemma_entry_le_transitive(e, before[k as int], before[j - 1]);
                    }
                } else if i < k {
                    assert(out@[i] == before[i] && out@[j] == before[j - 1]);
                } else {
                    assert(out@[i] == before[i - 1] && out@[j] == before[j - 1]);
                }
            }
        }
    }
    assert(rest@.to_multiset() =~= vstd::multiset::Multiset::<FileEntry>::empty());
    out
}

} // verus!
