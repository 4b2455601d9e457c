//! Module resolvers: strategies that map a normalized URL plus request
//! metadata to a not-yet-read module location and a bound loader, without
//! reading the content.
//!
//! Two variants exist: the disk-path resolver, which probes the exact path
//! and then the `.ts` and `.js` extension variants, and the
//! synthesized-value resolver, which always claims the specifier and binds
//! a synthesized-value loader.

use vstd::prelude::*;

use crate::errors::{result_view, FlyError, SpecError};
use crate::fs_model::{fs_lookup, FsSnapshot};
use crate::loader::{LocalDiskRawLoader, JsonSecretsLoader, SourceLoader, SpecSourceLoader};
use crate::urls::{file_path_for_url, file_path_of, AbsUrl, SpecUrl};

verus! {

/// Metadata about the requesting module. `origin_url` is the join base for
/// relative specifiers; the remaining fields are reserved for resolver
/// extensions and unused by the built-in resolvers.
#[derive(Clone, Debug)]
pub struct RefererInfo {
    pub origin_url: String,
    pub is_wasm: Option<bool>,
    pub source_code: Option<String>,
    pub indentifier_hash: Option<i32>,
}

/// A resolved-but-not-loaded module: its canonical origin URL and the
/// single-use loader bound to its content. Produced by a resolver and
/// consumed exactly once by the manager.
pub struct ModuleSourceData {
    pub origin_url: String,
    pub source_loader: SourceLoader,
}

/// Spec-level mirror of [`ModuleSourceData`].
pub struct SpecModuleSourceData {
    pub origin_url: Seq<char>,
    pub source_loader: SpecSourceLoader,
}

impl View for ModuleSourceData {
    type V = SpecModuleSourceData;

    open spec fn view(&self) -> SpecModuleSourceData {
        SpecModuleSourceData {
            origin_url: self.origin_url@,
            source_loader: self.source_loader@,
        }
    }
}

/// The index of the last occurrence of `c` in `s`, or `None`.
pub open spec fn last_pos(s: Seq<char>, c: char) -> Option<int>
    decreases s.len(),
{
    if s.len() == 0 {
        None
    } else if s.last() == c {
        Some(s.len() - 1)
    } else {
        last_pos(s.drop_last(), c)
    }
}

/// `path` with its extension replaced by `ext`.
///
/// The file part of `path` is what follows its last `/`. A path whose file
/// part is empty, `.` or `..` is returned unchanged. Otherwise the
/// extension — what follows the last `.` of the file part, provided that
/// `.` is not the file part's first character — is dropped, and `.` plus
/// `ext` is appended.
pub open spec fn spec_replace_extension(path: Seq<char>, ext: Seq<char>) -> Seq<char> {
    let file_start: int = match last_pos(path, '/') {
        Some(j) => j + 1,
        None => 0,
    };
    let file = path.subrange(file_start, path.len() as int);
    if file.len() == 0 || file == "."@ || file == ".."@ {
        path
    } else {
        let stem_end: int = match last_pos(file, '.') {
            Some(k) => if k > 0 {
                file_start + k
            } else {
                path.len() as int
            },
            None => path.len() as int,
        };
        path.subrange(0, stem_end) + "."@ + ext
    }
}

/// The message of the `NotFound` error raised when no probed candidate of
/// a disk resolution exists: it names the specifier's URL and the referer.
pub open spec fn not_found_msg(url_text: Seq<char>, referer_origin: Seq<char>) -> Seq<char> {
    "Could not resolve "@ + url_text + " from "@ + referer_origin + " "@
}

/// The handle a disk resolution yields for the existing candidate `path`:
/// a `file://` origin URL and a disk loader bound to the path, with no
/// source map.
pub open spec fn spec_disk_data(path: Seq<char>) -> SpecModuleSourceData {
    SpecModuleSourceData {
        origin_url: "file://"@ + path,
        source_loader: SpecSourceLoader::Disk { path, map_path: None },
    }
}

/// What disk-path resolution of `url` yields against the snapshot `fs`:
/// the URL is turned into a file-system path, and the exact path, then its
/// `.ts` variant, then its `.js` variant are probed in order; the first
/// that exists wins. A URL that yields no path, and a probe with no
/// existing candidate, decline with `NotFound`.
pub open spec fn spec_disk_resolve(
    url: SpecUrl,
    referer_origin: Seq<char>,
    fs: Seq<(Seq<char>, Seq<char>)>,
) -> Result<SpecModuleSourceData, SpecError> {
    match file_path_of(url.text) {
        None => Err(SpecError::NotFound { message: not_found_msg(url.text, referer_origin) }),
        Some(path) => {
            let ts = spec_replace_extension(path, "ts"@);
            let js = spec_replace_extension(ts, "js"@);
            if fs_lookup(fs, path) is Some {
                Ok(spec_disk_data(path))
            } else if fs_lookup(fs, ts) is Some {
                Ok(spec_disk_data(ts))
            } else if fs_lookup(fs, js) is Some {
                Ok(spec_disk_data(js))
            } else {
                Err(SpecError::NotFound { message: not_found_msg(url.text, referer_origin) })
            }
        },
    }
}

/// A resolver for scheme "file", probing the disk (through the snapshot it
/// is handed). The configured root directory is kept for resolver
/// extensions; the built-in probing works on the absolute path the URL
/// itself names.
pub struct LocalDiskModuleResolver {
    pub root: String,
}

/// A resolver for scheme "secrets", bound to a fixed structured value; it
/// ignores the URL's path, always claims the specifier, and performs no
/// authentication of the referer (a deliberate gap, not to be closed
/// silently).
pub struct JsonSecretsResolver {
    pub json_value: serde_json::Value,
}

/// The closed set of resolver variants a manager can be configured with.
pub enum ModuleResolver {
    LocalDisk(LocalDiskModuleResolver),
    JsonSecrets(JsonSecretsResolver),
}

impl ModuleResolver {
    /// The scheme this resolver claims; schemes are lowercase, as standard
    /// URL parsing normalizes them.
    pub open spec fn spec_protocol(&self) -> Seq<char> {
        match self {
            ModuleResolver::LocalDisk(_) => "file"@,
            ModuleResolver::JsonSecrets(_) => "secrets"@,
        }
    }
}

/// What resolution through `r` yields for the normalized `url`.
pub open spec fn spec_resolve_module(
    r: ModuleResolver,
    url: SpecUrl,
    referer_origin: Seq<char>,
    fs: Seq<(Seq<char>, Seq<char>)>,
) -> Result<SpecModuleSourceData, SpecError> {
    match r {
        ModuleResolver::LocalDisk(_) => spec_disk_resolve(url, referer_origin, fs),
        ModuleResolver::JsonSecrets(s) => Ok(
            SpecModuleSourceData {
                origin_url: url.text,
                source_loader: SpecSourceLoader::Secrets { value: s.json_value },
            },
        ),
    }
}

/// The index of the last occurrence of `c` in `s`, or `None`.
fn last_char_pos(s: &str, c: char) -> (r: Option<usize>)
    ensures
        match r {
            Some(j) => j < s@.len() && last_pos(s@, c) == Some(j as int),
            None => last_pos(s@, c) is None,
        },
{
    let n = s.unicode_len();
    let mut found: Option<usize> = None;
    let mut i: usize = 0;
    proof {
        assert(s@.subrange(0, 0) =~= Seq::<char>::empty());
    }
    while i < n
        invariant
            i <= n,
            n == s@.len(),
            match found {
                Some(j) => j < i && last_pos(s@.subrange(0, i as int), c) == Some(j as int),
                None => last_pos(s@.subrange(0, i as int), c) is None,
            },
        decreases n - i,
    {
        let ch = s.get_char(i);
        proof {
            assert(s@.subrange(0, i + 1).drop_last() =~= s@.subrange(0, i as int));
            assert(s@.subrange(0, i + 1).last() == s@[i as int]);
        }
        if ch == c {
            found = Some(i);
        }
        i = i + 1;
    }
    proof {
        assert(s@.subrange(0, n as int) =~= s@);
    }
    found
}

/// `path` with its extension replaced by `ext`, as
/// [`spec_replace_extension`] describes.
pub fn replace_extension(path: &str, ext: &str) -> (r: String)
    ensures
        r@ == spec_replace_extension(path@, ext@),
{
    let n = path.unicode_len();
    let file_start: usize = match last_char_pos(path, '/') {
        Some(j) => j + 1,
        None => 0,
    };
    let file = path.substring_char(file_start, n);
    let flen = file.unicode_len();
    proof {
        reveal_strlit(".");
        reveal_strlit("..");
    }
    let file_is_dot = flen == 1 && file.get_char(0) == '.';
    let file_is_dotdot = flen == 2 && file.get_char(0) == '.' && file.get_char(1) == '.';
    proof {
        if file_is_dot {
            assert(file@ =~= "."@);
        }
        if file_is_dotdot {
            assert(file@ =~= ".."@);
        }
    }
    if flen == 0 || file_is_dot || file_is_dotdot {
        return path.to_owned();
    }
    let stem_end: usize = match last_char_pos(file, '.') {
        Some(k) => if k > 0 {
            file_start + k
        } else {
            n
        },
        None => n,
    };
    let mut r = String::from_str(path.substring_char(0, stem_end));
    r.append(".");
    r.append(ext);
    r
}

/// Builds the `NotFound` message for `url_text` against `referer_origin`.
fn build_not_found_msg(url_text: &str, referer_origin: &str) -> (r: String)
    ensures
        r@ == not_found_msg(url_text@, referer_origin@),
{
    let mut m = String::from_str("Could not resolve ");
    m.append(url_text);
    m.append(" from ");
    m.append(referer_origin);
    m.append(" ");
    m
}

impl LocalDiskModuleResolver {
    /// A disk-path resolver rooted at `root`. The root is always supplied
    /// explicitly, so that resolution stays deterministic and testable.
    pub fn new(root: String) -> (r: Self)
        ensures
            r.root == root,
    {
        Self { root }
    }

    /// The scheme this resolver claims.
    pub fn get_protocol(&self) -> (r: String)
        ensures
            r@ == "file"@,
    {
        String::from_str("file")
    }

    /// Probes, in order, the exact path the URL names, then its `.ts`
    /// variant, then its `.js` variant; the first existing candidate wins
    /// and is bound to a disk loader. No match declines with `NotFound`.
    pub fn resolve_module(
        &self,
        module_specifier: &AbsUrl,
        referer_info: &RefererInfo,
        fs: &FsSnapshot,
    ) -> (r: Result<ModuleSourceData, FlyError>)
        ensures
            result_view(r) == spec_disk_resolve(module_specifier@, referer_info.origin_url@, fs@),
    {
        let path = match file_path_for_url(module_specifier.text.as_str()) {
            Some(p) => p,
            None => {
                return Err(
                    FlyError::NotFound {
                        message: build_not_found_msg(
                            module_specifier.text.as_str(),
                            referer_info.origin_url.as_str(),
                        ),
                    },
                );
            },
        };
        if let Some(_) = fs.lookup(path.as_str()) {
            return Ok(disk_data(path));
        }
        let ts = replace_extension(path.as_str(), "ts");
        if let Some(_) = fs.lookup(ts.as_str()) {
            return Ok(disk_data(ts));
        }
        let js = replace_extension(ts.as_str(), "js");
        if let Some(_) = fs.lookup(js.as_str()) {
            return Ok(disk_data(js));
        }
        Err(
            FlyError::NotFound {
                message: build_not_found_msg(
                    module_specifier.text.as_str(),
                    referer_info.origin_url.as_str(),
                ),
            },
        )
    }
}

/// The handle for the existing disk candidate `path`.
fn disk_data(path: String) -> (r: ModuleSourceData)
    ensures
        r@ == spec_disk_data(path@),
{
    let mut origin_url = String::from_str("file://");
    origin_url.append(path.as_str());
    ModuleSourceData {
        origin_url,
        source_loader: SourceLoader::LocalDiskRaw(LocalDiskRawLoader::new(path, None)),
    }
}

impl JsonSecretsResolver {
    /// A synthesized-value resolver bound to `json_value`.
    pub fn new(json_value: serde_json::Value) -> (r: Self)
        ensures
            r.json_value == json_value,
    {
        Self { json_value }
    }

    /// The scheme this resolver claims.
    pub fn get_protocol(&self) -> (r: String)
        ensures
            r@ == "secrets"@,
    {
        String::from_str("secrets")
    }

    /// Always claims the specifier: the normalized URL itself becomes the
    /// origin, and a synthesized-value loader wrapping the bound value is
    /// returned. The URL's path is ignored and the referer is not
    /// authenticated.
    pub fn resolve_module(
        &self,
        module_specifier: &AbsUrl,
        _referer_info: &RefererInfo,
    ) -> (r: Result<ModuleSourceData, FlyError>)
        ensures
            r is Ok,
            result_view(r) == Ok::<SpecModuleSourceData, SpecError>(
                SpecModuleSourceData {
                    origin_url: module_specifier.text@,
                    source_loader: SpecSourceLoader::Secrets { value: self.json_value },
                },
            ),
    {
        Ok(
            ModuleSourceData {
                origin_url: module_specifier.text.clone(),
                source_loader: SourceLoader::JsonSecrets(JsonSecretsLoader::new(&self.json_value)),
            },
        )
    }
}

impl ModuleResolver {
    /// The scheme this resolver claims.
    pub fn get_protocol(&self) -> (r: String)
        ensures
            r@ == self.spec_protocol(),
    {
        match self {
            ModuleResolver::LocalDisk(d) => d.get_protocol(),
            ModuleResolver::JsonSecrets(s) => s.get_protocol(),
        }
    }

    /// Resolves through whichever variant this is; the snapshot is
    /// consulted only by the disk variant.
    pub fn resolve_module(
        &self,
        module_specifier: &AbsUrl,
        referer_info: &RefererInfo,
        fs: &FsSnapshot,
    ) -> (r: Result<ModuleSourceData, FlyError>)
        ensures
            result_view(r) == spec_resolve_module(
                *self,
                module_specifier@,
                referer_info.origin_url@,
                fs@,
            ),
    {
        match self {
            ModuleResolver::LocalDisk(d) => d.resolve_module(module_specifier, referer_info, fs),
            ModuleResolver::JsonSecrets(s) => s.resolve_module(module_specifier, referer_info),
        }
    }
}

} // verus!
