//! Source loaders: single-use capabilities that materialize the final
//! source text (and optional source map) of an already-located module.
//!
//! Two variants exist: the disk-file loader, which reads a file from the
//! snapshot it is handed, and the synthesized-value loader, which embeds a
//! structured value's serialization in a minimal module.

use vstd::prelude::*;

use crate::errors::{FlyError, SpecError};
use crate::fs_model::{fs_lookup, FsSnapshot};
use crate::json::{clone_value, json_text_of, to_json_text};

verus! {

/// The final materialized payload of a resolved module.
#[derive(Clone, Debug)]
pub struct LoadedSourceCode {
    pub is_wasm: bool,
    pub source_map: Option<String>,
    pub source: String,
}

/// Spec-level mirror of [`LoadedSourceCode`].
pub struct SpecLoadedSourceCode {
    pub is_wasm: bool,
    pub source_map: Option<Seq<char>>,
    pub source: Seq<char>,
}

impl View for LoadedSourceCode {
    type V = SpecLoadedSourceCode;

    open spec fn view(&self) -> SpecLoadedSourceCode {
        SpecLoadedSourceCode {
            is_wasm: self.is_wasm,
            source_map: match self.source_map {
                Some(m) => Some(m@),
                None => None,
            },
            source: self.source@,
        }
    }
}

/// A loader bound to a primary file path and an optional source-map path.
#[derive(Clone, Debug)]
pub struct LocalDiskRawLoader {
    pub source_file_path: String,
    pub source_map_path: Option<String>,
}

/// A loader bound to a structured value whose serialization becomes the
/// module's default export.
#[derive(Debug)]
pub struct JsonSecretsLoader {
    pub json_value: serde_json::Value,
}

/// The closed set of loader variants, owned by a resolved-but-not-loaded
/// module handle and consumed exactly once.
#[derive(Debug)]
pub enum SourceLoader {
    LocalDiskRaw(LocalDiskRawLoader),
    JsonSecrets(JsonSecretsLoader),
}

/// Spec-level mirror of [`SourceLoader`].
pub enum SpecSourceLoader {
    Disk { path: Seq<char>, map_path: Option<Seq<char>> },
    Secrets { value: serde_json::Value },
}

impl View for SourceLoader {
    type V = SpecSourceLoader;

    open spec fn view(&self) -> SpecSourceLoader {
        match self {
            SourceLoader::LocalDiskRaw(l) => SpecSourceLoader::Disk {
                path: l.source_file_path@,
                map_path: match l.source_map_path {
                    Some(m) => Some(m@),
                    None => None,
                },
            },
            SourceLoader::JsonSecrets(l) => SpecSourceLoader::Secrets { value: l.json_value },
        }
    }
}

/// The message of the `LoadFailure` raised when the primary file of a disk
/// loader is absent from the snapshot.
pub open spec fn load_failure_msg(path: Seq<char>) -> Seq<char> {
    "Could not read "@ + path
}

/// `s` with every backtick removed: the single delimiter class that the
/// synthesized-value loader neutralizes before embedding. Deliberately no
/// more than that: other characters able to break the host's literal
/// syntax pass through unchanged.
pub open spec fn strip_backticks(s: Seq<char>) -> Seq<char>
    decreases s.len(),
{
    if s.len() == 0 {
        Seq::empty()
    } else {
        let rest = strip_backticks(s.drop_last());
        if s.last() == '`' {
            rest
        } else {
            rest.push(s.last())
        }
    }
}

/// The source text of a synthesized module whose value serializes to `t`.
pub open spec fn secrets_source(t: Seq<char>) -> Seq<char> {
    "export default JSON.stringify(`"@ + strip_backticks(t) + "`)"@
}

/// What loading through `l` against the snapshot `fs` yields.
///
/// A disk loader succeeds exactly when its primary path is in the
/// snapshot; a missing source map is swallowed and treated as "no source
/// map". A synthesized-value loader always succeeds.
pub open spec fn spec_load_source(l: SpecSourceLoader, fs: Seq<(Seq<char>, Seq<char>)>) -> Result<
    SpecLoadedSourceCode,
    SpecError,
> {
    match l {
        SpecSourceLoader::Disk { path, map_path } => match fs_lookup(fs, path) {
            Some(source) => Ok(
                SpecLoadedSourceCode {
                    is_wasm: false,
                    source_map: match map_path {
                        Some(mp) => fs_lookup(fs, mp),
                        None => None,
                    },
                    source,
                },
            ),
            None => Err(SpecError::LoadFailure { message: load_failure_msg(path) }),
        },
        SpecSourceLoader::Secrets { value } => Ok(
            SpecLoadedSourceCode {
                is_wasm: false,
                source_map: None,
                source: secrets_source(json_text_of(value)),
            },
        ),
    }
}

/// The characters of `s`, with every backtick removed.
fn strip_backticks_chars(s: &str) -> (r: Vec<char>)
    ensures
        r@ == strip_backticks(s@),
{
    let n = s.unicode_len();
    let mut out: Vec<char> = Vec::new();
    let mut i: usize = 0;
    proof {
        assert(s@.subrange(0, 0) =~= Seq::<char>::empty());
    }
    while i < n
        invariant
            i <= n,
            n == s@.len(),
            out@ == strip_backticks(s@.subrange(0, i as int)),
        decreases n - i,
    {
        let c = s.get_char(i);
        proof {
            assert(s@.subrange(0, i + 1).drop_last() =~= s@.subrange(0, i as int));
            assert(s@.subrange(0, i + 1).last() == s@[i as int]);
        }
        if c != '`' {
            out.push(c);
        }
        i = i + 1;
    }
    proof {
        assert(s@.subrange(0, n as int) =~= s@);
    }
    out
}

/// Relies on `String`'s `FromIterator` over `char` (through
/// `Iterator::collect`): the string holding exactly the given characters.
#[verifier::external_body]
fn chars_to_string(cs: &Vec<char>) -> (r: String)
    ensures
        r@ == cs@,
{
    cs.iter().collect()
}

impl LocalDiskRawLoader {
    /// A disk loader bound to `source_file_path`, with `source_map_path` as
    /// the optional sidecar to probe for a source map.
    pub fn new(source_file_path: String, source_map_path: Option<String>) -> (r: Self)
        ensures
            r.source_file_path == source_file_path,
            r.source_map_path == source_map_path,
    {
        Self { source_file_path, source_map_path }
    }

    /// Reads the primary file from the snapshot; its absence is fatal.
    /// A bound source-map path is read best-effort: its absence means "no
    /// source map".
    pub fn load_source(&self, fs: &FsSnapshot) -> (r: Result<LoadedSourceCode, FlyError>)
        ensures
            crate::errors::result_view(r) == spec_load_source(
                SourceLoader::LocalDiskRaw(*self)@,
                fs@,
            ),
    {
        let source = match fs.lookup(self.source_file_path.as_str()) {
            Some(c) => c.clone(),
            None => {
                let mut m = String::from_str("Could not read ");
                m.append(self.source_file_path.as_str());
                return Err(FlyError::LoadFailure { message: m });
            },
        };
        let source_map = match &self.source_map_path {
            Some(mp) => match fs.lookup(mp.as_str()) {
                Some(c) => Some(c.clone()),
                None => None,
            },
            None => None,
        };
        Ok(LoadedSourceCode { is_wasm: false, source_map, source })
    }
}

impl JsonSecretsLoader {
    /// A synthesized-value loader bound to a clone of `json_value`.
    pub fn new(json_value: &serde_json::Value) -> (r: Self)
        ensures
            r.json_value == *json_value,
    {
        Self { json_value: clone_value(json_value) }
    }

    /// Produces the minimal module whose default export is the bound
    /// value's serialization, embedded as a backtick-delimited literal with
    /// backticks stripped from the payload. Never fails.
    pub fn load_source(&self) -> (r: Result<LoadedSourceCode, FlyError>)
        ensures
            r is Ok,
            crate::errors::result_view(r) == Ok::<SpecLoadedSourceCode, SpecError>(
                SpecLoadedSourceCode {
                    is_wasm: false,
                    source_map: None,
                    source: secrets_source(json_text_of(self.json_value)),
                },
            ),
    {
        let text = to_json_text(&self.json_value);
        let stripped_chars = strip_backticks_chars(text.as_str());
        let stripped = chars_to_string(&stripped_chars);
        let mut source_code = String::from_str("export default JSON.stringify(`");
        source_code.append(stripped.as_str());
        source_code.append("`)");
        Ok(LoadedSourceCode { is_wasm: false, source_map: None, source: source_code })
    }
}

impl SourceLoader {
    /// Loads through whichever variant this is; the snapshot is consulted
    /// only by the disk variant.
    pub fn load_source(&self, fs: &FsSnapshot) -> (r: Result<LoadedSourceCode, FlyError>)
        ensures
            crate::errors::result_view(r) == spec_load_source(self@, fs@),
    {
        match self {
            SourceLoader::LocalDiskRaw(l) => l.load_source(fs),
            SourceLoader::JsonSecrets(l) => l.load_source(),
        }
    }
}

} // verus!
