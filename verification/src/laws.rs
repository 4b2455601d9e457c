//! The guarantees of the resolution protocol, stated and proved over the
//! spec-level semantics of the manager.

use vstd::prelude::*;

use crate::errors::SpecError;
use crate::fs_model::fs_lookup;
use crate::loader::{spec_load_source, SpecLoadedSourceCode, SpecSourceLoader};
use crate::manager::{
    lemma_partition_lookup, spec_partition, spec_resovle_module, spec_try_resolvers, table_lookup,
    unsupported_msg, with_protocol, SpecLoadedModule,
};
use crate::resolver::{
    spec_disk_data, spec_replace_extension, spec_resolve_module, ModuleResolver,
    SpecModuleSourceData,
};
use crate::urls::{file_path_of, spec_parse_url, SpecUrl};

verus! {

/// For any specifier normalizing to scheme "file" whose URL names a path
/// that exists in the snapshot exactly, a manager whose "file" candidates
/// begin with a disk resolver returns the `file://` origin of that very
/// path and the file's contents, byte for byte, with no source map.
pub proof fn lemma_exact_file_resolution(
    table: Seq<(Seq<char>, Seq<ModuleResolver>)>,
    specifier: Seq<char>,
    referer_origin: Seq<char>,
    fs: Seq<(Seq<char>, Seq<char>)>,
    url: SpecUrl,
    rs: Seq<ModuleResolver>,
    path: Seq<char>,
    contents: Seq<char>,
)
    requires
        spec_parse_url(specifier, referer_origin) == Ok::<SpecUrl, SpecError>(url),
        url.scheme == "file"@,
        table_lookup(table, url.scheme) == Some(rs),
        rs.len() > 0,
        rs[0] is LocalDisk,
        file_path_of(url.text) == Some(path),
        fs_lookup(fs, path) == Some(contents),
    ensures
        spec_resovle_module(table, specifier, referer_origin, fs) == Ok::<
            SpecLoadedModule,
            SpecError,
        >(
            SpecLoadedModule {
                loaded_source: SpecLoadedSourceCode {
                    is_wasm: false,
                    source_map: None,
                    source: contents,
                },
                origin_url: "file://"@ + path,
            },
        ),
{
    assert(spec_resolve_module(rs[0], url, referer_origin, fs) == Ok::<
        SpecModuleSourceData,
        SpecError,
    >(spec_disk_data(path)));
    assert(spec_load_source(SpecSourceLoader::Disk { path, map_path: None }, fs) == Ok::<
        SpecLoadedSourceCode,
        SpecError,
    >(SpecLoadedSourceCode { is_wasm: false, source_map: None, source: contents }));
}

/// Where the exact path does not exist but its `.ts` variant does, disk
/// resolution succeeds against the `.ts` variant — whether or not a `.js`
/// variant exists, since `.ts` is probed first.
pub proof fn lemma_ts_variant_wins(
    table: Seq<(Seq<char>, Seq<ModuleResolver>)>,
    specifier: Seq<char>,
    referer_origin: Seq<char>,
    fs: Seq<(Seq<char>, Seq<char>)>,
    url: SpecUrl,
    rs: Seq<ModuleResolver>,
    path: Seq<char>,
    contents: Seq<char>,
)
    requires
        spec_parse_url(specifier, referer_origin) == Ok::<SpecUrl, SpecError>(url),
        url.scheme == "file"@,
        table_lookup(table, url.scheme) == Some(rs),
        rs.len() > 0,
        rs[0] is LocalDisk,
        file_path_of(url.text) == Some(path),
        fs_lookup(fs, path) is None,
        fs_lookup(fs, spec_replace_extension(path, "ts"@)) == Some(contents),
    ensures
        spec_resovle_module(table, specifier, referer_origin, fs) == Ok::<
            SpecLoadedModule,
            SpecError,
        >(
            SpecLoadedModule {
                loaded_source: SpecLoadedSourceCode {
                    is_wasm: false,
                    source_map: None,
                    source: contents,
                },
                origin_url: "file://"@ + spec_replace_extension(path, "ts"@),
            },
        ),
{
    let ts = spec_replace_extension(path, "ts"@);
    assert(spec_resolve_module(rs[0], url, referer_origin, fs) == Ok::<
        SpecModuleSourceData,
        SpecError,
    >(spec_disk_data(ts)));
    assert(spec_load_source(SpecSourceLoader::Disk { path: ts, map_path: None }, fs) == Ok::<
        SpecLoadedSourceCode,
        SpecError,
    >(SpecLoadedSourceCode { is_wasm: false, source_map: None, source: contents }));
}

/// A specifier normalizing to a scheme that no registered resolver claims
/// fails with `UnsupportedProtocol`, and the message names that scheme.
pub proof fn lemma_unsupported_protocol(
    resolvers: Seq<ModuleResolver>,
    specifier: Seq<char>,
    referer_origin: Seq<char>,
    fs: Seq<(Seq<char>, Seq<char>)>,
    url: SpecUrl,
)
    requires
        spec_parse_url(specifier, referer_origin) == Ok::<SpecUrl, SpecError>(url),
        with_protocol(resolvers, url.scheme).len() == 0,
    ensures
        spec_resovle_module(spec_partition(resolvers), specifier, referer_origin, fs) == Err::<
            SpecLoadedModule,
            SpecError,
        >(
            SpecError::UnsupportedProtocol {
                message: unsupported_msg(specifier, referer_origin, url.scheme),
            },
        ),
{
    lemma_partition_lookup(resolvers, url.scheme);
}

/// With two candidates for one scheme, the first failing its resolve step
/// and the second claiming the specifier, the request yields the second's
/// outcome — its load result, success or failure — and the first's
/// failure never surfaces as the final error.
pub proof fn lemma_second_resolver_wins(
    rs: Seq<ModuleResolver>,
    url: SpecUrl,
    referer_origin: Seq<char>,
    fs: Seq<(Seq<char>, Seq<char>)>,
    specifier: Seq<char>,
    data: SpecModuleSourceData,
)
    requires
        rs.len() == 2,
        spec_resolve_module(rs[0], url, referer_origin, fs) is Err,
        spec_resolve_module(rs[1], url, referer_origin, fs) == Ok::<
            SpecModuleSourceData,
            SpecError,
        >(data),
    ensures
        spec_try_resolvers(rs, url, referer_origin, fs, specifier) == match spec_load_source(
            data.source_loader,
            fs,
        ) {
            Ok(src) => Ok::<SpecLoadedModule, SpecError>(
                SpecLoadedModule { loaded_source: src, origin_url: data.origin_url },
            ),
            Err(e) => Err(e),
        },
{
    assert(rs.drop_first()[0] == rs[1]);
    assert(rs.drop_first().len() == 1);
    assert(spec_try_resolvers(rs, url, referer_origin, fs, specifier) == spec_try_resolvers(
        rs.drop_first(),
        url,
        referer_origin,
        fs,
        specifier,
    ));
}

/// Once a resolver claims a specifier, the manager commits to it: where
/// the first candidate's resolve step succeeds and its bound loader then
/// fails, the request fails with that loader's error, and no further
/// candidate is attempted, however many are registered.
pub proof fn lemma_commit_on_first_claim(
    rs: Seq<ModuleResolver>,
    url: SpecUrl,
    referer_origin: Seq<char>,
    fs: Seq<(Seq<char>, Seq<char>)>,
    specifier: Seq<char>,
    data: SpecModuleSourceData,
    e: SpecError,
)
    requires
        rs.len() >= 1,
        spec_resolve_module(rs[0], url, referer_origin, fs) == Ok::<
            SpecModuleSourceData,
            SpecError,
        >(data),
        spec_load_source(data.source_loader, fs) == Err::<SpecLoadedSourceCode, SpecError>(e),
    ensures
        spec_try_resolvers(rs, url, referer_origin, fs, specifier) == Err::<
            SpecLoadedModule,
            SpecError,
        >(e),
{
}

} // verus!
