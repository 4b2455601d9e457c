//! The resolver manager: the front door of the resolution subsystem.
//!
//! A manager is configured once with an ordered collection of resolvers,
//! partitioned into per-scheme lists that preserve registration order.
//! Each request normalizes the specifier, looks the scheme's candidates up
//! and tries them in order: the first resolver whose resolve step succeeds
//! wins and its loader is committed to, even if loading then fails.

use vstd::prelude::*;

use crate::errors::{result_view, FlyError, SpecError};
use crate::fs_model::FsSnapshot;
use crate::loader::{spec_load_source, LoadedSourceCode, SpecLoadedSourceCode};
use crate::resolver::{spec_resolve_module, ModuleResolver, RefererInfo};
use crate::urls::{parse_url, spec_parse_url, SpecUrl};

verus! {

/// The value returned to the external caller: the materialized source and
/// the canonical origin URL that identifies the resolved module.
#[derive(Clone, Debug)]
pub struct LoadedModule {
    pub loaded_source: LoadedSourceCode,
    pub origin_url: String,
}

/// Spec-level mirror of [`LoadedModule`].
pub struct SpecLoadedModule {
    pub loaded_source: SpecLoadedSourceCode,
    pub origin_url: Seq<char>,
}

impl View for LoadedModule {
    type V = SpecLoadedModule;

    open spec fn view(&self) -> SpecLoadedModule {
        SpecLoadedModule { loaded_source: self.loaded_source@, origin_url: self.origin_url@ }
    }
}

/// One scheme together with its resolvers, in registration order.
pub struct ProtocolResolvers {
    pub protocol: String,
    pub resolvers: Vec<ModuleResolver>,
}

/// The spec-level configuration table: schemes paired with their resolver
/// lists.
pub open spec fn table_view(v: Seq<ProtocolResolvers>) -> Seq<(Seq<char>, Seq<ModuleResolver>)> {
    v.map(|i: int, p: ProtocolResolvers| (p.protocol@, p.resolvers@))
}

/// The resolver list of the first table entry whose scheme is `scheme`.
pub open spec fn table_lookup(
    t: Seq<(Seq<char>, Seq<ModuleResolver>)>,
    scheme: Seq<char>,
) -> Option<Seq<ModuleResolver>>
    decreases t.len(),
{
    if t.len() == 0 {
        None
    } else if t[0].0 == scheme {
        Some(t[0].1)
    } else {
        table_lookup(t.drop_first(), scheme)
    }
}

/// `t` with `r` appended to the list of its scheme: to the first entry
/// whose scheme matches, or as a fresh entry at the end.
pub open spec fn table_insert(
    t: Seq<(Seq<char>, Seq<ModuleResolver>)>,
    r: ModuleResolver,
) -> Seq<(Seq<char>, Seq<ModuleResolver>)>
    decreases t.len(),
{
    if t.len() == 0 {
        seq![(r.spec_protocol(), seq![r])]
    } else if t[0].0 == r.spec_protocol() {
        seq![(t[0].0, t[0].1.push(r))] + t.drop_first()
    } else {
        seq![t[0]] + table_insert(t.drop_first(), r)
    }
}

/// The table that partitioning `rs` yields: resolvers grouped by the
/// scheme each claims, registration order preserved within each scheme.
pub open spec fn spec_partition(rs: Seq<ModuleResolver>) -> Seq<
    (Seq<char>, Seq<ModuleResolver>),
>
    decreases rs.len(),
{
    if rs.len() == 0 {
        Seq::empty()
    } else {
        table_insert(spec_partition(rs.drop_last()), rs.last())
    }
}

/// The resolvers of `rs` that claim scheme `p`, in order.
pub open spec fn with_protocol(rs: Seq<ModuleResolver>, p: Seq<char>) -> Seq<ModuleResolver>
    decreases rs.len(),
{
    if rs.len() == 0 {
        Seq::empty()
    } else {
        let rest = with_protocol(rs.drop_last(), p);
        if rs.last().spec_protocol() == p {
            rest.push(rs.last())
        } else {
            rest
        }
    }
}

/// The message of the `UnsupportedProtocol` error: it names the specifier,
/// the referer and the scheme that no resolver is registered for.
pub open spec fn unsupported_msg(
    specifier: Seq<char>,
    referer_origin: Seq<char>,
    scheme: Seq<char>,
) -> Seq<char> {
    "Could not resolve "@ + specifier + " from "@ + referer_origin
        + ": no resolvers for protocol "@ + scheme + " setup."@
}

/// The message of the `NotFound` error raised when every candidate's
/// resolve step failed.
pub open spec fn exhausted_msg(specifier: Seq<char>, referer_origin: Seq<char>) -> Seq<char> {
    "Could not resolve "@ + specifier + " from "@ + referer_origin + ": exhausted all resolvers."@
}

/// What trying the candidates `rs` in order yields: the first resolver
/// whose resolve step succeeds is committed to — its loader runs and its
/// outcome, success or `LoadFailure`, is final. A resolve-step failure is
/// recovered locally by moving to the next candidate; when every candidate
/// declined, the request fails with `NotFound`.
pub open spec fn spec_try_resolvers(
    rs: Seq<ModuleResolver>,
    url: SpecUrl,
    referer_origin: Seq<char>,
    fs: Seq<(Seq<char>, Seq<char>)>,
    specifier: Seq<char>,
) -> Result<SpecLoadedModule, SpecError>
    decreases rs.len(),
{
    if rs.len() == 0 {
        Err(SpecError::NotFound { message: exhausted_msg(specifier, referer_origin) })
    } else {
        match spec_resolve_module(rs[0], url, referer_origin, fs) {
            Err(_) => spec_try_resolvers(rs.drop_first(), url, referer_origin, fs, specifier),
            Ok(data) => match spec_load_source(data.source_loader, fs) {
                Ok(src) => Ok(SpecLoadedModule { loaded_source: src, origin_url: data.origin_url }),
                Err(e) => Err(e),
            },
        }
    }
}

/// What one resolution request against the configuration `table` yields:
/// the specifier is normalized against the referer's origin, the
/// normalized scheme selects the candidate list, and the candidates are
/// tried in order.
pub open spec fn spec_resovle_module(
    table: Seq<(Seq<char>, Seq<ModuleResolver>)>,
    specifier: Seq<char>,
    referer_origin: Seq<char>,
    fs: Seq<(Seq<char>, Seq<char>)>,
) -> Result<SpecLoadedModule, SpecError> {
    match spec_parse_url(specifier, referer_origin) {
        Err(e) => Err(e),
        Ok(url) => match table_lookup(table, url.scheme) {
            None => Err(
                SpecError::UnsupportedProtocol {
                    message: unsupported_msg(specifier, referer_origin, url.scheme),
                },
            ),
            Some(rs) => spec_try_resolvers(rs, url, referer_origin, fs, specifier),
        },
    }
}

/// The front door of the resolution subsystem. A resolution request is an
/// independent, synchronous call against the implementor's fixed
/// configuration table.
pub trait ModuleResolverManager {
    /// The configuration table this manager dispatches on.
    spec fn spec_table(&self) -> Seq<(Seq<char>, Seq<ModuleResolver>)>;

    /// Resolves `specifier` against the referer's origin and the snapshot
    /// `fs`, exactly as [`spec_resovle_module`] describes.
    fn resovle_module(&self, specifier: String, referer_info: RefererInfo, fs: &FsSnapshot) -> (r:
        Result<LoadedModule, FlyError>)
        ensures
            result_view(r) == spec_resovle_module(
                self.spec_table(),
                specifier@,
                referer_info.origin_url@,
                fs@,
            ),
    ;
}

/// Where the first `j` entries of `t` all have schemes other than `q` and
/// entry `j` has scheme `q`, the lookup of `q` yields entry `j`'s list.
proof fn lemma_lookup_at(
    t: Seq<(Seq<char>, Seq<ModuleResolver>)>,
    q: Seq<char>,
    j: int,
)
    requires
        0 <= j < t.len(),
        t[j].0 == q,
        forall|k: int| 0 <= k < j ==> t[k].0 != q,
    ensures
        table_lookup(t, q) == Some(t[j].1),
    decreases j,
{
    if j == 0 {
    } else {
        assert(t[0].0 != q);
        lemma_lookup_at(t.drop_first(), q, j - 1);
    }
}

/// Where no entry of `t` has scheme `q`, the lookup of `q` yields nothing.
proof fn lemma_lookup_none(t: Seq<(Seq<char>, Seq<ModuleResolver>)>, q: Seq<char>)
    requires
        forall|k: int| 0 <= k < t.len() ==> t[k].0 != q,
    ensures
        table_lookup(t, q) is None,
    decreases t.len(),
{
    if t.len() == 0 {
    } else {
        lemma_lookup_none(t.drop_first(), q);
    }
}

/// Where the first `j` entries of `t` all have schemes other than `r`'s
/// and entry `j` has `r`'s scheme, inserting `r` updates entry `j` in
/// place.
proof fn lemma_insert_at(
    t: Seq<(Seq<char>, Seq<ModuleResolver>)>,
    r: ModuleResolver,
    j: int,
)
    requires
        0 <= j < t.len(),
        t[j].0 == r.spec_protocol(),
        forall|k: int| 0 <= k < j ==> t[k].0 != r.spec_protocol(),
    ensures
        table_insert(t, r) == t.update(j, (t[j].0, t[j].1.push(r))),
    decreases j,
{
    if j == 0 {
        assert(table_insert(t, r) =~= t.update(0, (t[0].0, t[0].1.push(r))));
    } else {
        assert(t[0].0 != r.spec_protocol());
        lemma_insert_at(t.drop_first(), r, j - 1);
        assert(t.drop_first().update(j - 1, (t[j].0, t[j].1.push(r))) =~= t.update(
            j,
            (t[j].0, t[j].1.push(r)),
        ).drop_first());
        assert(table_insert(t, r) =~= t.update(j, (t[j].0, t[j].1.push(r))));
    }
}

/// Where no entry of `t` has `r`'s scheme, inserting `r` appends a fresh
/// entry.
proof fn lemma_insert_append(t: Seq<(Seq<char>, Seq<ModuleResolver>)>, r: ModuleResolver)
    requires
        forall|k: int| 0 <= k < t.len() ==> t[k].0 != r.spec_protocol(),
    ensures
        table_insert(t, r) == t.push((r.spec_protocol(), seq![r])),
    decreases t.len(),
{
    if t.len() == 0 {
        assert(table_insert(t, r) =~= t.push((r.spec_protocol(), seq![r])));
    } else {
        lemma_insert_append(t.drop_first(), r);
        assert(table_insert(t, r) =~= t.push((r.spec_protocol(), seq![r])));
    }
}

/// How inserting a resolver changes what each scheme's lookup yields: the
/// resolver's own scheme gains it at the end of its list, every other
/// scheme is untouched.
pub proof fn lemma_insert_lookup(
    t: Seq<(Seq<char>, Seq<ModuleResolver>)>,
    r: ModuleResolver,
    q: Seq<char>,
)
    ensures
        table_lookup(table_insert(t, r), q) == if q == r.spec_protocol() {
            match table_lookup(t, q) {
                Some(l) => Some(l.push(r)),
                None => Some(seq![r]),
            }
        } else {
            table_lookup(t, q)
        },
    decreases t.len(),
{
    if t.len() == 0 {
        let t2 = table_insert(t, r);
        assert(t2 =~= seq![(r.spec_protocol(), seq![r])]);
        assert(t2[0] == (r.spec_protocol(), seq![r]));
        assert(t2.len() == 1);
        if q == r.spec_protocol() {
            assert(table_lookup(t2, q) == Some(seq![r]));
            assert(table_lookup(t, q) is None);
        } else {
            assert(t2.drop_first() =~= Seq::<(Seq<char>, Seq<ModuleResolver>)>::empty());
            assert(table_lookup(t2, q) == table_lookup(t2.drop_first(), q));
            assert(table_lookup(t2, q) is None);
        }
    } else if t[0].0 == r.spec_protocol() {
        let t2 = table_insert(t, r);
        assert(t2 =~= seq![(t[0].0, t[0].1.push(r))] + t.drop_first());
        assert(t2[0] == (t[0].0, t[0].1.push(r)));
        assert(t2.drop_first() =~= t.drop_first());
        if q == r.spec_protocol() {
            assert(table_lookup(t2, q) == Some(t[0].1.push(r)));
            assert(table_lookup(t, q) == Some(t[0].1));
        } else {
            assert(table_lookup(t2, q) == table_lookup(t.drop_first(), q));
            assert(table_lookup(t, q) == table_lookup(t.drop_first(), q));
        }
    } else {
        let t2 = table_insert(t, r);
        assert(t2 =~= seq![t[0]] + table_insert(t.drop_first(), r));
        assert(t2[0] == t[0]);
        assert(t2.drop_first() =~= table_insert(t.drop_first(), r));
        lemma_insert_lookup(t.drop_first(), r, q);
        if q == t[0].0 {
            assert(table_lookup(t2, q) == Some(t[0].1));
            assert(table_lookup(t, q) == Some(t[0].1));
        } else {
            assert(table_lookup(t2, q) == table_lookup(table_insert(t.drop_first(), r), q));
            assert(table_lookup(t, q) == table_lookup(t.drop_first(), q));
        }
    }
}

/// What the partition of a resolver collection answers for each scheme:
/// exactly the resolvers claiming that scheme, in registration order, and
/// nothing for a scheme that none claims.
pub proof fn lemma_partition_lookup(rs: Seq<ModuleResolver>, q: Seq<char>)
    ensures
        table_lookup(spec_partition(rs), q) == if with_protocol(rs, q).len() > 0 {
            Some(with_protocol(rs, q))
        } else {
            None::<Seq<ModuleResolver>>
        },
    decreases rs.len(),
{
    if rs.len() == 0 {
    } else {
        lemma_partition_lookup(rs.drop_last(), q);
        lemma_insert_lookup(spec_partition(rs.drop_last()), rs.last(), q);
        if q == rs.last().spec_protocol() {
            if with_protocol(rs.drop_last(), q).len() == 0 {
                assert(with_protocol(rs, q) =~= seq![rs.last()]);
            }
        }
    }
}

/// The first table entry whose scheme is `protocol`, if any.
fn find_protocol(map: &Vec<ProtocolResolvers>, protocol: &String) -> (r: Option<usize>)
    ensures
        match r {
            Some(j) => j < map@.len() && map@[j as int].protocol@ == protocol@ && (forall|k: int|
                0 <= k < j ==> table_view(map@)[k].0 != protocol@) && table_lookup(
                table_view(map@),
                protocol@,
            ) == Some(map@[j as int].resolvers@),
            None => (forall|k: int| 0 <= k < map@.len() ==> table_view(map@)[k].0 != protocol@)
                && table_lookup(table_view(map@), protocol@) is None,
        },
{
    let ghost tv = table_view(map@);
    let mut j: usize = 0;
    while j < map.len()
        invariant
            j <= map.len(),
            tv == table_view(map@),
            forall|k: int| 0 <= k < j ==> tv[k].0 != protocol@,
        decreases map.len() - j,
    {
        proof {
            assert(tv[j as int] == (map@[j as int].protocol@, map@[j as int].resolvers@));
        }
        if map[j].protocol == *protocol {
            proof {
                lemma_lookup_at(tv, protocol@, j as int);
            }
            return Some(j);
        }
        j = j + 1;
    }
    proof {
        lemma_lookup_none(tv, protocol@);
    }
    None
}

/// A manager over a fixed per-scheme configuration table, built once from
/// an ordered resolver collection.
pub struct StandardModuleResolverManager {
    protocol_resolver_map: Vec<ProtocolResolvers>,
}

impl StandardModuleResolverManager {
    /// The configuration table; [`Self::new`] pins it to the partition of
    /// the resolvers the manager was built from.
    pub closed spec fn table(&self) -> Seq<(Seq<char>, Seq<ModuleResolver>)> {
        table_view(self.protocol_resolver_map@)
    }

    /// Partitions `resolvers` into per-scheme lists, preserving relative
    /// registration order within each scheme.
    pub fn new(resolvers: Vec<ModuleResolver>) -> (r: Self)
        ensures
            r.table() == spec_partition(resolvers@),
    {
        let ghost orig = resolvers@;
        let mut rest = resolvers;
        let mut map: Vec<ProtocolResolvers> = Vec::new();
        let ghost mut i: int = 0;
        proof {
            assert(orig.subrange(0, 0) =~= Seq::<ModuleResolver>::empty());
            assert(rest@ =~= orig.subrange(0, orig.len() as int));
            assert(table_view(map@) =~= Seq::<(Seq<char>, Seq<ModuleResolver>)>::empty());
        }
        while rest.len() > 0
            invariant
                0 <= i <= orig.len(),
                rest@ == orig.subrange(i, orig.len() as int),
                table_view(map@) == spec_partition(orig.subrange(0, i)),
            decreases rest.len(),
        {
            let ghost t_old = table_view(map@);
            let r = rest.remove(0);
            proof {
                assert(r == orig[i]);
                assert(orig.subrange(0, i + 1).drop_last() =~= orig.subrange(0, i));
                assert(orig.subrange(0, i + 1).last() == orig[i]);
            }
            let ghost r_snap = r;
            let protocol = r.get_protocol();
            match find_protocol(&map, &protocol) {
                Some(j) => {
                    let ghost m_old = map@;
                    let mut entry = map.remove(j);
                    entry.resolvers.push(r);
                    let ghost entry_snap = entry;
                    map.insert(j, entry);
                    proof {
                        lemma_insert_at(t_old, r_snap, j as int);
                        assert(entry_snap.protocol@ == m_old[j as int].protocol@);
                        assert(entry_snap.resolvers@ == m_old[j as int].resolvers@.push(r_snap));
                        assert(map@ =~= m_old.update(j as int, entry_snap));
                        assert(t_old[j as int] == (m_old[j as int].protocol@,
                            m_old[j as int].resolvers@));
                        assert forall|k: int| 0 <= k < map@.len() implies table_view(map@)[k]
                            == table_insert(t_old, r_snap)[k] by {
                            assert(table_view(map@)[k] == (map@[k].protocol@, map@[k].resolvers@));
                            assert(t_old[k] == (m_old[k].protocol@, m_old[k].resolvers@));
                        }
                        assert(table_view(map@) =~= table_insert(t_old, r_snap));
                    }
                },
                None => {
                    let ghost m_old = map@;
                    let ghost protocol_snap = protocol@;
                    let mut single: Vec<ModuleResolver> = Vec::new();
                    single.push(r);
                    let ghost single_snap = single@;
                    map.push(ProtocolResolvers { protocol, resolvers: single });
                    proof {
                        lemma_insert_append(t_old, r_snap);
                        assert(single_snap =~= seq![r_snap]);
                        assert(map@ =~= m_old.push(map@[map@.len() - 1]));
                        assert forall|k: int| 0 <= k < map@.len() implies table_view(map@)[k]
                            == table_insert(t_old, r_snap)[k] by {
                            assert(table_view(map@)[k] == (map@[k].protocol@, map@[k].resolvers@));
                            if k < m_old.len() {
                                assert(t_old[k] == (m_old[k].protocol@, m_old[k].resolvers@));
                            }
                        }
                        assert(table_view(map@) =~= table_insert(t_old, r_snap));
                    }
                },
            }
            proof {
                i = i + 1;
                assert(rest@ =~= orig.subrange(i, orig.len() as int));
            }
        }
        proof {
            assert(orig.subrange(0, orig.len() as int) =~= orig);
        }
        Self { protocol_resolver_map: map }
    }
}

/// Builds the `UnsupportedProtocol` message.
fn build_unsupported_msg(specifier: &str, referer_origin: &str, scheme: &str) -> (r: String)
    ensures
        r@ == unsupported_msg(specifier@, referer_origin@, scheme@),
{
    let mut m = String::from_str("Could not resolve ");
    m.append(specifier);
    m.append(" from ");
    m.append(referer_origin);
    m.append(": no resolvers for protocol ");
    m.append(scheme);
    m.append(" setup.");
    m
}

/// Builds the exhausted-candidates `NotFound` message.
fn build_exhausted_msg(specifier: &str, referer_origin: &str) -> (r: String)
    ensures
        r@ == exhausted_msg(specifier@, referer_origin@),
{
    let mut m = String::from_str("Could not resolve ");
    m.append(specifier);
    m.append(" from ");
    m.append(referer_origin);
    m.append(": exhausted all resolvers.");
    m
}

impl ModuleResolverManager for StandardModuleResolverManager {
    open spec fn spec_table(&self) -> Seq<(Seq<char>, Seq<ModuleResolver>)> {
        self.table()
    }

    fn resovle_module(&self, specifier: String, referer_info: RefererInfo, fs: &FsSnapshot) -> (r:
        Result<LoadedModule, FlyError>) {
        let specifier_url = match parse_url(specifier.as_str(), referer_info.origin_url.as_str()) {
            Ok(u) => u,
            Err(e) => {
                return Err(e);
            },
        };
        let j = match find_protocol(&self.protocol_resolver_map, &specifier_url.scheme) {
            Some(j) => j,
            None => {
                return Err(
                    FlyError::UnsupportedProtocol {
                        message: build_unsupported_msg(
                            specifier.as_str(),
                            referer_info.origin_url.as_str(),
                            specifier_url.scheme.as_str(),
                        ),
                    },
                );
            },
        };
        let resolvers = &self.protocol_resolver_map[j].resolvers;
        let ghost rs = resolvers@;
        let mut k: usize = 0;
        proof {
            assert(rs.skip(0) =~= rs);
        }
        while k < resolvers.len()
            invariant
                k <= resolvers.len(),
                rs == resolvers@,
                spec_parse_url(specifier@, referer_info.origin_url@) == Ok::<
                    SpecUrl,
                    SpecError,
                >(specifier_url@),
                table_lookup(self.spec_table(), specifier_url@.scheme) == Some(rs),
                spec_try_resolvers(
                    rs,
                    specifier_url@,
                    referer_info.origin_url@,
                    fs@,
                    specifier@,
                ) == spec_try_resolvers(
                    rs.skip(k as int),
                    specifier_url@,
                    referer_info.origin_url@,
                    fs@,
                    specifier@,
                ),
            decreases resolvers.len() - k,
        {
            proof {
                assert(rs.skip(k as int)[0] == rs[k as int]);
            }
            let resolver = &resolvers[k];
            match resolver.resolve_module(&specifier_url, &referer_info, fs) {
                Ok(module_loader) => {
                    let loaded_source = match module_loader.source_loader.load_source(fs) {
                        Ok(s) => s,
                        Err(e) => {
                            return Err(e);
                        },
                    };
                    return Ok(
                        LoadedModule { loaded_source, origin_url: module_loader.origin_url },
                    );
                },
                Err(_) => {
                    proof {
                        assert(rs.skip(k as int).drop_first() =~= rs.skip(k as int + 1));
                    }
                },
            }
            k = k + 1;
        }
        proof {
            assert(rs.skip(k as int) =~= Seq::<ModuleResolver>::empty());
        }
        Err(
            FlyError::NotFound {
                message: build_exhausted_msg(
                    specifier.as_str(),
                    referer_info.origin_url.as_str(),
                ),
            },
        )
    }
}

} // verus!
