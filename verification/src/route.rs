//! Entry-point routes and the two-source merge with conflict marking.
//!
//! Route tables are insertion-ordered pathname-to-route maps. The merge seeds
//! the result with every app-sourced pair, then walks the pages-sourced pairs
//! in order: a fresh pathname is inserted as-is, a pathname both sources
//! registered is overwritten with a [`Route::Conflict`] marker in place.

use vstd::prelude::*;
use indexmap::IndexMap;

verus! {

/// A pathname maps to at most one route.
#[derive(Clone, Copy, Debug, PartialEq, Eq, Structural)]
pub enum Route {
    /// A concrete endpoint, identified by a handle into the external
    /// endpoint table kept by the dependency graph.
    Endpoint(u64),
    /// Both route sources registered the pathname; neither original value
    /// is kept.
    Conflict,
}

/// Marker for a resolved middleware endpoint. Middleware resolution is not
/// performed by this core, so no accessor ever constructs one.
#[derive(Clone, Copy, Debug, PartialEq, Eq, Structural)]
pub struct Middleware {
    /// Handle of the endpoint that serves the middleware.
    pub endpoint: u64,
}

/// The merged entry points of a project: one route per pathname, in
/// insertion order, plus the (always absent) middleware marker.
pub struct Entrypoints {
    /// Pathname-to-route table, insertion order preserved.
    pub routes: IndexMap<String, Route>,
    /// Always `None`: middleware resolution is left to later stages.
    pub middleware: Option<Middleware>,
}

#[verifier::external_type_specification]
#[verifier::external_body]
#[verifier::reject_recursive_types(K)]
#[verifier::reject_recursive_types(V)]
#[verifier::reject_recursive_types(S)]
pub struct ExIndexMap<K, V, S>(IndexMap<K, V, S>);

/// The key-value pairs a route table holds, in insertion order.
pub uninterp spec fn route_entries(m: IndexMap<String, Route>) -> Seq<(Seq<char>, Route)>;

/// Whether some entry of `s` carries the pathname `p`.
pub open spec fn has_pathname(s: Seq<(Seq<char>, Route)>, p: Seq<char>) -> bool {
    exists|i: int| 0 <= i < s.len() && s[i].0 == p
}

/// Each pathname occurs in at most one entry. Route tables built from a real
/// map always satisfy this; it is the well-formedness of an entry sequence.
pub open spec fn pathnames_unique(s: Seq<(Seq<char>, Route)>) -> bool {
    forall|i: int, j: int| 0 <= i < j < s.len() ==> s[i].0 != s[j].0
}

/// The position of the entry carrying `p`, meaningful when `has_pathname`
/// holds and the pathnames are unique.
pub open spec fn index_of_pathname(s: Seq<(Seq<char>, Route)>, p: Seq<char>) -> int {
    choose|i: int| 0 <= i < s.len() && s[i].0 == p
}

/// The route registered for `p`, if any.
pub open spec fn route_for(s: Seq<(Seq<char>, Route)>, p: Seq<char>) -> Option<Route> {
    if has_pathname(s, p) {
        Some(s[index_of_pathname(s, p)].1)
    } else {
        None
    }
}

/// No entry is a conflict marker.
pub open spec fn conflict_free(s: Seq<(Seq<char>, Route)>) -> bool {
    forall|i: int| 0 <= i < s.len() ==> s[i].1 != Route::Conflict
}

/// The app-sourced entries, each overwritten with a conflict marker exactly
/// when the pages source also registered its pathname.
pub open spec fn conflicted(
    app: Seq<(Seq<char>, Route)>,
    pages: Seq<(Seq<char>, Route)>,
) -> Seq<(Seq<char>, Route)> {
    app.map_values(
        |e: (Seq<char>, Route)|
            if has_pathname(pages, e.0) {
                (e.0, Route::Conflict)
            } else {
                e
            },
    )
}

/// The pages-sourced entries whose pathname the app source did not register,
/// in their enumeration order.
pub open spec fn pages_only(
    app: Seq<(Seq<char>, Route)>,
    pages: Seq<(Seq<char>, Route)>,
) -> Seq<(Seq<char>, Route)>
    decreases pages.len(),
{
    if pages.len() == 0 {
        Seq::empty()
    } else {
        let rest = pages_only(app, pages.drop_last());
        if has_pathname(app, pages.last().0) {
            rest
        } else {
            rest.push(pages.last())
        }
    }
}

/// The merged table: every app entry (conflict-marked where shared), then
/// every pages-only entry.
pub open spec fn merged_routes(
    app: Seq<(Seq<char>, Route)>,
    pages: Seq<(Seq<char>, Route)>,
) -> Seq<(Seq<char>, Route)> {
    conflicted(app, pages) + pages_only(app, pages)
}

/// The entries of an optional app route table; an absent table contributes
/// nothing.
pub open spec fn optional_entries(m: Option<&IndexMap<String, Route>>) -> Seq<(Seq<char>, Route)> {
    match m {
        Some(m) => route_entries(*m),
        None => Seq::empty(),
    }
}

/// Relies on indexmap's `IndexMap::new`: a fresh map holds no entries.
#[verifier::external_body]
fn route_map_new() -> (m: IndexMap<String, Route>)
    ensures
        route_entries(m) == Seq::<(Seq<char>, Route)>::empty(),
{
    IndexMap::new()
}

/// Relies on indexmap's `IndexMap::len`: the number of entries.
#[verifier::external_body]
fn route_map_len(m: &IndexMap<String, Route>) -> (n: usize)
    ensures
        n == route_entries(*m).len(),
{
    m.len()
}

/// Relies on indexmap's `IndexMap::get_index`: the pair at a position in
/// insertion order, `Some` exactly below `len`.
#[verifier::external_body]
fn route_map_entry_at(m: &IndexMap<String, Route>, i: usize) -> (e: (String, Route))
    requires
        i < route_entries(*m).len(),
    ensures
        (e.0@, e.1) == route_entries(*m)[i as int],
{
    let (k, v) = m.get_index(i).unwrap();
    (k.clone(), *v)
}

/// Relies on indexmap's `IndexMap::contains_key`.
#[verifier::external_body]
fn route_map_contains(m: &IndexMap<String, Route>, pathname: &String) -> (b: bool)
    ensures
        b == has_pathname(route_entries(*m), pathname@),
{
    m.contains_key(pathname)
}

/// Relies on indexmap's `IndexMap::insert`: a fresh key is appended last in
/// order; an existing key keeps its place in the order and only its value is
/// updated.
#[verifier::external_body]
fn route_map_insert(m: &mut IndexMap<String, Route>, pathname: String, route: Route)
    ensures
        !has_pathname(route_entries(*old(m)), pathname@) ==> route_entries(*final(m))
            == route_entries(*old(m)).push((pathname@, route)),
        has_pathname(route_entries(*old(m)), pathname@) ==> (exists|i: int|
            0 <= i < route_entries(*old(m)).len() && route_entries(*old(m))[i].0 == pathname@
                && route_entries(*final(m)) == #[trigger] route_entries(*old(m)).update(
                i,
                (pathname@, route),
            )),
{
    m.insert(pathname, route);
}

/// Merge the two route sources under the deterministic conflict policy:
/// app entries first, verbatim unless the pages source shares the pathname
/// (then a conflict marker in the app entry's place), pages-only entries
/// after, in their enumeration order.
pub fn merge_routes(
    app_routes: Option<&IndexMap<String, Route>>,
    pages_routes: &IndexMap<String, Route>,
) -> (r: IndexMap<String, Route>)
    requires
        pathnames_unique(optional_entries(app_routes)),
        pathnames_unique(route_entries(*pages_routes)),
    ensures
        route_entries(r) == merged_routes(
            optional_entries(app_routes),
            route_entries(*pages_routes),
        ),
        pathnames_unique(route_entries(r)),
{
    let ghost app_s = optional_entries(app_routes);
    let ghost pages_s = route_entries(*pages_routes);
    let mut result = route_map_new();

    if let Some(app) = app_routes {
        let n = route_map_len(app);
        let mut i: usize = 0;
        while i < n
            invariant
                n == route_entries(*app).len(),
                i <= n,
                app_s == route_entries(*app),
                pathnames_unique(app_s),
                route_entries(result) == app_s.take(i as int),
            decreases n - i,
        {
            proof {
                if has_pathname(app_s.take(i as int), app_s[i as int].0) {
                    let j = choose|j: int|
                        0 <= j < i && app_s.take(i as int)[j].0 == app_s[i as int].0;
                    assert(app_s[j].0 == app_s[i as int].0);
                    assert(false);
                }
            }
            let e = route_map_entry_at(app, i);
            route_map_insert(&mut result, e.0, e.1);
            proof {
                assert(route_entries(result) =~= app_s.take(i as int + 1));
            }
            i += 1;
        }
        proof {
            assert(app_s.take(n as int) =~= app_s);
        }
    }

    proof {
        lemma_merge_no_pages(app_s);
        assert(pages_s.take(0) =~= Seq::<(Seq<char>, Route)>::empty());
        assert(route_entries(result) == merged_routes(app_s, pages_s.take(0)));
        lemma_merged_unique(app_s, pages_s.take(0));
    }

    let pn = route_map_len(pages_routes);
    let mut j: usize = 0;
    while j < pn
        invariant
            pn == route_entries(*pages_routes).len(),
            j <= pn,
            pages_s == route_entries(*pages_routes),
            pathnames_unique(app_s),
            pathnames_unique(pages_s),
            pathnames_unique(route_entries(result)),
            route_entries(result) == merged_routes(app_s, pages_s.take(j as int)),
        decreases pn - j,
    {
        let ghost before = route_entries(result);
        let ghost e_spec = pages_s[j as int];
        let e = route_map_entry_at(pages_routes, j);
        let present = route_map_contains(&result, &e.0);
        proof {
            lemma_merged_step(app_s, pages_s, j as int);
        }
        if present {
            route_map_insert(&mut result, e.0, Route::Conflict);
            proof {
                let i = choose|i: int|
                    0 <= i < before.len() && before[i].0 == e_spec.0 && route_entries(result)
                        == #[trigger] before.update(i, (e_spec.0, Route::Conflict));
                assert(route_entries(result) == merged_routes(app_s, pages_s.take(j as int + 1)));
                lemma_unique_after_update(before, i, (e_spec.0, Route::Conflict));
            }
        } else {
            route_map_insert(&mut result, e.0, e.1);
            proof {
                assert(route_entries(result) == before.push(e_spec));
                assert forall|a: int, b: int|
                    0 <= a < b < route_entries(result).len() implies route_entries(
                    result,
                )[a].0 != route_entries(result)[b].0 by {
                    if b == before.len() {
                        assert(before[a].0 != e_spec.0);
                    }
                }
            }
        }
        j += 1;
    }
    proof {
        assert(pages_s.take(pn as int) =~= pages_s);
    }
    result
}

/// An entry is kept by `pages_only` exactly when the pages source holds it
/// and the app source does not register its pathname.
proof fn lemma_pages_only_contains(app: Seq<(Seq<char>, Route)>, pages: Seq<(Seq<char>, Route)>)
    ensures
        forall|e: (Seq<char>, Route)|
            #[trigger] pages_only(app, pages).contains(e) <==> (pages.contains(e)
                && !has_pathname(app, e.0)),
    decreases pages.len(),
{
    if pages.len() == 0 {
    } else {
        let rest = pages.drop_last();
        lemma_pages_only_contains(app, rest);
        assert forall|e: (Seq<char>, Route)|
            #[trigger] pages_only(app, pages).contains(e) implies (pages.contains(e)
            && !has_pathname(app, e.0)) by {
            let po = pages_only(app, pages);
            let pr = pages_only(app, rest);
            let i = choose|i: int| 0 <= i < po.len() && po[i] == e;
            if !has_pathname(app, pages.last().0) {
                assert(po == pr.push(pages.last()));
                if i == po.len() - 1 {
                    assert(e == pages.last());
                    assert(pages[pages.len() - 1] == e);
                } else {
                    assert(po[i] == pr[i]);
                    assert(pr.contains(e));
                    let k = choose|k: int| 0 <= k < rest.len() && rest[k] == e;
                    assert(pages[k] == e);
                }
            } else {
                assert(po == pr);
                assert(pr.contains(e));
                let k = choose|k: int| 0 <= k < rest.len() && rest[k] == e;
                assert(pages[k] == e);
            }
        }
        assert forall|e: (Seq<char>, Route)|
            pages.contains(e) && !has_pathname(app, e.0) implies #[trigger] pages_only(
            app,
            pages,
        ).contains(e) by {
            let i = choose|i: int| 0 <= i < pages.len() && pages[i] == e;
            let po = pages_only(app, pages);
            let pr = pages_only(app, rest);
            if i == pages.len() - 1 {
                assert(pages.last() == e);
                assert(po == pr.push(e));
                assert(po[po.len() - 1] == e);
            } else {
                assert(rest[i] == e);
                assert(rest.contains(e));
                assert(pr.contains(e));
                let k = choose|k: int| 0 <= k < pr.len() && pr[k] == e;
                if !has_pathname(app, pages.last().0) {
                    assert(po == pr.push(pages.last()));
                    assert(po[k] == e);
                } else {
                    assert(po == pr);
                }
                assert(po.contains(e)) by {
                    assert(po[k] == e);
                }
            }
        }
    }
}

/// Pathname-level membership in `pages_only`.
proof fn lemma_pages_only_has(app: Seq<(Seq<char>, Route)>, pages: Seq<(Seq<char>, Route)>)
    ensures
        forall|p: Seq<char>|
            #[trigger] has_pathname(pages_only(app, pages), p) <==> (has_pathname(pages, p)
                && !has_pathname(app, p)),
{
    lemma_pages_only_contains(app, pages);
    let po = pages_only(app, pages);
    assert forall|p: Seq<char>|
        #[trigger] has_pathname(po, p) implies (has_pathname(pages, p) && !has_pathname(
        app,
        p,
    )) by {
        let i = choose|i: int| 0 <= i < po.len() && po[i].0 == p;
        assert(po.contains(po[i]));
        let e = po[i];
        let k = choose|k: int| 0 <= k < pages.len() && pages[k] == e;
        assert(pages[k].0 == p);
    }
    assert forall|p: Seq<char>|
        has_pathname(pages, p) && !has_pathname(app, p) implies #[trigger] has_pathname(
        po,
        p,
    ) by {
        let i = choose|i: int| 0 <= i < pages.len() && pages[i].0 == p;
        assert(pages.contains(pages[i]));
        assert(po.contains(pages[i]));
        let k = choose|k: int| 0 <= k < po.len() && po[k] == pages[i];
        assert(po[k].0 == p);
    }
}

/// `pages_only` keeps pathnames unique when its pages input does.
proof fn lemma_pages_only_unique(app: Seq<(Seq<char>, Route)>, pages: Seq<(Seq<char>, Route)>)
    requires
        pathnames_unique(pages),
    ensures
        pathnames_unique(pages_only(app, pages)),
    decreases pages.len(),
{
    if pages.len() == 0 {
    } else {
        let rest = pages.drop_last();
        assert(pathnames_unique(rest)) by {
            assert(forall|i: int| 0 <= i < rest.len() ==> rest[i] == pages[i]);
        }
        lemma_pages_only_unique(app, rest);
        lemma_pages_only_contains(app, rest);
        let po = pages_only(app, pages);
        let pr = pages_only(app, rest);
        if !has_pathname(app, pages.last().0) {
            assert forall|a: int, b: int| 0 <= a < b < po.len() implies po[a].0 != po[b].0 by {
                if b == po.len() - 1 {
                    assert(pr.contains(pr[a]));
                    let k = choose|k: int| 0 <= k < rest.len() && rest[k] == pr[a];
                    assert(pages[k] == pr[a]);
                    assert(pages[k].0 != pages.last().0);
                }
            }
        }
    }
}

/// A pathname stands in the merge exactly when one of the sources
/// registered it.
proof fn lemma_merged_has(app: Seq<(Seq<char>, Route)>, pages: Seq<(Seq<char>, Route)>)
    ensures
        forall|p: Seq<char>|
            #[trigger] has_pathname(merged_routes(app, pages), p) <==> (has_pathname(app, p)
                || has_pathname(pages, p)),
{
    lemma_pages_only_has(app, pages);
    let m = merged_routes(app, pages);
    let c = conflicted(app, pages);
    let po = pages_only(app, pages);
    assert forall|p: Seq<char>|
        #[trigger] has_pathname(m, p) implies (has_pathname(app, p) || has_pathname(
        pages,
        p,
    )) by {
        let i = choose|i: int| 0 <= i < m.len() && m[i].0 == p;
        if i < c.len() {
            assert(m[i] == c[i]);
            assert(app[i].0 == p);
            assert(has_pathname(app, p));
        } else {
            assert(m[i] == po[i - c.len()]);
            assert(po[i - c.len()].0 == p);
            assert(has_pathname(po, p));
        }
    }
    assert forall|p: Seq<char>|
        has_pathname(app, p) || has_pathname(pages, p) implies #[trigger] has_pathname(
        m,
        p,
    ) by {
        if has_pathname(app, p) {
            let i = choose|i: int| 0 <= i < app.len() && app[i].0 == p;
            assert(m[i] == c[i]);
            assert(m[i].0 == p);
        } else {
            assert(has_pathname(po, p));
            let i = choose|i: int| 0 <= i < po.len() && po[i].0 == p;
            assert(m[c.len() + i] == po[i]);
            assert(m[c.len() + i].0 == p);
        }
    }
}

/// The merge keeps pathnames unique when both sources do.
proof fn lemma_merged_unique(app: Seq<(Seq<char>, Route)>, pages: Seq<(Seq<char>, Route)>)
    requires
        pathnames_unique(app),
        pathnames_unique(pages),
    ensures
        pathnames_unique(merged_routes(app, pages)),
{
    lemma_pages_only_unique(app, pages);
    lemma_pages_only_has(app, pages);
    let m = merged_routes(app, pages);
    let c = conflicted(app, pages);
    let po = pages_only(app, pages);
    assert forall|a: int, b: int| 0 <= a < b < m.len() implies m[a].0 != m[b].0 by {
        if a < c.len() && b >= c.len() {
            assert(m[a].0 == app[a].0);
            assert(m[b].0 == po[b - c.len()].0);
            assert(has_pathname(app, app[a].0));
            if m[a].0 == m[b].0 {
                assert(has_pathname(po, m[b].0)) by {
                    assert(po[b - c.len()].0 == m[b].0);
                }
            }
        }
    }
}

/// How one pages entry extends the merge: a pathname no source registered
/// so far is appended; a pathname the app source registered is overwritten
/// in place with a conflict marker.
proof fn lemma_merged_step(app: Seq<(Seq<char>, Route)>, pages: Seq<(Seq<char>, Route)>, j: int)
    requires
        pathnames_unique(app),
        pathnames_unique(pages),
        0 <= j < pages.len(),
    ensures
        !has_pathname(merged_routes(app, pages.take(j)), pages[j].0) ==> merged_routes(
            app,
            pages.take(j + 1),
        ) == merged_routes(app, pages.take(j)).push(pages[j]),
        has_pathname(merged_routes(app, pages.take(j)), pages[j].0) ==> (forall|i: int|
            0 <= i < merged_routes(app, pages.take(j)).len() && merged_routes(
                app,
                pages.take(j),
            )[i].0 == pages[j].0 ==> merged_routes(app, pages.take(j + 1)) == merged_routes(
                app,
                pages.take(j),
            ).update(i, (pages[j].0, Route::Conflict))),
{
    let e = pages[j];
    let pj = pages.take(j);
    let pj1 = pages.take(j + 1);
    assert(pj1.drop_last() =~= pj);
    assert(pj1.last() == e);
    assert(pages_only(app, pj1) == if has_pathname(app, e.0) {
        pages_only(app, pj)
    } else {
        pages_only(app, pj).push(e)
    });
    assert(!has_pathname(pj, e.0)) by {
        if has_pathname(pj, e.0) {
            let k = choose|k: int| 0 <= k < pj.len() && pj[k].0 == e.0;
            assert(pages[k].0 == pages[j].0);
            assert(false);
        }
    }
    lemma_merged_has(app, pj);
    let mj = merged_routes(app, pj);
    let c = conflicted(app, pj);
    let c1 = conflicted(app, pj1);
    if !has_pathname(mj, e.0) {
        assert(!has_pathname(app, e.0));
        assert(c1 =~= c) by {
            assert forall|i: int| 0 <= i < app.len() implies c1[i] == c[i] by {
                assert(app[i].0 != e.0);
                assert(has_pathname(pj1, app[i].0) == has_pathname(pj, app[i].0)) by {
                    if has_pathname(pj1, app[i].0) {
                        let k = choose|k: int| 0 <= k < pj1.len() && pj1[k].0 == app[i].0;
                        assert(k < pj.len() || pj1[k] == e);
                        if k < pj.len() {
                            assert(pj[k].0 == app[i].0);
                        }
                    }
                    if has_pathname(pj, app[i].0) {
                        let k = choose|k: int| 0 <= k < pj.len() && pj[k].0 == app[i].0;
                        assert(pj1[k].0 == app[i].0);
                    }
                }
            }
        }
        assert(merged_routes(app, pj1) =~= mj.push(e));
    } else {
        assert(has_pathname(app, e.0));
        lemma_merged_unique(app, pj);
        let ia = choose|i: int| 0 <= i < app.len() && app[i].0 == e.0;
        assert(c[ia].0 == e.0);
        assert forall|i: int| 0 <= i < mj.len() && mj[i].0 == e.0 implies merged_routes(
            app,
            pj1,
        ) == mj.update(i, (e.0, Route::Conflict)) by {
            assert(mj[ia].0 == e.0);
            assert(i == ia);
            assert(merged_routes(app, pj1) =~= mj.update(ia, (e.0, Route::Conflict))) by {
                assert forall|k: int| 0 <= k < app.len() implies c1[k] == mj.update(
                    ia,
                    (e.0, Route::Conflict),
                )[k] by {
                    if k == ia {
                        assert(has_pathname(pj1, e.0)) by {
                            assert(pj1[j].0 == e.0);
                        }
                        assert(c1[k] == (e.0, Route::Conflict));
                    } else {
                        assert(app[k].0 != e.0);
                        assert(has_pathname(pj1, app[k].0) == has_pathname(pj, app[k].0)) by {
                            if has_pathname(pj1, app[k].0) {
                                let t = choose|t: int| 0 <= t < pj1.len() && pj1[t].0 == app[k].0;
                                if t < pj.len() {
                                    assert(pj[t].0 == app[k].0);
                                }
                            }
                            if has_pathname(pj, app[k].0) {
                                let t = choose|t: int| 0 <= t < pj.len() && pj[t].0 == app[k].0;
                                assert(pj1[t].0 == app[k].0);
                            }
                        }
                    }
                }
            }
        }
    }
}

/// Merging with an empty pages source returns the app source unchanged;
/// with no app source it returns the pages source unchanged.
pub proof fn lemma_merge_no_pages(app: Seq<(Seq<char>, Route)>)
    ensures
        merged_routes(app, Seq::empty()) == app,
{
    assert(pages_only(app, Seq::empty()) == Seq::<(Seq<char>, Route)>::empty());
    assert(merged_routes(app, Seq::empty()) =~= app);
}

/// When the pathnames are unique, the route registered for the pathname of
/// the entry at `i` is that entry's value.
proof fn lemma_route_for_witness(s: Seq<(Seq<char>, Route)>, i: int)
    requires
        pathnames_unique(s),
        0 <= i < s.len(),
    ensures
        route_for(s, s[i].0) == Some(s[i].1),
{
    assert(has_pathname(s, s[i].0));
    let j = index_of_pathname(s, s[i].0);
    assert(0 <= j < s.len() && s[j].0 == s[i].0);
    assert(j == i);
}

/// When no entry of the app source shares a pathname with the pages source,
/// `pages_only` keeps the pages source unchanged.
proof fn lemma_pages_only_all(app: Seq<(Seq<char>, Route)>, pages: Seq<(Seq<char>, Route)>)
    requires
        forall|i: int| 0 <= i < pages.len() ==> !has_pathname(app, #[trigger] pages[i].0),
    ensures
        pages_only(app, pages) == pages,
    decreases pages.len(),
{
    if pages.len() == 0 {
        assert(pages_only(app, pages) =~= pages);
    } else {
        let rest = pages.drop_last();
        assert(forall|i: int| 0 <= i < rest.len() ==> rest[i] == pages[i]);
        lemma_pages_only_all(app, rest);
        assert(!has_pathname(app, pages.last().0)) by {
            assert(pages.last() == pages[pages.len() - 1]);
        }
        assert(pages_only(app, pages) == rest.push(pages.last()));
        assert(rest.push(pages.last()) =~= pages);
    }
}

/// When the two sources register disjoint pathname sets, the merge is their
/// ordered union: the app entries verbatim, then the pages entries verbatim,
/// and no conflict marker is introduced.
pub proof fn lemma_merge_disjoint(app: Seq<(Seq<char>, Route)>, pages: Seq<(Seq<char>, Route)>)
    requires
        forall|p: Seq<char>| !(#[trigger] has_pathname(app, p) && has_pathname(pages, p)),
    ensures
        merged_routes(app, pages) == app + pages,
        conflict_free(app) && conflict_free(pages) ==> conflict_free(merged_routes(app, pages)),
{
    assert(conflicted(app, pages) =~= app) by {
        assert forall|i: int| 0 <= i < app.len() implies conflicted(app, pages)[i] == app[i] by {
            assert(has_pathname(app, app[i].0));
            assert(!has_pathname(pages, app[i].0));
        }
    }
    assert(pages_only(app, pages) == pages) by {
        assert forall|i: int| 0 <= i < pages.len() implies !has_pathname(
            app,
            #[trigger] pages[i].0,
        ) by {
            assert(has_pathname(pages, pages[i].0));
        }
        lemma_pages_only_all(app, pages);
    }
    let m = merged_routes(app, pages);
    assert(m == app + pages);
    if conflict_free(app) && conflict_free(pages) {
        assert forall|i: int| 0 <= i < m.len() implies m[i].1 != Route::Conflict by {
            if i < app.len() {
                assert(m[i] == app[i]);
            } else {
                assert(m[i] == pages[i - app.len()]);
            }
        }
    }
}

/// The route the merge registers for any pathname: a conflict marker where
/// both sources registered it, the unique contributing source's route where
/// one did, nothing where none did.
pub proof fn lemma_merged_route_for(
    app: Seq<(Seq<char>, Route)>,
    pages: Seq<(Seq<char>, Route)>,
    p: Seq<char>,
)
    requires
        pathnames_unique(app),
        pathnames_unique(pages),
    ensures
        route_for(merged_routes(app, pages), p) == (if has_pathname(app, p) && has_pathname(
            pages,
            p,
        ) {
            Some(Route::Conflict)
        } else if has_pathname(app, p) {
            route_for(app, p)
        } else if has_pathname(pages, p) {
            route_for(pages, p)
        } else {
            None
        }),
{
    lemma_merged_unique(app, pages);
    lemma_merged_has(app, pages);
    lemma_pages_only_has(app, pages);
    lemma_pages_only_contains(app, pages);
    let m = merged_routes(app, pages);
    let c = conflicted(app, pages);
    let po = pages_only(app, pages);
    if has_pathname(app, p) {
        let ia = index_of_pathname(app, p);
        assert(0 <= ia < app.len() && app[ia].0 == p);
        assert(m[ia] == c[ia]);
        lemma_route_for_witness(m, ia);
        lemma_route_for_witness(app, ia);
        if has_pathname(pages, p) {
            assert(c[ia] == (p, Route::Conflict));
        } else {
            assert(c[ia] == app[ia]);
        }
    } else if has_pathname(pages, p) {
        let iq = index_of_pathname(pages, p);
        assert(0 <= iq < pages.len() && pages[iq].0 == p);
        lemma_route_for_witness(pages, iq);
        assert(pages.contains(pages[iq]));
        assert(po.contains(pages[iq]));
        let k = choose|k: int| 0 <= k < po.len() && po[k] == pages[iq];
        assert(m[c.len() + k] == po[k]);
        lemma_route_for_witness(m, c.len() + k);
    } else {
        assert(!has_pathname(m, p));
    }
}

/// For every pathname both sources registered, the merge holds exactly the
/// conflict marker; neither original route value is kept.
pub proof fn lemma_merge_shared_conflict(
    app: Seq<(Seq<char>, Route)>,
    pages: Seq<(Seq<char>, Route)>,
    p: Seq<char>,
)
    requires
        pathnames_unique(app),
        pathnames_unique(pages),
        has_pathname(app, p),
        has_pathname(pages, p),
    ensures
        route_for(merged_routes(app, pages), p) == Some(Route::Conflict),
{
    lemma_merged_route_for(app, pages, p);
}

/// Two entry sequences with unique pathnames and the same pathname set have
/// the same length.
proof fn lemma_unique_same_pathnames_same_len(
    s1: Seq<(Seq<char>, Route)>,
    s2: Seq<(Seq<char>, Route)>,
)
    requires
        pathnames_unique(s1),
        pathnames_unique(s2),
        forall|p: Seq<char>| #[trigger] has_pathname(s1, p) <==> has_pathname(s2, p),
    ensures
        s1.len() == s2.len(),
    decreases s1.len(),
{
    if s1.len() == 0 {
        if s2.len() > 0 {
            assert(has_pathname(s2, s2[0].0));
            assert(has_pathname(s1, s2[0].0));
            assert(false);
        }
    } else {
        let p = s1.last().0;
        assert(has_pathname(s1, p)) by {
            assert(s1[s1.len() - 1].0 == p);
        }
        assert(has_pathname(s2, p));
        let i = choose|i: int| 0 <= i < s2.len() && s2[i].0 == p;
        let r1 = s1.drop_last();
        let r2 = s2.remove(i);
        assert(pathnames_unique(r1)) by {
            assert(forall|k: int| 0 <= k < r1.len() ==> r1[k] == s1[k]);
        }
        s2.remove_ensures(i);
        assert(pathnames_unique(r2)) by {
            assert forall|a: int, b: int| 0 <= a < b < r2.len() implies r2[a].0 != r2[b].0 by {
                let oa: int = if a < i {
                    a
                } else {
                    a + 1
                };
                let ob: int = if b < i {
                    b
                } else {
                    b + 1
                };
                assert(r2[a] == s2[oa]);
                assert(r2[b] == s2[ob]);
            }
        }
        assert forall|q: Seq<char>| #[trigger] has_pathname(r1, q) implies has_pathname(
            r2,
            q,
        ) by {
            let k = choose|k: int| 0 <= k < r1.len() && r1[k].0 == q;
            assert(s1[k].0 == q);
            assert(q != p);
            assert(has_pathname(s1, q));
            assert(has_pathname(s2, q));
            let t = choose|t: int| 0 <= t < s2.len() && s2[t].0 == q;
            assert(t != i);
            if t < i {
                assert(r2[t] == s2[t]);
                assert(r2[t].0 == q);
            } else {
                assert(r2[t - 1] == s2[t]);
                assert(r2[t - 1].0 == q);
            }
        }
        assert forall|q: Seq<char>| #[trigger] has_pathname(r2, q) implies has_pathname(
            r1,
            q,
        ) by {
            let k = choose|k: int| 0 <= k < r2.len() && r2[k].0 == q;
            let ok: int = if k < i {
                k
            } else {
                k + 1
            };
            assert(r2[k] == s2[ok]);
            assert(s2[ok].0 == q);
            assert(q != p) by {
                if q == p {
                    assert(s2[i].0 == p);
                    assert(ok != i);
                }
            }
            assert(has_pathname(s2, q));
            assert(has_pathname(s1, q));
            let t = choose|t: int| 0 <= t < s1.len() && s1[t].0 == q;
            assert(t != s1.len() - 1);
            assert(r1[t] == s1[t]);
            assert(r1[t].0 == q);
        }
        lemma_unique_same_pathnames_same_len(r1, r2);
    }
}

/// The merge's cardinality and its route for every pathname do not depend
/// on the pages source's enumeration order: two pages sources registering
/// the same routes, in whatever order, merge to tables of the same length
/// holding the same route for every pathname.
pub proof fn lemma_merge_order_independent(
    app: Seq<(Seq<char>, Route)>,
    pages1: Seq<(Seq<char>, Route)>,
    pages2: Seq<(Seq<char>, Route)>,
)
    requires
        pathnames_unique(app),
        pathnames_unique(pages1),
        pathnames_unique(pages2),
        forall|p: Seq<char>| #[trigger] route_for(pages1, p) == route_for(pages2, p),
    ensures
        merged_routes(app, pages1).len() == merged_routes(app, pages2).len(),
        forall|p: Seq<char>|
            #[trigger] route_for(merged_routes(app, pages1), p) == route_for(
                merged_routes(app, pages2),
                p,
            ),
{
    assert forall|p: Seq<char>| #[trigger] has_pathname(pages1, p) <==> has_pathname(
        pages2,
        p,
    ) by {
        assert(route_for(pages1, p) == route_for(pages2, p));
    }
    lemma_pages_only_has(app, pages1);
    lemma_pages_only_has(app, pages2);
    lemma_pages_only_unique(app, pages1);
    lemma_pages_only_unique(app, pages2);
    lemma_unique_same_pathnames_same_len(pages_only(app, pages1), pages_only(app, pages2));
    assert forall|p: Seq<char>|
        #[trigger] route_for(merged_routes(app, pages1), p) == route_for(
        merged_routes(app, pages2),
        p,
    ) by {
        lemma_merged_route_for(app, pages1, p);
        lemma_merged_route_for(app, pages2, p);
    }
}

/// Merging an absent app source with a pages source returns the pages
/// source unchanged.
pub proof fn lemma_merge_no_app(pages: Seq<(Seq<char>, Route)>)
    ensures
        merged_routes(Seq::empty(), pages) == pages,
{
    let none = Seq::<(Seq<char>, Route)>::empty();
    assert(conflicted(none, pages) =~= none);
    assert forall|i: int| 0 <= i < pages.len() implies !has_pathname(
        none,
        #[trigger] pages[i].0,
    ) by {}
    lemma_pages_only_all(none, pages);
    assert(merged_routes(none, pages) =~= pages);
}

/// Updating an entry without changing its pathname preserves uniqueness.
proof fn lemma_unique_after_update(
    s: Seq<(Seq<char>, Route)>,
    i: int,
    e: (Seq<char>, Route),
)
    requires
        pathnames_unique(s),
        0 <= i < s.len(),
        s[i].0 == e.0,
    ensures
        pathnames_unique(s.update(i, e)),
{
    let t = s.update(i, e);
    assert forall|a: int, b: int| 0 <= a < b < t.len() implies t[a].0 != t[b].0 by {
        assert(t[a].0 == s[a].0);
        assert(t[b].0 == s[b].0);
    }
}

} // verus!
