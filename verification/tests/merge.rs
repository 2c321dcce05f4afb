use indexmap::IndexMap;
use next_api::route::{merge_routes, Route};

fn map_of(pairs: &[(&str, Route)]) -> IndexMap<String, Route> {
    let mut m = IndexMap::new();
    for (k, v) in pairs {
        m.insert(k.to_string(), *v);
    }
    m
}

#[test]
fn merge_example_scenario() {
    let app = map_of(&[("/a", Route::Endpoint(1))]);
    let pages = map_of(&[("/a", Route::Endpoint(2)), ("/b", Route::Endpoint(3))]);
    let r = merge_routes(Some(&app), &pages);
    assert_eq!(r.len(), 2);
    assert_eq!(r.get("/a"), Some(&Route::Conflict));
    assert_eq!(r.get("/b"), Some(&Route::Endpoint(3)));
    let (k0, v0) = r.get_index(0).unwrap();
    assert_eq!((k0.as_str(), *v0), ("/a", Route::Conflict));
    let (k1, v1) = r.get_index(1).unwrap();
    assert_eq!((k1.as_str(), *v1), ("/b", Route::Endpoint(3)));
}

#[test]
fn merge_disjoint_is_union_without_conflicts() {
    let app = map_of(&[("/x", Route::Endpoint(10)), ("/y", Route::Endpoint(11))]);
    let pages = map_of(&[("/p", Route::Endpoint(20)), ("/q", Route::Endpoint(21))]);
    let r = merge_routes(Some(&app), &pages);
    assert_eq!(r.len(), 4);
    assert_eq!(r.get("/x"), Some(&Route::Endpoint(10)));
    assert_eq!(r.get("/y"), Some(&Route::Endpoint(11)));
    assert_eq!(r.get("/p"), Some(&Route::Endpoint(20)));
    assert_eq!(r.get("/q"), Some(&Route::Endpoint(21)));
    assert!(r.values().all(|v| *v != Route::Conflict));
    // App entries first, pages entries after, each in enumeration order.
    let keys: Vec<&str> = r.keys().map(|k| k.as_str()).collect();
    assert_eq!(keys, vec!["/x", "/y", "/p", "/q"]);
}

#[test]
fn merge_shared_pathnames_conflict_and_lose_both_values() {
    let app = map_of(&[("/a", Route::Endpoint(1)), ("/b", Route::Endpoint(2))]);
    let pages = map_of(&[("/b", Route::Endpoint(3)), ("/c", Route::Endpoint(4))]);
    let r = merge_routes(Some(&app), &pages);
    assert_eq!(r.get("/b"), Some(&Route::Conflict));
    // Neither source's value survives anywhere in the result.
    assert!(r.values().all(|v| *v != Route::Endpoint(2)));
    assert!(r.values().all(|v| *v != Route::Endpoint(3)));
}

#[test]
fn merge_is_independent_of_pages_order() {
    let app = map_of(&[("/a", Route::Endpoint(1))]);
    let pages1 = map_of(&[
        ("/a", Route::Endpoint(5)),
        ("/m", Route::Endpoint(6)),
        ("/n", Route::Endpoint(7)),
    ]);
    let pages2 = map_of(&[
        ("/n", Route::Endpoint(7)),
        ("/a", Route::Endpoint(5)),
        ("/m", Route::Endpoint(6)),
    ]);
    let r1 = merge_routes(Some(&app), &pages1);
    let r2 = merge_routes(Some(&app), &pages2);
    assert_eq!(r1.len(), r2.len());
    for key in ["/a", "/m", "/n"] {
        assert_eq!(r1.get(key), r2.get(key));
    }
    assert_eq!(r1.get("/a"), Some(&Route::Conflict));
}

#[test]
fn merge_with_empty_pages_is_app() {
    let app = map_of(&[("/a", Route::Endpoint(1)), ("/b", Route::Endpoint(2))]);
    let pages = map_of(&[]);
    let r = merge_routes(Some(&app), &pages);
    assert_eq!(r, app);
    let keys: Vec<&str> = r.keys().map(|k| k.as_str()).collect();
    assert_eq!(keys, vec!["/a", "/b"]);
}

#[test]
fn merge_with_absent_app_is_pages() {
    let pages = map_of(&[("/a", Route::Endpoint(1)), ("/b", Route::Endpoint(2))]);
    let r = merge_routes(None, &pages);
    assert_eq!(r, pages);
    let keys: Vec<&str> = r.keys().map(|k| k.as_str()).collect();
    assert_eq!(keys, vec!["/a", "/b"]);
}

#[test]
fn merge_of_two_empty_sources_is_empty() {
    let pages = map_of(&[]);
    let r = merge_routes(None, &pages);
    assert!(r.is_empty());
}
