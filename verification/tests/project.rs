use indexmap::IndexMap;
use next_api::chunking::{ChunkingContext, ContextKind, TargetEnvironment};
use next_api::fs::{FsKind, FsName};
use next_api::paths::project_relative_path;
use next_api::project::{NextConfig, NextMode, Project, ProjectOptions};
use next_api::route::Route;
use next_api::ProjectError;

fn options() -> ProjectOptions {
    ProjectOptions {
        root_path: "/r".to_string(),
        project_path: "/r/sub/app".to_string(),
        next_config: "{}".to_string(),
        watch: true,
        memory_limit: None,
    }
}

fn config() -> NextConfig {
    NextConfig { source: "{}".to_string() }
}

fn project() -> Project {
    Project::new(options(), Some(config()), '/').unwrap()
}

#[test]
fn relative_path_of_nested_project() {
    let r = project_relative_path("/r", "/r/sub/app", '/').unwrap();
    assert_eq!(r, "sub/app");
}

#[test]
fn relative_path_of_root_itself_is_empty() {
    let r = project_relative_path("/r", "/r", '/').unwrap();
    assert_eq!(r, "");
}

#[test]
fn relative_path_outside_root_fails() {
    let r = project_relative_path("/r", "/other", '/');
    assert_eq!(r, Err(ProjectError::Path));
}

#[test]
fn relative_path_canonicalizes_separators() {
    let r = project_relative_path("C:\\r", "C:\\r\\sub\\app", '\\').unwrap();
    assert_eq!(r, "sub/app");
}

#[test]
fn construction_fails_on_unparsed_config() {
    let r = Project::new(options(), None, '/');
    assert!(matches!(r, Err(ProjectError::Config)));
}

#[test]
fn construction_fails_on_project_outside_root() {
    let mut o = options();
    o.project_path = "/elsewhere/app".to_string();
    let r = Project::new(o, Some(config()), '/');
    assert!(matches!(r, Err(ProjectError::Path)));
}

#[test]
fn construction_fixes_defaults() {
    let p = project();
    assert_eq!(p.mode, NextMode::Development);
    assert_eq!(
        p.browserslist_query,
        "last 1 Chrome versions, last 1 Firefox versions, last 1 Safari versions, last 1 Edge \
         versions"
    );
    assert_eq!(p.root_path, "/r");
    assert_eq!(p.project_path, "/r/sub/app");
    assert!(p.watch);
    assert_eq!(p.project_rel, "sub/app");
    assert_eq!(p.next_config.source, "{}");
}

#[test]
fn overlay_roots_and_watching() {
    let p = project();
    let pf = p.project_fs();
    assert_eq!(pf.name, FsName::Project);
    assert_eq!(pf.kind, FsKind::Disk);
    assert_eq!(pf.backing_path.as_deref(), Some("/r"));
    assert!(pf.watching);

    let unwatched = Project::new(
        ProjectOptions { watch: false, ..options() },
        Some(config()),
        '/',
    )
    .unwrap()
    .project_fs();
    assert!(!unwatched.watching);

    let cf = p.client_fs();
    assert_eq!(cf.name, FsName::Client);
    assert_eq!(cf.kind, FsKind::Virtual);
    assert_eq!(cf.backing_path, None);
    assert!(!cf.watching);

    let nf = p.node_fs();
    assert_eq!(nf.name, FsName::Node);
    assert_eq!(nf.kind, FsKind::Disk);
    assert_eq!(nf.backing_path.as_deref(), Some("/r/sub/app"));
    assert!(nf.watching);
}

#[test]
fn derived_paths() {
    let p = project();
    let nr = p.node_root();
    assert_eq!(nr.fs, FsName::Node);
    assert_eq!(nr.path, ".next");
    let cr = p.client_root();
    assert_eq!(cr.fs, FsName::Client);
    assert_eq!(cr.path, "");
    let crp = p.client_relative_path();
    assert_eq!(crp.fs, FsName::Client);
    assert_eq!(crp.path, "_next");
    let pp = p.project_path();
    assert_eq!(pp.fs, FsName::Project);
    assert_eq!(pp.path, "sub/app");
    let e = p.env();
    assert_eq!(e.path.fs, FsName::Project);
    assert_eq!(e.path.path, "sub/app");
}

#[test]
fn execution_context_roots() {
    let p = project();
    let x = p.execution_context();
    assert_eq!(x.project_path.path, "sub/app");
    let c = x.chunking_context;
    assert_eq!(c.kind, ContextKind::Development);
    assert_eq!(c.output_root.fs, FsName::Node);
    assert_eq!(c.output_root.path, ".next");
    assert_eq!(c.chunk_root.as_ref().unwrap().path, ".next/chunks");
    assert_eq!(c.asset_root.as_ref().unwrap().path, ".next/assets");
    assert!(matches!(c.environment, TargetEnvironment::NodeBuild));
    assert!(c.layer.is_none());
    assert_eq!(x.env.path.path, "sub/app");
}

#[test]
fn compile_time_info_targets() {
    let p = project();
    let client = p.client_compile_time_info();
    assert_eq!(client.mode, NextMode::Development);
    match client.environment {
        TargetEnvironment::Browser { browserslist_query } => {
            assert_eq!(browserslist_query, p.browserslist_query);
        }
        _ => panic!("client target must be a browser"),
    }
    let server = p.server_compile_time_info();
    match server.environment {
        TargetEnvironment::NodeServer { env, server_addr } => {
            assert_eq!(env.path.path, "sub/app");
            assert_eq!(server_addr, None);
        }
        _ => panic!("server target must be a node server"),
    }
}

fn assert_contexts_interchangeable(a: &ChunkingContext, b: &ChunkingContext) {
    assert_eq!(a.kind, b.kind);
    assert_eq!(a.project_path.fs, b.project_path.fs);
    assert_eq!(a.project_path.path, b.project_path.path);
    assert_eq!(a.output_root.fs, b.output_root.fs);
    assert_eq!(a.output_root.path, b.output_root.path);
    assert_eq!(a.layer, b.layer);
}

#[test]
fn chunking_context_family() {
    let p = project();
    let client = p.client_chunking_context();
    assert_eq!(client.kind, ContextKind::Development);
    assert_eq!(client.output_root.fs, FsName::Client);
    assert_eq!(client.output_root.path, "");
    assert!(client.layer.is_none());

    let server = p.server_chunking_context();
    assert_eq!(server.kind, ContextKind::Build);
    assert_eq!(server.output_root.fs, FsName::Node);
    assert_eq!(server.output_root.path, ".next");
    assert_eq!(server.client_root.as_ref().unwrap().fs, FsName::Client);
    assert!(server.layer.is_none());

    let ssr = p.ssr_chunking_context();
    assert_eq!(ssr.kind, ContextKind::Build);
    assert_eq!(ssr.layer.as_deref(), Some("ssr"));
    let ssr_data = p.ssr_data_chunking_context();
    assert_eq!(ssr_data.layer.as_deref(), Some("ssr data"));
    let rsc = p.rsc_chunking_context();
    assert_eq!(rsc.layer.as_deref(), Some("rsc"));
    assert_eq!(rsc.kind, ContextKind::Build);
}

#[test]
fn layered_derivation_is_interchangeable() {
    let p = project();
    let first = p.ssr_chunking_context();
    let second = p.ssr_chunking_context();
    assert_contexts_interchangeable(&first, &second);
    let with_layer_once = p.server_chunking_context().with_layer("rsc".to_string());
    let with_layer_twice = p.server_chunking_context().with_layer("rsc".to_string());
    assert_contexts_interchangeable(&with_layer_once, &with_layer_twice);
    assert_contexts_interchangeable(&with_layer_once, &p.rsc_chunking_context());
}

#[test]
fn entrypoints_merges_and_leaves_middleware_empty() {
    let p = project();
    let mut app = IndexMap::new();
    app.insert("/a".to_string(), Route::Endpoint(1));
    let mut pages = IndexMap::new();
    pages.insert("/a".to_string(), Route::Endpoint(2));
    pages.insert("/b".to_string(), Route::Endpoint(3));
    let e = p.entrypoints(Some(&app), &pages);
    assert!(e.middleware.is_none());
    assert_eq!(e.routes.get("/a"), Some(&Route::Conflict));
    assert_eq!(e.routes.get("/b"), Some(&Route::Endpoint(3)));
    assert_eq!(e.routes.len(), 2);
}

#[test]
fn app_and_pages_projects() {
    let p = project();
    let dir = p.project_path();
    let a = p.app_project(Some(dir)).unwrap();
    assert_eq!(a.mode, NextMode::Development);
    assert_eq!(a.dir.path, "sub/app");
    assert!(p.app_project(None).is_none());
    let pages = p.pages_project();
    assert_eq!(pages.mode, NextMode::Development);
}

#[test]
fn hmr_events_completes_immediately() {
    let p = project();
    p.hmr_events("group".to_string());
}

#[test]
fn free_project_fs_builder() {
    let fs = next_api::project::project_fs("/dir".to_string(), false);
    assert_eq!(fs.name, FsName::Project);
    assert_eq!(fs.backing_path.as_deref(), Some("/dir"));
    assert!(!fs.watching);
}
