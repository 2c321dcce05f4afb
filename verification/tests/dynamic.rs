use next_api::chunking::ChunkingContext;
use next_api::dynamic::{AssetIdent, ModuleRef, NextDynamicEntryModule};
use next_api::fs::{FsName, FsPath};
use next_api::project::{NextConfig, Project, ProjectOptions};
use next_api::ProjectError;

fn client_context() -> ChunkingContext {
    let p = Project::new(
        ProjectOptions {
            root_path: "/r".to_string(),
            project_path: "/r/app".to_string(),
            next_config: "{}".to_string(),
            watch: false,
            memory_limit: None,
        },
        Some(NextConfig { source: "{}".to_string() }),
        '/',
    )
    .unwrap();
    p.client_chunking_context()
}

fn module(chunkable: bool) -> ModuleRef {
    ModuleRef {
        ident: AssetIdent {
            path: FsPath { fs: FsName::Project, path: "app/widget.js".to_string() },
            modifiers: vec!["client".to_string()],
        },
        chunkable,
    }
}

#[test]
fn content_always_fails_with_asset_error() {
    let m = NextDynamicEntryModule::new(module(true));
    assert!(matches!(m.content(), Err(ProjectError::Asset)));
    // A second read fails the same way: the marker never becomes readable.
    assert!(matches!(m.content(), Err(ProjectError::Asset)));
}

#[test]
fn references_are_always_empty() {
    let chunkable = NextDynamicEntryModule::new(module(true));
    assert!(chunkable.references().is_empty());
    let unchunkable = NextDynamicEntryModule::new(module(false));
    assert!(unchunkable.references().is_empty());
}

#[test]
fn ident_adds_the_dynamic_modifier() {
    let m = NextDynamicEntryModule::new(module(true));
    let ident = m.ident();
    assert_eq!(ident.path.fs, FsName::Project);
    assert_eq!(ident.path.path, "app/widget.js");
    assert_eq!(ident.modifiers, vec!["client".to_string(), "dynamic".to_string()]);
}

#[test]
fn client_chunks_fails_on_unchunkable_module() {
    let m = NextDynamicEntryModule::new(module(false));
    let ctx = client_context();
    assert!(matches!(m.client_chunks(&ctx), Err(ProjectError::Chunkability)));
}

#[test]
fn client_chunks_returns_nonempty_deterministic_bundles() {
    let m = NextDynamicEntryModule::new(module(true));
    let ctx = client_context();
    let first = m.client_chunks(&ctx).unwrap();
    let second = m.client_chunks(&ctx).unwrap();
    assert!(!first.is_empty());
    assert_eq!(first.len(), second.len());
    assert_eq!(first[0].root.path.path, second[0].root.path.path);
    assert_eq!(first[0].root.modifiers, second[0].root.modifiers);
    assert_eq!(first[0].output_root.fs, second[0].output_root.fs);
    assert_eq!(first[0].output_root.path, second[0].output_root.path);
    // The group is rooted at the wrapped module under the context's output
    // root.
    assert_eq!(first[0].root.path.path, "app/widget.js");
    assert_eq!(first[0].root.modifiers, vec!["client".to_string()]);
    assert_eq!(first[0].output_root.fs, FsName::Client);
    assert_eq!(first[0].output_root.path, "");
}

#[test]
fn wrapping_keeps_the_module_identity() {
    let m = NextDynamicEntryModule::new(module(true));
    assert!(m.client_entry_module.chunkable);
    assert_eq!(m.client_entry_module.ident.path.path, "app/widget.js");
}
