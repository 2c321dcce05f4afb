//! The project model: configuration, overlay roots, derived paths, and the
//! entry-point accessor.
//!
//! A project is constructed once per build session from its options; every
//! other value is derived on demand from it. Construction validates what
//! later accessors rely on: the configuration must have parsed, and the
//! project directory must be nested under the root directory.

use vstd::prelude::*;
use vstd::string::*;
use indexmap::IndexMap;
use crate::ProjectError;
use crate::fs::{FsKind, FsName, FsPath, OverlayFs};
use crate::paths::{project_relative_path, relative_path_spec, starts_with};
use crate::route::{
    Entrypoints, Route, merge_routes, merged_routes, optional_entries, pathnames_unique,
    route_entries,
};

verus! {

/// The mode a build session runs in; this core always constructs
/// development-mode projects.
#[derive(Clone, Copy, Debug, PartialEq, Eq, Structural)]
pub enum NextMode {
    Development,
    Build,
}

/// The options a project is constructed from. Immutable once passed in.
pub struct ProjectOptions {
    /// A root path from which all files must be nested under. Trying to
    /// access a file outside this root will fail. Think of this as a
    /// chroot.
    pub root_path: String,
    /// A path inside the root_path which contains the app/pages
    /// directories.
    pub project_path: String,
    /// The contents of next.config.js, serialized to JSON.
    pub next_config: String,
    /// Whether to watch the filesystem for file changes.
    pub watch: bool,
    /// An upper bound of memory the bundler will attempt to stay under;
    /// accepted but not enforced by this core.
    pub memory_limit: Option<u64>,
}

/// The structured configuration the external parser derives from the
/// serialized configuration text; its contents are opaque to this core.
pub struct NextConfig {
    /// The serialized text the configuration was parsed from.
    pub source: String,
}

/// Where the external loader reads process environment variables from.
pub struct EnvSource {
    /// The path the environment is scoped under.
    pub path: FsPath,
}

/// The app-directory side of a project, present only when an app directory
/// was discovered.
pub struct AppProject {
    /// The discovered app directory.
    pub dir: FsPath,
    /// The mode the project was constructed in.
    pub mode: NextMode,
}

/// The pages-directory side of a project; always present.
pub struct PagesProject {
    /// The mode the project was constructed in.
    pub mode: NextMode,
}

/// The default browser-support query client bundles are compiled for.
pub open spec fn default_browserslist_query() -> Seq<char> {
    "last 1 Chrome versions, last 1 Firefox versions, last 1 Safari versions, last 1 Edge versions"@
}

/// A build session's project: its configuration and the values every other
/// accessor is derived from. Never mutated after construction.
pub struct Project {
    /// A root path from which all files must be nested under.
    pub root_path: String,
    /// A path inside the root_path which contains the app/pages
    /// directories.
    pub project_path: String,
    /// Whether to watch the filesystem for file changes.
    pub watch: bool,
    /// The parsed configuration.
    pub next_config: NextConfig,
    /// The browser-support query client bundles are compiled for.
    pub browserslist_query: String,
    /// The mode of this build session.
    pub mode: NextMode,
    /// `project_path` relative to `root_path`, separators canonicalized;
    /// computed and validated at construction.
    pub project_rel: String,
}

impl Project {
    /// Construct a project. `parsed_config` is the external configuration
    /// parser's outcome for `options.next_config` (`None` when parsing
    /// failed); `sep` is the platform pathname separator the option paths
    /// are written with. Fails with a configuration error when parsing
    /// failed, and with a path error when `project_path` is not nested
    /// under `root_path`.
    pub fn new(options: ProjectOptions, parsed_config: Option<NextConfig>, sep: char) -> (r:
        Result<Project, ProjectError>)
        ensures
            match r {
                Ok(p) => {
                    &&& parsed_config matches Some(c) && p.next_config == c
                    &&& starts_with(options.project_path@, options.root_path@)
                    &&& p.root_path == options.root_path
                    &&& p.project_path == options.project_path
                    &&& p.watch == options.watch
                    &&& p.browserslist_query@ == default_browserslist_query()
                    &&& p.mode == NextMode::Development
                    &&& p.project_rel@ == relative_path_spec(
                        options.root_path@,
                        options.project_path@,
                        sep,
                    )
                },
                Err(e) => {
                    &&& (parsed_config is None ==> e == ProjectError::Config)
                    &&& (parsed_config is Some ==> e == ProjectError::Path && !starts_with(
                        options.project_path@,
                        options.root_path@,
                    ))
                },
            },
    {
        let config = match parsed_config {
            Some(c) => c,
            None => {
                return Err(ProjectError::Config);
            },
        };
        let rel = match project_relative_path(
            options.root_path.as_str(),
            options.project_path.as_str(),
            sep,
        ) {
            Ok(p) => p,
            Err(e) => {
                return Err(e);
            },
        };
        Ok(
            Project {
                root_path: options.root_path,
                project_path: options.project_path,
                watch: options.watch,
                next_config: config,
                browserslist_query: String::from_str(
                    "last 1 Chrome versions, last 1 Firefox versions, last 1 Safari versions, last 1 Edge versions",
                ),
                mode: NextMode::Development,
                project_rel: rel,
            },
        )
    }

    /// The app side of the project, wrapped around the externally
    /// discovered app directory; absent when no app directory was found.
    pub fn app_project(&self, app_dir: Option<FsPath>) -> (r: Option<AppProject>)
        ensures
            match app_dir {
                Some(d) => r matches Some(a) && a.dir == d && a.mode == self.mode,
                None => r is None,
            },
    {
        match app_dir {
            Some(d) => Some(AppProject { dir: d, mode: self.mode }),
            None => None,
        }
    }

    /// The pages side of the project; always present.
    pub fn pages_project(&self) -> (r: PagesProject)
        ensures
            r.mode == self.mode,
    {
        PagesProject { mode: self.mode }
    }

    /// The disk-backed project overlay, rooted at `root_path`; watching
    /// starts only when the options requested it.
    pub fn project_fs(&self) -> (fs: OverlayFs)
        ensures
            fs.name == FsName::Project,
            fs.kind == FsKind::Disk,
            fs.backing_path matches Some(b) && b == self.root_path,
            fs.watching == self.watch,
            fs.wf(),
    {
        OverlayFs {
            name: FsName::Project,
            kind: FsKind::Disk,
            backing_path: Some(self.root_path.clone()),
            watching: self.watch,
        }
    }

    /// The virtual client overlay: no backing store, never watched.
    pub fn client_fs(&self) -> (fs: OverlayFs)
        ensures
            fs.name == FsName::Client,
            fs.kind == FsKind::Virtual,
            fs.backing_path is None,
            !fs.watching,
            fs.wf(),
    {
        OverlayFs {
            name: FsName::Client,
            kind: FsKind::Virtual,
            backing_path: None,
            watching: false,
        }
    }

    /// The disk-backed node overlay, rooted at `project_path`; always
    /// watched.
    pub fn node_fs(&self) -> (fs: OverlayFs)
        ensures
            fs.name == FsName::Node,
            fs.kind == FsKind::Disk,
            fs.backing_path matches Some(b) && b == self.project_path,
            fs.watching,
            fs.wf(),
    {
        OverlayFs {
            name: FsName::Node,
            kind: FsKind::Disk,
            backing_path: Some(self.project_path.clone()),
            watching: true,
        }
    }

    /// The server-targeted output directory under the node overlay.
    pub fn node_root(&self) -> (r: FsPath)
        ensures
            r.fs == FsName::Node,
            r.path@ == ".next"@,
    {
        self.node_fs().root().join(".next")
    }

    /// The root of the client overlay.
    pub fn client_root(&self) -> (r: FsPath)
        ensures
            r.fs == FsName::Client,
            r.path@ == Seq::<char>::empty(),
    {
        self.client_fs().root()
    }

    /// The root of the project overlay.
    pub fn project_root_path(&self) -> (r: FsPath)
        ensures
            r.fs == FsName::Project,
            r.path@ == Seq::<char>::empty(),
    {
        self.project_fs().root()
    }

    /// Where public client assets are addressed under the client overlay.
    pub fn client_relative_path(&self) -> (r: FsPath)
        ensures
            r.fs == FsName::Client,
            r.path@ == "_next"@,
    {
        self.client_root().join("_next")
    }

    /// The project directory under the project overlay.
    pub fn project_path(&self) -> (r: FsPath)
        ensures
            r.fs == FsName::Project,
            r.path@ == self.project_rel@,
    {
        FsPath { fs: FsName::Project, path: self.project_rel.clone() }
    }

    /// The environment view an external loader provides, scoped under the
    /// resolved project path.
    pub fn env(&self) -> (e: EnvSource)
        ensures
            e.path.fs == FsName::Project,
            e.path.path@ == self.project_rel@,
    {
        EnvSource { path: self.project_path() }
    }

    /// The parsed configuration.
    pub fn next_config(&self) -> (c: NextConfig)
        ensures
            c == self.next_config,
    {
        NextConfig { source: self.next_config.source.clone() }
    }

    /// Merge the app-sourced and pages-sourced route tables into the
    /// project's entry points: every pathname maps to exactly one route,
    /// a conflict marker exactly where both sources registered it; the
    /// middleware marker is always absent in this core.
    pub fn entrypoints(
        &self,
        app_routes: Option<&IndexMap<String, Route>>,
        pages_routes: &IndexMap<String, Route>,
    ) -> (e: Entrypoints)
        requires
            pathnames_unique(optional_entries(app_routes)),
            pathnames_unique(route_entries(*pages_routes)),
        ensures
            route_entries(e.routes) == merged_routes(
                optional_entries(app_routes),
                route_entries(*pages_routes),
            ),
            pathnames_unique(route_entries(e.routes)),
            e.middleware is None,
    {
        Entrypoints { routes: merge_routes(app_routes, pages_routes), middleware: None }
    }

    /// Declared subscription point for change events of the chunk group
    /// known by `identifier`: performs no work and completes immediately.
    /// Present to fix the public contract shape ahead of a real
    /// implementation.
    pub fn hmr_events(&self, _identifier: String) {
    }
}

/// The disk-backed project overlay for a caller that holds the directory
/// and watch flag alone.
pub fn project_fs(project_dir: String, watching: bool) -> (fs: OverlayFs)
    ensures
        fs.name == FsName::Project,
        fs.kind == FsKind::Disk,
        fs.backing_path matches Some(b) && b == project_dir,
        fs.watching == watching,
        fs.wf(),
{
    OverlayFs {
        name: FsName::Project,
        kind: FsKind::Disk,
        backing_path: Some(project_dir),
        watching,
    }
}

} // verus!
