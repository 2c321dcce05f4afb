//! The chunking-context factory: the family of build contexts that govern
//! how transformed modules are grouped into deliverable output bundles.
//!
//! Five purpose-specific contexts are derived from a project: the client
//! and server contexts are built directly from the overlay roots and the
//! compile-time target info; the ssr, ssr-data and rsc contexts are layered
//! variants of the server context, differing only by a namespace
//! discriminator. Layering preserves the context's concrete kind by
//! construction, so a layered derivation can never change what kind of
//! context is produced.

use vstd::prelude::*;
use vstd::string::*;
use crate::fs::{FsName, FsPath, join_seq};
use crate::project::{EnvSource, NextMode, Project};

verus! {

/// The concrete kind of a chunking context.
#[derive(Clone, Copy, Debug, PartialEq, Eq, Structural)]
pub enum ContextKind {
    /// A development-style context, chunking for fast rebuilds.
    Development,
    /// A build-style context, chunking for optimized output.
    Build,
}

/// The target a set of bundles is compiled for.
pub enum TargetEnvironment {
    /// A browser target, described by a browser-support query.
    Browser { browserslist_query: String },
    /// A server target with access to process environment variables; the
    /// network address is a placeholder left unset by this core.
    NodeServer { env: EnvSource, server_addr: Option<String> },
    /// The build-time target that evaluates build scripts.
    NodeBuild,
}

/// Environment and target info for one family of bundles.
pub struct CompileTimeInfo {
    pub environment: TargetEnvironment,
    pub mode: NextMode,
}

/// A chunking context: the roots and target info handed to the external
/// context builder, plus the layer discriminator of a layered variant.
pub struct ChunkingContext {
    pub kind: ContextKind,
    /// The project directory the chunked modules live under.
    pub project_path: FsPath,
    /// Where the produced bundles are addressed.
    pub output_root: FsPath,
    /// Where chunks are placed, when the builder was handed a dedicated
    /// chunk directory.
    pub chunk_root: Option<FsPath>,
    /// Where static assets are placed, when the builder was handed a
    /// dedicated asset directory.
    pub asset_root: Option<FsPath>,
    /// The client root server-targeted output refers to for asset URLs.
    pub client_root: Option<FsPath>,
    /// The target the context compiles for.
    pub environment: TargetEnvironment,
    /// The namespace discriminator of a layered variant.
    pub layer: Option<String>,
}

/// The layered variant of a context: the same context under a namespace
/// discriminator.
pub open spec fn with_layer_spec(c: ChunkingContext, layer: String) -> ChunkingContext {
    ChunkingContext { layer: Some(layer), ..c }
}

impl ChunkingContext {
    /// Derive the variant of this context tagged with `layer`. The result
    /// is the same context but for its discriminator; in particular its
    /// concrete kind is unchanged.
    pub fn with_layer(self, layer: String) -> (r: ChunkingContext)
        ensures
            r == with_layer_spec(self, layer),
            r.kind == self.kind,
    {
        ChunkingContext { layer: Some(layer), ..self }
    }
}

/// View-level equality of paths: same root, same location.
pub open spec fn path_eq(a: FsPath, b: FsPath) -> bool {
    a.fs == b.fs && a.path@ == b.path@
}

/// View-level equality of optional paths.
pub open spec fn opt_path_eq(a: Option<FsPath>, b: Option<FsPath>) -> bool {
    match (a, b) {
        (Option::None, Option::None) => true,
        (Option::Some(x), Option::Some(y)) => path_eq(x, y),
        _ => false,
    }
}

/// View-level equality of optional strings.
pub open spec fn opt_string_eq(a: Option<String>, b: Option<String>) -> bool {
    match (a, b) {
        (Option::None, Option::None) => true,
        (Option::Some(x), Option::Some(y)) => x@ == y@,
        _ => false,
    }
}

/// View-level equality of target environments.
pub open spec fn env_eq(a: TargetEnvironment, b: TargetEnvironment) -> bool {
    match (a, b) {
        (
            TargetEnvironment::Browser { browserslist_query: q1 },
            TargetEnvironment::Browser { browserslist_query: q2 },
        ) => q1@ == q2@,
        (
            TargetEnvironment::NodeServer { env: e1, server_addr: s1 },
            TargetEnvironment::NodeServer { env: e2, server_addr: s2 },
        ) => path_eq(e1.path, e2.path) && opt_string_eq(s1, s2),
        (TargetEnvironment::NodeBuild, TargetEnvironment::NodeBuild) => true,
        _ => false,
    }
}

/// View-level equality of chunking contexts: everything a consumer can
/// observe of them agrees, so the two are interchangeable as identity and
/// caching keys.
pub open spec fn context_eq(a: ChunkingContext, b: ChunkingContext) -> bool {
    &&& a.kind == b.kind
    &&& path_eq(a.project_path, b.project_path)
    &&& path_eq(a.output_root, b.output_root)
    &&& opt_path_eq(a.chunk_root, b.chunk_root)
    &&& opt_path_eq(a.asset_root, b.asset_root)
    &&& opt_path_eq(a.client_root, b.client_root)
    &&& env_eq(a.environment, b.environment)
    &&& opt_string_eq(a.layer, b.layer)
}

/// Deriving the same named layer from interchangeable base contexts yields
/// interchangeable contexts: a consumer keying on a layered context's
/// observable content treats the two derivations as the same context.
pub proof fn lemma_with_layer_deterministic(
    base1: ChunkingContext,
    base2: ChunkingContext,
    layer1: String,
    layer2: String,
)
    requires
        context_eq(base1, base2),
        layer1@ == layer2@,
    ensures
        context_eq(with_layer_spec(base1, layer1), with_layer_spec(base2, layer2)),
{
}

/// What the client chunking context is built from: the project path, the
/// client root as output root, and the browser target, unlayered.
pub open spec fn is_client_chunking_context(p: Project, c: ChunkingContext) -> bool {
    &&& c.kind == ContextKind::Development
    &&& c.project_path.fs == FsName::Project && c.project_path.path@ == p.project_rel@
    &&& c.output_root.fs == FsName::Client && c.output_root.path@ == Seq::<char>::empty()
    &&& c.chunk_root is None
    &&& c.asset_root is None
    &&& c.client_root is None
    &&& c.environment == (TargetEnvironment::Browser { browserslist_query: p.browserslist_query })
    &&& c.layer is None
}

/// What the server chunking context and its layered variants are built
/// from: the project path, the node root as output root, the client root
/// for asset URLs, and the server target; `layer` names the variant's
/// discriminator, `None` for the base context.
pub open spec fn is_server_chunking_context(
    p: Project,
    c: ChunkingContext,
    layer: Option<Seq<char>>,
) -> bool {
    &&& c.kind == ContextKind::Build
    &&& c.project_path.fs == FsName::Project && c.project_path.path@ == p.project_rel@
    &&& c.output_root.fs == FsName::Node && c.output_root.path@ == ".next"@
    &&& c.chunk_root is None
    &&& c.asset_root is None
    &&& c.client_root matches Some(cr) && cr.fs == FsName::Client && cr.path@ == Seq::<
        char,
    >::empty()
    &&& c.environment matches TargetEnvironment::NodeServer { env, server_addr }
        && env.path.fs == FsName::Project && env.path.path@ == p.project_rel@
        && server_addr is None
    &&& match layer {
        Option::None => c.layer is None,
        Option::Some(l) => c.layer matches Some(s) && s@ == l,
    }
}

/// The execution handle build-time code runs under: the project path, a
/// dedicated build-time chunking context, and the environment view.
pub struct ExecutionContext {
    pub project_path: FsPath,
    pub chunking_context: ChunkingContext,
    pub env: EnvSource,
}

impl Project {
    /// Environment and target info for client bundles, from the fixed
    /// browser-support query and the project's mode.
    pub fn client_compile_time_info(&self) -> (r: CompileTimeInfo)
        ensures
            r.mode == self.mode,
            r.environment == (TargetEnvironment::Browser {
                browserslist_query: self.browserslist_query,
            }),
    {
        CompileTimeInfo {
            environment: TargetEnvironment::Browser {
                browserslist_query: self.browserslist_query.clone(),
            },
            mode: self.mode,
        }
    }

    /// Environment and target info for server bundles: environment access
    /// scoped under the project path and a placeholder network address
    /// left unset.
    pub fn server_compile_time_info(&self) -> (r: CompileTimeInfo)
        ensures
            r.mode == self.mode,
            r.environment matches TargetEnvironment::NodeServer { env, server_addr }
                && env.path.fs == FsName::Project && env.path.path@ == self.project_rel@
                && server_addr is None,
    {
        CompileTimeInfo {
            environment: TargetEnvironment::NodeServer { env: self.env(), server_addr: None },
            mode: self.mode,
        }
    }

    /// The context client bundles are chunked under.
    pub fn client_chunking_context(&self) -> (r: ChunkingContext)
        ensures
            is_client_chunking_context(*self, r),
    {
        ChunkingContext {
            kind: ContextKind::Development,
            project_path: self.project_path(),
            output_root: self.client_root(),
            chunk_root: None,
            asset_root: None,
            client_root: None,
            environment: TargetEnvironment::Browser {
                browserslist_query: self.browserslist_query.clone(),
            },
            layer: None,
        }
    }

    /// The base context server bundles are chunked under; server output
    /// refers to the client root for asset URLs.
    pub fn server_chunking_context(&self) -> (r: ChunkingContext)
        ensures
            is_server_chunking_context(*self, r, None),
    {
        ChunkingContext {
            kind: ContextKind::Build,
            project_path: self.project_path(),
            output_root: self.node_root(),
            chunk_root: None,
            asset_root: None,
            client_root: Some(self.client_root()),
            environment: TargetEnvironment::NodeServer { env: self.env(), server_addr: None },
            layer: None,
        }
    }

    /// The server context layered for server-side rendering.
    pub fn ssr_chunking_context(&self) -> (r: ChunkingContext)
        ensures
            is_server_chunking_context(*self, r, Some("ssr"@)),
            r.kind == ContextKind::Build,
    {
        self.server_chunking_context().with_layer(String::from_str("ssr"))
    }

    /// The server context layered for data-only server-side rendering.
    pub fn ssr_data_chunking_context(&self) -> (r: ChunkingContext)
        ensures
            is_server_chunking_context(*self, r, Some("ssr data"@)),
            r.kind == ContextKind::Build,
    {
        self.server_chunking_context().with_layer(String::from_str("ssr data"))
    }

    /// The server context layered for server components.
    pub fn rsc_chunking_context(&self) -> (r: ChunkingContext)
        ensures
            is_server_chunking_context(*self, r, Some("rsc"@)),
            r.kind == ContextKind::Build,
    {
        self.server_chunking_context().with_layer(String::from_str("rsc"))
    }

    /// The execution handle for build-time code: a build-time chunking
    /// context rooted at the node root with dedicated chunk and asset
    /// directories under it, together with the project path and the
    /// environment view.
    pub fn execution_context(&self) -> (r: ExecutionContext)
        ensures
            r.project_path.fs == FsName::Project,
            r.project_path.path@ == self.project_rel@,
            r.chunking_context.kind == ContextKind::Development,
            r.chunking_context.project_path.fs == FsName::Project,
            r.chunking_context.project_path.path@ == self.project_rel@,
            r.chunking_context.output_root.fs == FsName::Node,
            r.chunking_context.output_root.path@ == ".next"@,
            r.chunking_context.chunk_root matches Some(p) && p.fs == FsName::Node && p.path@
                == join_seq(".next"@, "chunks"@),
            r.chunking_context.asset_root matches Some(p) && p.fs == FsName::Node && p.path@
                == join_seq(".next"@, "assets"@),
            r.chunking_context.client_root is None,
            r.chunking_context.environment == TargetEnvironment::NodeBuild,
            r.chunking_context.layer is None,
            r.env.path.fs == FsName::Project,
            r.env.path.path@ == self.project_rel@,
    {
        let node_root = self.node_root();
        let chunk_root = node_root.join("chunks");
        let asset_root = node_root.join("assets");
        ExecutionContext {
            project_path: self.project_path(),
            chunking_context: ChunkingContext {
                kind: ContextKind::Development,
                project_path: self.project_path(),
                output_root: node_root,
                chunk_root: Some(chunk_root),
                asset_root: Some(asset_root),
                client_root: None,
                environment: TargetEnvironment::NodeBuild,
                layer: None,
            },
            env: self.env(),
        }
    }
}

} // verus!
