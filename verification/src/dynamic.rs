//! The dynamic entry marker: a synthetic, content-less module that tags a
//! dynamic-import boundary in the module graph.
//!
//! The marker wraps the identity of an existing module; it never owns or
//! reads the module's content. Its only real work is resolving the set of
//! client bundles that must load when the boundary executes: the wrapped
//! module becomes the root of a new chunk group under a given client
//! chunking context.

use vstd::prelude::*;
use vstd::string::*;
use crate::ProjectError;
use crate::chunking::{ChunkingContext, path_eq};
use crate::fs::FsPath;

verus! {

/// The identity of an asset in the module graph: where it lives and the
/// modifiers distinguishing derived assets from one another.
pub struct AssetIdent {
    /// The path of the asset.
    pub path: FsPath,
    /// The modifiers applied to the asset, in application order.
    pub modifiers: Vec<String>,
}

/// View-level equality of asset identities.
pub open spec fn ident_eq(a: AssetIdent, b: AssetIdent) -> bool {
    path_eq(a.path, b.path) && a.modifiers.deep_view() == b.modifiers.deep_view()
}

impl AssetIdent {
    /// A second handle to the same identity.
    pub fn duplicate(&self) -> (r: AssetIdent)
        ensures
            r.path == self.path,
            r.modifiers.deep_view() == self.modifiers.deep_view(),
            ident_eq(r, *self),
    {
        let mut modifiers: Vec<String> = Vec::new();
        let n = self.modifiers.len();
        let mut i: usize = 0;
        while i < n
            invariant
                i <= n,
                n == self.modifiers.len(),
                modifiers@.len() == i,
                modifiers.deep_view() =~~= self.modifiers.deep_view().take(i as int),
            decreases n - i,
        {
            let x = self.modifiers[i].clone();
            proof {
                assert(x == self.modifiers@[i as int]);
            }
            let ghost prev = modifiers@;
            modifiers.push(x);
            proof {
                assert(modifiers@ == prev.push(x));
                assert forall|k: int| 0 <= k < i + 1 implies #[trigger] modifiers.deep_view()[k]
                    == self.modifiers.deep_view().take(i as int + 1)[k] by {
                    if k < i {
                        assert(modifiers@[k] == prev[k]);
                    } else {
                        assert(modifiers@[k] == x);
                    }
                }
                assert(modifiers.deep_view() =~~= self.modifiers.deep_view().take(i as int + 1));
            }
            i += 1;
        }
        proof {
            assert(self.modifiers.deep_view().take(n as int) =~~= self.modifiers.deep_view());
        }
        AssetIdent { path: self.path.duplicate(), modifiers }
    }
}

/// A reference to a module whose lifetime the external dependency graph
/// manages: its identity, and whether the external chunking engine can
/// split it into chunks.
pub struct ModuleRef {
    /// The module's identity.
    pub ident: AssetIdent,
    /// Whether the module supports being split into chunks.
    pub chunkable: bool,
}

/// A descriptor of one deliverable output bundle: the identity of the
/// module rooting its chunk group and the output root the bundle is
/// addressed under.
pub struct OutputAsset {
    pub root: AssetIdent,
    pub output_root: FsPath,
}

/// The content of a retrievable asset. A dynamic entry marker never has
/// one.
pub struct AssetContent {
    pub bytes: Vec<u8>,
}

/// The modifier distinguishing a dynamic entry marker from the module it
/// wraps.
pub open spec fn dynamic_modifier_spec() -> Seq<char> {
    "dynamic"@
}

/// The modifier distinguishing a dynamic entry marker from the module it
/// wraps.
fn dynamic_modifier() -> (s: String)
    ensures
        s@ == dynamic_modifier_spec(),
{
    String::from_str("dynamic")
}

/// A marker asset used to indicate which dynamic assets should appear in
/// the dynamic manifest.
pub struct NextDynamicEntryModule {
    /// The wrapped client module whose boundary the marker tags.
    pub client_entry_module: ModuleRef,
}

/// What resolving the marker's client chunks yields: a chunkability error
/// when the wrapped module cannot be split, and otherwise the non-empty,
/// fully determined descriptor set of the chunk group rooted at the
/// wrapped module under the given context.
pub open spec fn client_chunks_ok(
    m: ModuleRef,
    c: ChunkingContext,
    r: Result<Vec<OutputAsset>, ProjectError>,
) -> bool {
    if m.chunkable {
        &&& r matches Ok(v)
        &&& v@.len() == 1
        &&& ident_eq(v@[0].root, m.ident)
        &&& path_eq(v@[0].output_root, c.output_root)
    } else {
        r matches Err(e) && e == ProjectError::Chunkability
    }
}

impl NextDynamicEntryModule {
    /// Wrap a reference to an existing module; no copying and no content
    /// access happens.
    pub fn new(client_entry_module: ModuleRef) -> (m: NextDynamicEntryModule)
        ensures
            m.client_entry_module == client_entry_module,
    {
        NextDynamicEntryModule { client_entry_module }
    }

    /// The marker's identity: the wrapped module's identity plus the fixed
    /// dynamic modifier, so graph and cache can tell the two apart while
    /// keeping them traceable to each other.
    pub fn ident(&self) -> (r: AssetIdent)
        ensures
            r.path == self.client_entry_module.ident.path,
            r.modifiers.deep_view() == self.client_entry_module.ident.modifiers.deep_view().push(
                dynamic_modifier_spec(),
            ),
    {
        let mut ident = self.client_entry_module.ident.duplicate();
        ident.modifiers.push(dynamic_modifier());
        proof {
            assert(ident.modifiers.deep_view()
                =~~= self.client_entry_module.ident.modifiers.deep_view().push(
                dynamic_modifier_spec(),
            ));
        }
        ident
    }

    /// The marker is not a retrievable artifact: reading its content is
    /// caller misuse and always fails.
    pub fn content(&self) -> (r: Result<AssetContent, ProjectError>)
        ensures
            r matches Err(e) && e == ProjectError::Asset,
    {
        Err(ProjectError::Asset)
    }

    /// The marker contributes no graph edges; the wrapped module's own
    /// edges are tracked independently by the graph builder.
    pub fn references(&self) -> (r: Vec<AssetIdent>)
        ensures
            r@.len() == 0,
    {
        Vec::new()
    }

    /// Resolve the wrapped module as the root of a new chunk group under
    /// `client_chunking_context`: the bundles that must load when this
    /// dynamic-import boundary executes. Fails exactly when the wrapped
    /// module does not support being split into chunks.
    pub fn client_chunks(&self, client_chunking_context: &ChunkingContext) -> (r: Result<
        Vec<OutputAsset>,
        ProjectError,
    >)
        ensures
            client_chunks_ok(self.client_entry_module, *client_chunking_context, r),
    {
        if !self.client_entry_module.chunkable {
            return Err(ProjectError::Chunkability);
        }
        let root = self.client_entry_module.ident.duplicate();
        let asset = OutputAsset {
            root,
            output_root: client_chunking_context.output_root.duplicate(),
        };
        let mut out: Vec<OutputAsset> = Vec::new();
        out.push(asset);
        Ok(out)
    }
}

/// Resolving the marker's client chunks is deterministic: identical wrapped
/// modules under contexts with the same output root either fail alike with
/// a chunkability error or yield bundle sets of the same size describing
/// the same chunk-group roots under the same output root.
pub proof fn lemma_client_chunks_deterministic(
    m1: ModuleRef,
    m2: ModuleRef,
    c1: ChunkingContext,
    c2: ChunkingContext,
    r1: Result<Vec<OutputAsset>, ProjectError>,
    r2: Result<Vec<OutputAsset>, ProjectError>,
)
    requires
        ident_eq(m1.ident, m2.ident),
        m1.chunkable == m2.chunkable,
        path_eq(c1.output_root, c2.output_root),
        client_chunks_ok(m1, c1, r1),
        client_chunks_ok(m2, c2, r2),
    ensures
        m1.chunkable ==> ({
            &&& r1 matches Ok(v1)
            &&& r2 matches Ok(v2)
            &&& v1@.len() == v2@.len()
            &&& v1@.len() > 0
            &&& ident_eq(v1@[0].root, v2@[0].root)
            &&& path_eq(v1@[0].output_root, v2@[0].output_root)
        }),
        !m1.chunkable ==> r1 == r2,
{
}

} // verus!
