//! Chunks as the grouping algorithm hands them over, the output assets made
//! from them, availability, and the results of assembling a chunk group.
use vstd::prelude::*;
use crate::ident::{copy_idents, idents_view, AssetIdent, IdentModel};

verus! {

/// The runtime kind of a chunk, as far as this policy tells kinds apart.
#[derive(Clone, Copy, Debug, PartialEq, Eq, Structural)]
pub enum ChunkKind {
    /// A script chunk, wrapped in the development script representation.
    Ecmascript,
    /// A chunk that already is a finished output asset.
    OutputAsset,
    /// Any other kind: no output asset can be made of it.
    Other,
}

/// A chunk made by the grouping algorithm: its identity, its kind, and the
/// modules it holds.
#[derive(Debug, PartialEq, Eq)]
pub struct Chunk {
    pub ident: AssetIdent,
    pub kind: ChunkKind,
    pub modules: Vec<AssetIdent>,
}

pub struct ChunkModel {
    pub ident: IdentModel,
    pub kind: ChunkKind,
    pub modules: Seq<IdentModel>,
}

impl View for Chunk {
    type V = ChunkModel;

    open spec fn view(&self) -> ChunkModel {
        ChunkModel { ident: self.ident@, kind: self.kind, modules: idents_view(self.modules@) }
    }
}

pub open spec fn chunks_view(v: Seq<Chunk>) -> Seq<ChunkModel> {
    v.map_values(|c: Chunk| c@)
}

impl Chunk {
    pub fn duplicate(&self) -> (r: Chunk)
        ensures
            r@ == self@,
    {
        Chunk { ident: self.ident.duplicate(), kind: self.kind, modules: copy_idents(&self.modules) }
    }
}

/// Which kind of group a chunk list registers.
#[derive(Clone, Copy, Debug, PartialEq, Eq, Structural)]
pub enum ChunkListSource {
    /// A group loaded on demand.
    Dynamic,
    /// An entry group, evaluated when it loads.
    Entry,
}

/// A deliverable of a chunk group.
#[derive(Debug, PartialEq, Eq)]
pub enum OutputAsset {
    /// A script chunk in its development representation.
    DevChunk(Chunk),
    /// A chunk that was an output asset already, passed on unchanged.
    ChunkAsset(Chunk),
    /// The registration of a group: its identity, the modules evaluated when
    /// it loads, in order, and the identities of its other chunks.
    ChunkList {
        ident: AssetIdent,
        evaluatable_assets: Vec<AssetIdent>,
        chunks: Vec<AssetIdent>,
        source: ChunkListSource,
    },
    /// The bootstrap of an entry group: it loads the other chunks, then
    /// evaluates the evaluatable modules in order.
    EvaluateChunk {
        ident: AssetIdent,
        chunks: Vec<AssetIdent>,
        evaluatable_assets: Vec<AssetIdent>,
    },
}

pub enum AssetModel {
    DevChunk(ChunkModel),
    ChunkAsset(ChunkModel),
    ChunkList {
        ident: IdentModel,
        evaluatable_assets: Seq<IdentModel>,
        chunks: Seq<IdentModel>,
        source: ChunkListSource,
    },
    EvaluateChunk {
        ident: IdentModel,
        chunks: Seq<IdentModel>,
        evaluatable_assets: Seq<IdentModel>,
    },
}

impl View for OutputAsset {
    type V = AssetModel;

    open spec fn view(&self) -> AssetModel {
        match self {
            OutputAsset::DevChunk(c) => AssetModel::DevChunk(c@),
            OutputAsset::ChunkAsset(c) => AssetModel::ChunkAsset(c@),
            OutputAsset::ChunkList { ident, evaluatable_assets, chunks, source } => {
                AssetModel::ChunkList {
                    ident: ident@,
                    evaluatable_assets: idents_view(evaluatable_assets@),
                    chunks: idents_view(chunks@),
                    source: *source,
                }
            },
            OutputAsset::EvaluateChunk { ident, chunks, evaluatable_assets } => {
                AssetModel::EvaluateChunk {
                    ident: ident@,
                    chunks: idents_view(chunks@),
                    evaluatable_assets: idents_view(evaluatable_assets@),
                }
            },
        }
    }
}

pub open spec fn assets_view(v: Seq<OutputAsset>) -> Seq<AssetModel> {
    v.map_values(|a: OutputAsset| a@)
}

/// The modules already emitted by earlier chunk groups of one build.
#[derive(Debug, PartialEq, Eq)]
pub struct AvailabilityInfo {
    pub available: Vec<AssetIdent>,
}

impl View for AvailabilityInfo {
    type V = Seq<IdentModel>;

    open spec fn view(&self) -> Seq<IdentModel> {
        idents_view(self.available@)
    }
}

impl AvailabilityInfo {
    /// The state at the start of a build: nothing emitted yet.
    pub fn root() -> (r: AvailabilityInfo)
        ensures
            r@ == Seq::<IdentModel>::empty(),
    {
        let r = AvailabilityInfo { available: Vec::new() };
        assert(r@ =~= Seq::<IdentModel>::empty());
        r
    }
}

/// What the grouping algorithm returns: the new chunks, in order, and the
/// availability after them.
#[derive(Debug, PartialEq, Eq)]
pub struct MakeChunkGroupResult {
    pub chunks: Vec<Chunk>,
    pub availability_info: AvailabilityInfo,
}

pub struct GroupingModel {
    pub chunks: Seq<ChunkModel>,
    pub availability: Seq<IdentModel>,
}

impl View for MakeChunkGroupResult {
    type V = GroupingModel;

    open spec fn view(&self) -> GroupingModel {
        GroupingModel { chunks: chunks_view(self.chunks@), availability: self.availability_info@ }
    }
}

/// An assembled chunk group: its output assets, in order, and the
/// availability after it.
#[derive(Debug, PartialEq, Eq)]
pub struct ChunkGroupResult {
    pub assets: Vec<OutputAsset>,
    pub availability_info: AvailabilityInfo,
}

pub struct GroupModel {
    pub assets: Seq<AssetModel>,
    pub availability: Seq<IdentModel>,
}

impl View for ChunkGroupResult {
    type V = GroupModel;

    open spec fn view(&self) -> GroupModel {
        GroupModel { assets: assets_view(self.assets@), availability: self.availability_info@ }
    }
}

/// Why a chunking operation failed.
#[derive(Clone, Copy, Debug, PartialEq, Eq, Structural)]
pub enum ChunkingError {
    /// The grouping algorithm made a chunk of a kind that no output asset
    /// can be made of.
    UnsupportedChunk,
    /// An asset lies outside the output root, so it has no public URL.
    OutsideOutputRoot,
}

pub open spec fn group_result_view(r: Result<ChunkGroupResult, ChunkingError>) -> Result<
    GroupModel,
    ChunkingError,
> {
    match r {
        Ok(g) => Ok(g@),
        Err(e) => Err(e),
    }
}

} // verus!
