//! The development chunking policy: where chunks and static assets are
//! placed, the URLs they are served at, which modules may share a chunk, and
//! how a chunk group is assembled from what the grouping algorithm returned.
use vstd::prelude::*;
use vstd::string::{StrSliceExecFns, StringExecFns};
use crate::chunk::{
    chunks_view, group_result_view, AssetModel, AvailabilityInfo, Chunk, ChunkGroupResult,
    ChunkKind, ChunkListSource, ChunkModel, ChunkingError, GroupModel, GroupingModel,
    MakeChunkGroupResult, OutputAsset, assets_view,
};
use crate::ident::{
    copy_idents, ident_text, idents_view, loader_ident_of, loader_modifier, AssetIdent,
    IdentModel, ModuleId,
};
use crate::path::{
    contains_seq, contains_str, extension, extension_of, file_name, file_name_of, get_path_to,
    has_prefix, join, join_of, lemma_rfind_in_bounds, parent, parent_of, path_to, rfind,
    rfind_in, starts_with, substring,
};

verus! {

/// The environment that chunks are evaluated in.
#[derive(Clone, Copy, Debug, PartialEq, Eq, Structural)]
pub enum Environment {
    Browser,
    NodeJsBuildTime,
    NodeJsLambda,
    EdgeWorker,
}

/// The kind of runtime included in the output.
#[derive(Clone, Copy, Debug, PartialEq, Eq, Structural)]
pub enum RuntimeType {
    Default,
    Dummy,
}

/// A chunking policy for development mode. It uses readable file names and
/// module ids, and keeps third-party code under "node_modules" in chunks of
/// its own, as it changes less often during development.
#[derive(Debug, PartialEq, Eq)]
pub struct DevChunkingContext {
    /// Stripped off of module paths when chunk names are made.
    pub context_path: String,
    /// The directory that URLs of chunks and assets are relative to.
    pub output_root: String,
    /// Where chunks are placed.
    pub chunk_root_path: String,
    /// Whether chunks reference their source maps.
    pub reference_chunk_source_maps: bool,
    /// Whether CSS chunks reference their source maps.
    pub reference_css_chunk_source_maps: bool,
    /// Where static assets are placed.
    pub asset_root_path: String,
    /// Prepended to chunk URLs when they are loaded.
    pub chunk_base_path: Option<String>,
    /// Prepended to the URLs of static assets.
    pub asset_base_path: Option<String>,
    /// Whether hot module replacement is on.
    pub enable_hot_module_replacement: bool,
    /// The environment chunks are evaluated in.
    pub environment: Environment,
    /// The kind of runtime to include in the output.
    pub runtime_type: RuntimeType,
}

/// Builds a `DevChunkingContext`, starting from its defaults.
#[derive(Debug, PartialEq, Eq)]
pub struct DevChunkingContextBuilder {
    pub chunking_context: DevChunkingContext,
}

/// The loader that a chunk embeds for a module it imports on demand. When it
/// is resolved, the module's group is assembled from the availability it
/// carries.
#[derive(Debug, PartialEq, Eq)]
pub struct ManifestLoaderChunkItem {
    pub module: AssetIdent,
    pub availability_info: AvailabilityInfo,
}

pub open spec fn css_extension() -> Seq<char> {
    seq!['c', 's', 's']
}

/// The path segment that marks third-party code, with its separator.
pub open spec fn vendor_prefix() -> Seq<char> {
    seq!['n', 'o', 'd', 'e', '_', 'm', 'o', 'd', 'u', 'l', 'e', 's', '/']
}

/// The same segment in the middle of a path.
pub open spec fn vendor_infix() -> Seq<char> {
    seq!['/'] + vendor_prefix()
}

/// A relative path that enters a "node_modules" directory.
pub open spec fn crosses_vendor_boundary(rel: Seq<char>) -> bool {
    has_prefix(rel, vendor_prefix()) || contains_seq(rel, vendor_infix())
}

/// Module `b` may join the chunk of module `a`: `b` lies below the directory
/// of `a` and the way there enters no "node_modules" directory.
pub open spec fn may_share_chunk(a: Seq<char>, b: Seq<char>) -> bool {
    match path_to(parent_of(a), b) {
        Some(rel) => !crosses_vendor_boundary(rel),
        None => false,
    }
}

/// File name of a static asset from `source` with content hash `hash`:
/// the first 8 characters of the hash go between the base name and the
/// extension.
pub open spec fn asset_file_name(source: Seq<char>, hash: Seq<char>) -> Seq<char> {
    let base = file_name_of(source);
    let h = hash.subrange(0, 8);
    match extension_of(source) {
        Some(ext) => base.subrange(0, base.len() - ext.len() - 1) + seq!['.'] + h + seq!['.']
            + ext,
        None => base + seq!['.'] + h,
    }
}

/// The output asset made of a chunk that can be converted.
pub open spec fn converted(c: ChunkModel) -> AssetModel {
    if c.kind == ChunkKind::Ecmascript {
        AssetModel::DevChunk(c)
    } else {
        AssetModel::ChunkAsset(c)
    }
}

pub open spec fn convertible(c: ChunkModel) -> bool {
    c.kind != ChunkKind::Other
}

pub open spec fn all_convertible(cs: Seq<ChunkModel>) -> bool {
    forall|i: int| 0 <= i < cs.len() ==> convertible(#[trigger] cs[i])
}

pub open spec fn converted_all(cs: Seq<ChunkModel>) -> Seq<AssetModel> {
    cs.map_values(|c: ChunkModel| converted(c))
}

pub open spec fn chunk_idents(cs: Seq<ChunkModel>) -> Seq<IdentModel> {
    cs.map_values(|c: ChunkModel| c.ident)
}

/// The group loaded on demand for `module`, given what the grouping algorithm
/// returned for it: the converted chunks, then the group's registration.
pub open spec fn chunk_group_of(module: IdentModel, g: GroupingModel) -> Result<
    GroupModel,
    ChunkingError,
> {
    if all_convertible(g.chunks) {
        Ok(
            GroupModel {
                assets: converted_all(g.chunks).push(
                    AssetModel::ChunkList {
                        ident: module,
                        evaluatable_assets: Seq::empty(),
                        chunks: chunk_idents(g.chunks),
                        source: ChunkListSource::Dynamic,
                    },
                ),
                availability: g.availability,
            },
        )
    } else {
        Err(ChunkingError::UnsupportedChunk)
    }
}

/// The entry group `ident` that evaluates `evaluatables`, given what the
/// grouping algorithm returned for them: the converted chunks, the group's
/// registration, then its bootstrap.
pub open spec fn evaluated_chunk_group_of(
    ident: IdentModel,
    evaluatables: Seq<IdentModel>,
    g: GroupingModel,
) -> Result<GroupModel, ChunkingError> {
    if all_convertible(g.chunks) {
        Ok(
            GroupModel {
                assets: converted_all(g.chunks).push(
                    AssetModel::ChunkList {
                        ident,
                        evaluatable_assets: evaluatables,
                        chunks: chunk_idents(g.chunks),
                        source: ChunkListSource::Entry,
                    },
                ).push(
                    AssetModel::EvaluateChunk {
                        ident,
                        chunks: chunk_idents(g.chunks),
                        evaluatable_assets: evaluatables,
                    },
                ),
                availability: g.availability,
            },
        )
    } else {
        Err(ChunkingError::UnsupportedChunk)
    }
}

/// The URL prefix of static assets.
pub open spec fn url_base(base: Option<String>) -> Seq<char> {
    match base {
        Some(b) => b@,
        None => seq!['/'],
    }
}

/// The public URL of the asset at `path`, when it lies below `output_root`.
pub open spec fn asset_url_of(output_root: Seq<char>, base: Option<String>, path: Seq<char>) -> Option<
    Seq<char>,
> {
    let root = output_root + seq!['/'];
    if has_prefix(path, root) {
        Some(url_base(base) + path.subrange(root.len() as int, path.len() as int))
    } else {
        None
    }
}

proof fn lemma_rfind_skip(s: Seq<char>, c: char, n: int, m: int)
    requires
        0 <= m <= n <= s.len(),
        forall|k: int| m <= k < n ==> s[k] != c,
    ensures
        rfind_in(s, c, n) == rfind_in(s, c, m),
    decreases n,
{
    if n > m {
        lemma_rfind_skip(s, c, n - 1, m);
    }
}

/// An extension lies inside the file name, after a dot.
proof fn lemma_extension_in_file_name(p: Seq<char>)
    requires
        extension_of(p).is_some(),
    ensures
        file_name_of(p).len() >= extension_of(p).unwrap().len() + 1,
{
    let i = rfind(p, '.');
    lemma_rfind_in_bounds(p, '.', p.len() as int);
    let ext = p.subrange(i + 1, p.len() as int);
    assert forall|k: int| i <= k < p.len() implies p[k] != '/' by {
        if k > i {
            assert(ext[k - i - 1] == p[k]);
        }
    }
    lemma_rfind_skip(p, '/', p.len() as int, i);
    lemma_rfind_in_bounds(p, '/', i);
}

impl DevChunkingContext {
    /// A builder for a policy with the given roots and environment. Source
    /// maps are referenced, hot module replacement is off, no base path is
    /// set and the default runtime is used until the builder says otherwise.
    pub fn builder(
        context_path: String,
        output_root: String,
        chunk_root_path: String,
        asset_root_path: String,
        environment: Environment,
    ) -> (r: DevChunkingContextBuilder)
        ensures
            r.chunking_context.context_path == context_path,
            r.chunking_context.output_root == output_root,
            r.chunking_context.chunk_root_path == chunk_root_path,
            r.chunking_context.asset_root_path == asset_root_path,
            r.chunking_context.environment == environment,
            r.chunking_context.reference_chunk_source_maps,
            r.chunking_context.reference_css_chunk_source_maps,
            r.chunking_context.chunk_base_path.is_none(),
            r.chunking_context.asset_base_path.is_none(),
            !r.chunking_context.enable_hot_module_replacement,
            r.chunking_context.runtime_type == RuntimeType::Default,
    {
        DevChunkingContextBuilder {
            chunking_context: DevChunkingContext {
                context_path,
                output_root,
                chunk_root_path,
                reference_chunk_source_maps: true,
                reference_css_chunk_source_maps: true,
                asset_root_path,
                chunk_base_path: None,
                asset_base_path: None,
                enable_hot_module_replacement: false,
                environment,
                runtime_type: RuntimeType::Default,
            },
        }
    }

    /// The output asset for `chunk`: a script chunk gets the development
    /// script representation, a chunk that is an output asset already is
    /// passed on, and any other kind is refused.
    pub fn generate_chunk(&self, chunk: &Chunk) -> (r: Result<OutputAsset, ChunkingError>)
        ensures
            match r {
                Ok(a) => convertible(chunk@) && a@ == converted(chunk@),
                Err(e) => !convertible(chunk@) && e == ChunkingError::UnsupportedChunk,
            },
    {
        match chunk.kind {
            ChunkKind::Ecmascript => Ok(OutputAsset::DevChunk(chunk.duplicate())),
            ChunkKind::OutputAsset => Ok(OutputAsset::ChunkAsset(chunk.duplicate())),
            ChunkKind::Other => Err(ChunkingError::UnsupportedChunk),
        }
    }

    /// The bootstrap of the entry group `ident`: it loads `other_chunks`, then
    /// evaluates `evaluatable_assets` in order.
    pub fn generate_evaluate_chunk(
        &self,
        ident: AssetIdent,
        other_chunks: Vec<AssetIdent>,
        evaluatable_assets: Vec<AssetIdent>,
    ) -> (r: OutputAsset)
        ensures
            r@ == (AssetModel::EvaluateChunk {
                ident: ident@,
                chunks: idents_view(other_chunks@),
                evaluatable_assets: idents_view(evaluatable_assets@),
            }),
    {
        OutputAsset::EvaluateChunk { ident, chunks: other_chunks, evaluatable_assets }
    }

    /// The registration of the group `ident`, of the kind `source`: it lists
    /// the group's chunks and the modules it evaluates, in order.
    pub fn generate_chunk_list_register_chunk(
        &self,
        ident: AssetIdent,
        evaluatable_assets: Vec<AssetIdent>,
        other_chunks: Vec<AssetIdent>,
        source: ChunkListSource,
    ) -> (r: OutputAsset)
        ensures
            r@ == (AssetModel::ChunkList {
                ident: ident@,
                evaluatable_assets: idents_view(evaluatable_assets@),
                chunks: idents_view(other_chunks@),
                source,
            }),
    {
        OutputAsset::ChunkList { ident, evaluatable_assets, chunks: other_chunks, source }
    }

    /// Converts every chunk, in order, and collects their identities.
    fn generate_chunks(&self, chunks: &Vec<Chunk>) -> (r: Result<
        (Vec<OutputAsset>, Vec<AssetIdent>),
        ChunkingError,
    >)
        ensures
            match r {
                Ok((assets, idents)) => all_convertible(chunks_view(chunks@)) && assets_view(
                    assets@,
                ) == converted_all(chunks_view(chunks@)) && idents_view(idents@) == chunk_idents(
                    chunks_view(chunks@),
                ),
                Err(e) => !all_convertible(chunks_view(chunks@)) && e
                    == ChunkingError::UnsupportedChunk,
            },
    {
        let ghost cs = chunks_view(chunks@);
        let mut assets: Vec<OutputAsset> = Vec::new();
        let mut idents: Vec<AssetIdent> = Vec::new();
        let mut i: usize = 0;
        while i < chunks.len()
            invariant
                cs == chunks_view(chunks@),
                i <= chunks@.len(),
                assets@.len() == i,
                idents@.len() == i,
                forall|k: int| 0 <= k < i ==> convertible(#[trigger] cs[k]),
                forall|k: int| 0 <= k < i ==> #[trigger] assets@[k]@ == converted(cs[k]),
                forall|k: int| 0 <= k < i ==> #[trigger] idents@[k]@ == cs[k].ident,
            decreases chunks@.len() - i,
        {
            let chunk = &chunks[i];
            assert(cs[i as int] == chunk@);
            match self.generate_chunk(chunk) {
                Ok(a) => {
                    assets.push(a);
                },
                Err(e) => {
                    assert(!convertible(cs[i as int]));
                    return Err(e);
                },
            }
            idents.push(chunk.ident.duplicate());
            i = i + 1;
        }
        assert(assets_view(assets@) =~= converted_all(cs));
        assert(idents_view(idents@) =~= chunk_idents(cs));
        Ok((assets, idents))
    }

    /// Assembles the group loaded on demand for `module` from what the
    /// grouping algorithm returned for it: every chunk converted, in order,
    /// then the registration of the group, which lists those chunks.
    pub fn chunk_group(&self, module: &AssetIdent, grouping: MakeChunkGroupResult) -> (r: Result<
        ChunkGroupResult,
        ChunkingError,
    >)
        ensures
            group_result_view(r) == chunk_group_of(module@, grouping@),
    {
        let MakeChunkGroupResult { chunks, availability_info } = grouping;
        let (mut assets, idents) = match self.generate_chunks(&chunks) {
            Ok(p) => p,
            Err(e) => {
                return Err(e);
            },
        };
        let ghost before = assets@;
        let none: Vec<AssetIdent> = Vec::new();
        assert(idents_view(none@) =~= Seq::<IdentModel>::empty());
        let list = self.generate_chunk_list_register_chunk(
            module.duplicate(),
            none,
            idents,
            ChunkListSource::Dynamic,
        );
        assets.push(list);
        assert(assets_view(assets@) =~= assets_view(before).push(list@));
        let r = ChunkGroupResult { assets, availability_info };
        assert(r@ == chunk_group_of(module@, grouping@).unwrap());
        Ok(r)
    }

    /// Assembles the entry group `ident`, which evaluates
    /// `evaluatable_assets` in order, from what the grouping algorithm
    /// returned for them: every chunk converted, in order, then the
    /// registration of the group and its bootstrap, both of which list those
    /// chunks and the evaluatable modules in their order.
    pub fn evaluated_chunk_group(
        &self,
        ident: &AssetIdent,
        evaluatable_assets: &Vec<AssetIdent>,
        grouping: MakeChunkGroupResult,
    ) -> (r: Result<ChunkGroupResult, ChunkingError>)
        ensures
            group_result_view(r) == evaluated_chunk_group_of(
                ident@,
                idents_view(evaluatable_assets@),
                grouping@,
            ),
    {
        let MakeChunkGroupResult { chunks, availability_info } = grouping;
        let (mut assets, idents) = match self.generate_chunks(&chunks) {
            Ok(p) => p,
            Err(e) => {
                return Err(e);
            },
        };
        let ghost before = assets@;
        let list = self.generate_chunk_list_register_chunk(
            ident.duplicate(),
            copy_idents(evaluatable_assets),
            copy_idents(&idents),
            ChunkListSource::Entry,
        );
        let evaluate = self.generate_evaluate_chunk(
            ident.duplicate(),
            idents,
            copy_idents(evaluatable_assets),
        );
        assets.push(list);
        assets.push(evaluate);
        assert(assets_view(assets@) =~= assets_view(before).push(list@).push(evaluate@));
        let r = ChunkGroupResult { assets, availability_info };
        assert(r@ == evaluated_chunk_group_of(
            ident@,
            idents_view(evaluatable_assets@),
            grouping@,
        ).unwrap());
        Ok(r)
    }

    /// Where the static asset of `original_asset_ident`, with content hash
    /// `content_hash`, is placed: under the asset root, named by the base
    /// name, the first 8 characters of the hash and the extension, if any.
    pub fn asset_path(&self, content_hash: &str, original_asset_ident: &AssetIdent) -> (r: String)
        requires
            content_hash@.len() >= 8,
        ensures
            r@ == join_of(
                self.asset_root_path@,
                asset_file_name(original_asset_ident@.path, content_hash@),
            ),
    {
        proof {
            reveal_strlit(".");
        }
        let source = original_asset_ident.path.as_str();
        let basename = file_name(source);
        let hash = content_hash.substring_char(0, 8);
        let name = match extension(source) {
            Some(ext) => {
                proof {
                    lemma_extension_in_file_name(source@);
                }
                let bl = basename.as_str().unicode_len();
                let el = ext.as_str().unicode_len();
                let mut name = substring(basename.as_str(), 0, bl - el - 1);
                name.append(".");
                name.append(hash);
                name.append(".");
                name.append(ext.as_str());
                name
            },
            None => {
                let mut name = basename;
                name.append(".");
                name.append(hash);
                name
            },
        };
        assert(name@ =~= asset_file_name(source@, content_hash@));
        join(self.asset_root_path.as_str(), name.as_str())
    }

    /// The public URL of the asset `ident`: its path below the output root,
    /// after the asset base path, or "/" when none is set. An asset outside
    /// the output root has no URL.
    pub fn asset_url(&self, ident: &AssetIdent) -> (r: Result<String, ChunkingError>)
        ensures
            match r {
                Ok(u) => asset_url_of(self.output_root@, self.asset_base_path, ident@.path)
                    == Some(u@),
                Err(e) => asset_url_of(
                    self.output_root@,
                    self.asset_base_path,
                    ident@.path,
                ).is_none() && e == ChunkingError::OutsideOutputRoot,
            },
    {
        proof {
            reveal_strlit("/");
        }
        let path = ident.path.as_str();
        let mut root = self.output_root.clone();
        root.append("/");
        assert(root@ =~= self.output_root@ + seq!['/']);
        if !starts_with(path, root.as_str()) {
            return Err(ChunkingError::OutsideOutputRoot);
        }
        let rest = substring(path, root.as_str().unicode_len(), path.unicode_len());
        let mut url = match &self.asset_base_path {
            Some(b) => b.clone(),
            None => String::from_str("/"),
        };
        url.append(rest.as_str());
        Ok(url)
    }

    /// Whether the chunk at `chunk_path` references its source map: the CSS
    /// setting for a ".css" chunk, the general one otherwise.
    pub fn reference_chunk_source_maps(&self, chunk_path: &str) -> (r: bool)
        ensures
            r == if extension_of(chunk_path@) == Some(css_extension()) {
                self.reference_css_chunk_source_maps
            } else {
                self.reference_chunk_source_maps
            },
    {
        proof {
            reveal_strlit("css");
        }
        match extension(chunk_path) {
            Some(ext) => {
                let css = String::from_str("css");
                assert(css@ =~= css_extension());
                if ext == css {
                    self.reference_css_chunk_source_maps
                } else {
                    self.reference_chunk_source_maps
                }
            },
            None => self.reference_chunk_source_maps,
        }
    }

    /// Whether `asset_b` may join the chunk of `asset_a`: it must lie below
    /// the directory of `asset_a`, and the way there must not enter a
    /// "node_modules" directory. The question is directed: ask both ways
    /// where both must hold.
    pub fn can_be_in_same_chunk(&self, asset_a: &AssetIdent, asset_b: &AssetIdent) -> (r: bool)
        ensures
            r == may_share_chunk(asset_a@.path, asset_b@.path),
    {
        proof {
            reveal_strlit("node_modules/");
            reveal_strlit("/node_modules/");
        }
        let parent_dir = parent(asset_a.path.as_str());
        match get_path_to(parent_dir.as_str(), asset_b.path.as_str()) {
            Some(rel) => {
                assert("node_modules/"@ =~= vendor_prefix());
                assert("/node_modules/"@ =~= vendor_infix());
                !starts_with(rel.as_str(), "node_modules/") && !contains_str(
                    rel.as_str(),
                    "/node_modules/",
                )
            },
            None => false,
        }
    }

    /// Where the chunk named `output_name` is placed: under the chunk root.
    /// The name is the one that the chunk's identity gives relative to the
    /// context path, with the chunk's extension.
    pub fn chunk_path(&self, output_name: &str) -> (r: String)
        ensures
            r@ == join_of(self.chunk_root_path@, output_name@),
    {
        join(self.chunk_root_path.as_str(), output_name)
    }

    /// The id of the chunk item with identity `ident`: in development, its
    /// readable form.
    pub fn chunk_item_id_from_ident(&self, ident: &AssetIdent) -> (r: ModuleId)
        ensures
            match r {
                ModuleId::String(s) => s@ == ident_text(ident@),
                ModuleId::Number(_) => false,
            },
    {
        ModuleId::String(ident.to_text())
    }

    /// The loader that a chunk embeds for `module`, which it imports on
    /// demand; it carries the availability that the module's group will be
    /// assembled from.
    pub fn async_loader_chunk_item(
        &self,
        module: &AssetIdent,
        availability_info: AvailabilityInfo,
    ) -> (r: ManifestLoaderChunkItem)
        ensures
            r.module@ == module@,
            r.availability_info@ == availability_info@,
    {
        ManifestLoaderChunkItem { module: module.duplicate(), availability_info }
    }

    /// The id of the loader of `module`: the id of the module's identity with
    /// the loader modifier added. It depends on that identity alone.
    pub fn async_loader_chunk_item_id(&self, module: &AssetIdent) -> (r: ModuleId)
        ensures
            match r {
                ModuleId::String(s) => s@ == ident_text(loader_ident_of(module@)),
                ModuleId::Number(_) => false,
            },
    {
        proof {
            reveal_strlit("loader");
        }
        assert("loader"@ =~= loader_modifier());
        let loader = module.with_modifier("loader");
        assert(loader@ == loader_ident_of(module@));
        self.chunk_item_id_from_ident(&loader)
    }

    pub fn context_path(&self) -> (r: &str)
        ensures
            r@ == self.context_path@,
    {
        self.context_path.as_str()
    }

    pub fn output_root(&self) -> (r: &str)
        ensures
            r@ == self.output_root@,
    {
        self.output_root.as_str()
    }

    pub fn environment(&self) -> (r: Environment)
        ensures
            r == self.environment,
    {
        self.environment
    }

    /// The kind of runtime to include in output chunks.
    pub fn runtime_type(&self) -> (r: RuntimeType)
        ensures
            r == self.runtime_type,
    {
        self.runtime_type
    }

    /// The base path of chunk URLs.
    pub fn chunk_base_path(&self) -> (r: &Option<String>)
        ensures
            *r == self.chunk_base_path,
    {
        &self.chunk_base_path
    }

    pub fn is_hot_module_replacement_enabled(&self) -> (r: bool)
        ensures
            r == self.enable_hot_module_replacement,
    {
        self.enable_hot_module_replacement
    }

    /// Development chunks always carry React Refresh.
    pub fn has_react_refresh(&self) -> (r: bool)
        ensures
            r,
    {
        true
    }
}

impl DevChunkingContextBuilder {
    pub fn hot_module_replacement(self) -> (r: Self)
        ensures
            r.chunking_context == (DevChunkingContext {
                enable_hot_module_replacement: true,
                ..self.chunking_context
            }),
    {
        let mut r = self;
        r.chunking_context.enable_hot_module_replacement = true;
        r
    }

    pub fn asset_base_path(self, asset_base_path: Option<String>) -> (r: Self)
        ensures
            r.chunking_context == (DevChunkingContext { asset_base_path, ..self.chunking_context }),
    {
        let mut r = self;
        r.chunking_context.asset_base_path = asset_base_path;
        r
    }

    pub fn chunk_base_path(self, chunk_base_path: Option<String>) -> (r: Self)
        ensures
            r.chunking_context == (DevChunkingContext { chunk_base_path, ..self.chunking_context }),
    {
        let mut r = self;
        r.chunking_context.chunk_base_path = chunk_base_path;
        r
    }

    pub fn reference_chunk_source_maps(self, source_maps: bool) -> (r: Self)
        ensures
            r.chunking_context == (DevChunkingContext {
                reference_chunk_source_maps: source_maps,
                ..self.chunking_context
            }),
    {
        let mut r = self;
        r.chunking_context.reference_chunk_source_maps = source_maps;
        r
    }

    pub fn reference_css_chunk_source_maps(self, source_maps: bool) -> (r: Self)
        ensures
            r.chunking_context == (DevChunkingContext {
                reference_css_chunk_source_maps: source_maps,
                ..self.chunking_context
            }),
    {
        let mut r = self;
        r.chunking_context.reference_css_chunk_source_maps = source_maps;
        r
    }

    pub fn runtime_type(self, runtime_type: RuntimeType) -> (r: Self)
        ensures
            r.chunking_context == (DevChunkingContext { runtime_type, ..self.chunking_context }),
    {
        let mut r = self;
        r.chunking_context.runtime_type = runtime_type;
        r
    }

    /// The finished policy.
    pub fn build(self) -> (r: DevChunkingContext)
        ensures
            r == self.chunking_context,
    {
        self.chunking_context
    }
}

} // verus!
