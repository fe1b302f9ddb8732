//! Properties that relate the policy's operations, proved over the models
//! that their contracts use.
use vstd::prelude::*;
use crate::chunk::{
    group_result_view, AssetModel, ChunkGroupResult, ChunkListSource, ChunkingError, GroupingModel,
};
use crate::context::{
    asset_file_name, asset_url_of, chunk_group_of, chunk_idents, converted, converted_all,
    crosses_vendor_boundary, evaluated_chunk_group_of, may_share_chunk, url_base, vendor_infix,
    vendor_prefix,
};
use crate::ident::IdentModel;
use crate::path::{
    contains_seq, extension_of, file_name_of, has_prefix, join_of, occurs_at, parent_of, path_to,
};

verus! {

/// Assembling an on-demand group depends on its inputs alone: equal entry
/// modules and equal grouping results give equal outcomes, with the same
/// assets in the same order.
pub proof fn lemma_chunk_group_deterministic(
    m1: IdentModel,
    m2: IdentModel,
    g1: GroupingModel,
    g2: GroupingModel,
    r1: Result<ChunkGroupResult, ChunkingError>,
    r2: Result<ChunkGroupResult, ChunkingError>,
)
    requires
        m1 == m2,
        g1 == g2,
        group_result_view(r1) == chunk_group_of(m1, g1),
        group_result_view(r2) == chunk_group_of(m2, g2),
    ensures
        group_result_view(r1) == group_result_view(r2),
{
}

/// Assembling an entry group depends on its inputs alone: equal identities,
/// equal evaluatable modules and equal grouping results give equal outcomes,
/// with the same assets in the same order.
pub proof fn lemma_evaluated_chunk_group_deterministic(
    i1: IdentModel,
    i2: IdentModel,
    e1: Seq<IdentModel>,
    e2: Seq<IdentModel>,
    g1: GroupingModel,
    g2: GroupingModel,
    r1: Result<ChunkGroupResult, ChunkingError>,
    r2: Result<ChunkGroupResult, ChunkingError>,
)
    requires
        i1 == i2,
        e1 == e2,
        g1 == g2,
        group_result_view(r1) == evaluated_chunk_group_of(i1, e1, g1),
        group_result_view(r2) == evaluated_chunk_group_of(i2, e2, g2),
    ensures
        group_result_view(r1) == group_result_view(r2),
{
}

/// Two content hashes give the same asset path for one source exactly when
/// their first 8 characters agree.
pub proof fn lemma_content_addressing(
    root: Seq<char>,
    source: Seq<char>,
    h1: Seq<char>,
    h2: Seq<char>,
)
    requires
        h1.len() >= 8,
        h2.len() >= 8,
    ensures
        (join_of(root, asset_file_name(source, h1)) == join_of(root, asset_file_name(source, h2)))
            <==> (h1.subrange(0, 8) == h2.subrange(0, 8)),
{
    let n1 = asset_file_name(source, h1);
    let n2 = asset_file_name(source, h2);
    let p1 = join_of(root, n1);
    let p2 = join_of(root, n2);
    if p1 == p2 {
        if root.len() > 0 {
            let k = root.len() + 1;
            assert(p1.subrange(k as int, p1.len() as int) =~= n1);
            assert(p2.subrange(k as int, p2.len() as int) =~= n2);
        }
        assert(n1 == n2);
        let base = file_name_of(source);
        let start: int = match extension_of(source) {
            Some(ext) => base.subrange(0, base.len() - ext.len() - 1).len() + 1int,
            None => base.len() + 1int,
        };
        assert(n1.subrange(start as int, start + 8int) =~= h1.subrange(0, 8));
        assert(n2.subrange(start as int, start + 8int) =~= h2.subrange(0, 8));
    }
}

/// The relative path `rel` enters a directory named "node_modules" at index
/// `i`: a segment of that name, followed by a separator, begins there.
pub open spec fn enters_vendor_at(rel: Seq<char>, i: int) -> bool {
    occurs_at(rel, vendor_prefix(), i) && (i == 0 || rel[i - 1] == '/')
}

/// A module reached from another module's directory through a
/// "node_modules" directory may not join that module's chunk, and one
/// reached by a relative path that never names "node_modules" may.
pub proof fn lemma_vendor_isolation(a: Seq<char>, b: Seq<char>, rel: Seq<char>)
    requires
        path_to(parent_of(a), b) == Some(rel),
    ensures
        (exists|i: int| enters_vendor_at(rel, i)) ==> !may_share_chunk(a, b),
        !contains_seq(rel, vendor_prefix().drop_last()) ==> may_share_chunk(a, b),
{
    if exists|i: int| enters_vendor_at(rel, i) {
        let i = choose|i: int| enters_vendor_at(rel, i);
        if i > 0 {
            assert(rel.subrange(i - 1, i - 1 + vendor_infix().len()) =~= vendor_infix());
            assert(occurs_at(rel, vendor_infix(), i - 1));
        }
    }
    let word = vendor_prefix().drop_last();
    if crosses_vendor_boundary(rel) {
        if has_prefix(rel, vendor_prefix()) {
            assert(rel.subrange(0, word.len() as int) =~= word);
            assert(occurs_at(rel, word, 0));
        } else {
            let j = choose|j: int| occurs_at(rel, vendor_infix(), j);
            assert forall|k: int| 0 <= k < word.len() implies rel[j + 1 + k] == word[k] by {
                assert(rel.subrange(j, j + vendor_infix().len())[k + 1] == vendor_infix()[k + 1]);
            }
            assert(rel.subrange(j + 1, j + 1 + word.len()) =~= word);
            assert(occurs_at(rel, word, j + 1));
        }
    }
}

/// An entry group lists its evaluatable modules, in the order given, both in
/// its registration and in its bootstrap, which come last; before them stand
/// the converted chunks.
pub proof fn lemma_evaluation_order_kept(
    ident: IdentModel,
    evaluatables: Seq<IdentModel>,
    g: GroupingModel,
)
    requires
        evaluated_chunk_group_of(ident, evaluatables, g).is_ok(),
    ensures
        ({
            let assets = evaluated_chunk_group_of(ident, evaluatables, g).unwrap().assets;
            &&& assets.len() == g.chunks.len() + 2
            &&& assets.take(g.chunks.len() as int) == converted_all(g.chunks)
            &&& assets[assets.len() - 2] == AssetModel::ChunkList {
                ident,
                evaluatable_assets: evaluatables,
                chunks: chunk_idents(g.chunks),
                source: ChunkListSource::Entry,
            }
            &&& assets[assets.len() - 1] == AssetModel::EvaluateChunk {
                ident,
                chunks: chunk_idents(g.chunks),
                evaluatable_assets: evaluatables,
            }
        }),
{
    let assets = evaluated_chunk_group_of(ident, evaluatables, g).unwrap().assets;
    assert(assets.take(g.chunks.len() as int) =~= converted_all(g.chunks));
}

/// The asset `a` carries the module `m` as chunk content.
pub open spec fn emits_module(a: AssetModel, m: IdentModel) -> bool {
    match a {
        AssetModel::DevChunk(c) => c.modules.contains(m),
        AssetModel::ChunkAsset(c) => c.modules.contains(m),
        _ => false,
    }
}

/// No chunk of the grouping result holds a module that was available.
pub open spec fn respects_availability(available: Seq<IdentModel>, g: GroupingModel) -> bool {
    forall|i: int, m: IdentModel|
        #![trigger g.chunks[i], available.contains(m)]
        0 <= i < g.chunks.len() && available.contains(m) ==> !g.chunks[i].modules.contains(m)
}

/// When the grouping algorithm leaves out what earlier groups emitted, so do
/// both kinds of group: no asset of theirs carries an available module.
pub proof fn lemma_no_duplicate_across_groups(
    available: Seq<IdentModel>,
    module: IdentModel,
    evaluatables: Seq<IdentModel>,
    g: GroupingModel,
    m: IdentModel,
)
    requires
        available.contains(m),
        respects_availability(available, g),
    ensures
        chunk_group_of(module, g) matches Ok(x) ==> forall|k: int|
            0 <= k < x.assets.len() ==> !emits_module(#[trigger] x.assets[k], m),
        evaluated_chunk_group_of(module, evaluatables, g) matches Ok(x) ==> forall|k: int|
            0 <= k < x.assets.len() ==> !emits_module(#[trigger] x.assets[k], m),
{
    assert forall|k: int| 0 <= k < g.chunks.len() implies !emits_module(
        #[trigger] converted_all(g.chunks)[k],
        m,
    ) by {
        assert(!g.chunks[k].modules.contains(m));
        assert(converted_all(g.chunks)[k] == converted(g.chunks[k]));
    }
    if chunk_group_of(module, g) is Ok {
        let x = chunk_group_of(module, g).unwrap();
        assert forall|k: int| 0 <= k < x.assets.len() implies !emits_module(
            #[trigger] x.assets[k],
            m,
        ) by {
            if k < g.chunks.len() {
                assert(x.assets[k] == converted_all(g.chunks)[k]);
            }
        }
    }
    if evaluated_chunk_group_of(module, evaluatables, g) is Ok {
        let x = evaluated_chunk_group_of(module, evaluatables, g).unwrap();
        assert forall|k: int| 0 <= k < x.assets.len() implies !emits_module(
            #[trigger] x.assets[k],
            m,
        ) by {
            if k < g.chunks.len() {
                assert(x.assets[k] == converted_all(g.chunks)[k]);
            }
        }
    }
}

/// The URL of an asset below the output root is its path below the root
/// after the asset base path, or after "/" when no base path is set.
pub proof fn lemma_url_prefixing(output_root: Seq<char>, base: Option<String>, path: Seq<char>)
    requires
        has_prefix(path, output_root + seq!['/']),
    ensures
        ({
            let rel = path.subrange(output_root.len() + 1int, path.len() as int);
            &&& base is None ==> asset_url_of(output_root, base, path) == Some(seq!['/'] + rel)
            &&& base matches Some(b) ==> asset_url_of(output_root, base, path) == Some(b@ + rel)
        }),
{
}

/// A static asset placed under an asset root `sub` below the output root is
/// served at `sub`, then its file name, after the URL prefix.
pub proof fn lemma_asset_url_of_asset_path(
    output_root: Seq<char>,
    sub: Seq<char>,
    base: Option<String>,
    name: Seq<char>,
)
    ensures
        asset_url_of(output_root, base, join_of(output_root + seq!['/'] + sub, name)) == Some(
            url_base(base) + sub + seq!['/'] + name,
        ),
{
    let root = output_root + seq!['/'];
    let p = join_of(root + sub, name);
    assert(p =~= root + (sub + seq!['/'] + name));
    assert(p.subrange(0, root.len() as int) =~= root);
    assert(p.subrange(root.len() as int, p.len() as int) =~= sub + seq!['/'] + name);
    assert(url_base(base) + (sub + seq!['/'] + name) =~= url_base(base) + sub + seq!['/'] + name);
}

} // verus!
