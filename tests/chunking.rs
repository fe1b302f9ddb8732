use turbopack_dev::chunk::{
    AvailabilityInfo, Chunk, ChunkGroupResult, ChunkKind, ChunkListSource, ChunkingError,
    MakeChunkGroupResult, OutputAsset,
};
use turbopack_dev::context::{DevChunkingContext, Environment, RuntimeType};
use turbopack_dev::ident::{AssetIdent, ModuleId};
use turbopack_dev::path::{extension, file_name, get_path_to, join, parent};

fn ident(path: &str) -> AssetIdent {
    AssetIdent::from_path(path.to_string())
}

fn policy() -> DevChunkingContext {
    DevChunkingContext::builder(
        "/".to_string(),
        "/out".to_string(),
        "/out/chunks".to_string(),
        "/out/static".to_string(),
        Environment::Browser,
    )
    .build()
}

fn chunk(path: &str, kind: ChunkKind, modules: &[&str]) -> Chunk {
    Chunk { ident: ident(path), kind, modules: modules.iter().map(|m| ident(m)).collect() }
}

fn availability(modules: &[&str]) -> AvailabilityInfo {
    AvailabilityInfo { available: modules.iter().map(|m| ident(m)).collect() }
}

#[test]
fn asset_path_and_url_scenario() {
    let ctx = policy();
    let path = ctx.asset_path("deadbeef1234", &ident("/src/logo.png"));
    assert_eq!(path, "/out/static/logo.deadbeef.png");
    let url = ctx.asset_url(&ident(&path));
    assert_eq!(url, Ok("/static/logo.deadbeef.png".to_string()));
}

#[test]
fn vendor_modules_kept_apart() {
    let ctx = policy();
    assert!(!ctx.can_be_in_same_chunk(&ident("/app/a.js"), &ident("/app/node_modules/dep/b.js")));
    assert!(ctx.can_be_in_same_chunk(&ident("/app/a.js"), &ident("/app/b.js")));
}

#[test]
fn vendor_boundary_deeper_in_path() {
    let ctx = policy();
    assert!(!ctx.can_be_in_same_chunk(&ident("/app/a.js"), &ident("/app/lib/node_modules/x/c.js")));
    assert!(ctx.can_be_in_same_chunk(&ident("/app/a.js"), &ident("/app/lib/my_node_modules/c.js")));
    assert!(ctx.can_be_in_same_chunk(&ident("/app/a.js"), &ident("/app/lib/deep/c.js")));
}

#[test]
fn unrelated_modules_not_colocated() {
    let ctx = policy();
    assert!(!ctx.can_be_in_same_chunk(&ident("/app/a.js"), &ident("/lib/b.js")));
    // The question is directed: the parent of the second module does not hold the first.
    assert!(ctx.can_be_in_same_chunk(&ident("/app/a.js"), &ident("/app/sub/b.js")));
    assert!(!ctx.can_be_in_same_chunk(&ident("/app/sub/b.js"), &ident("/app/a.js")));
}

#[test]
fn vendor_module_to_its_sibling() {
    let ctx = policy();
    assert!(ctx.can_be_in_same_chunk(
        &ident("/app/node_modules/dep/a.js"),
        &ident("/app/node_modules/dep/b.js")
    ));
}

#[test]
fn content_addressing_by_hash_prefix() {
    let ctx = policy();
    let id = ident("/src/logo.png");
    let a = ctx.asset_path("0123456789ab", &id);
    let b = ctx.asset_path("01234567ffff", &id);
    let c = ctx.asset_path("01234568ffff", &id);
    assert_eq!(a, b);
    assert_ne!(a, c);
    assert_eq!(c, "/out/static/logo.01234568.png");
}

#[test]
fn asset_path_without_extension() {
    let ctx = policy();
    assert_eq!(ctx.asset_path("deadbeef1234", &ident("/src/LICENSE")), "/out/static/LICENSE.deadbeef");
    assert_eq!(ctx.asset_path("deadbeef1234", &ident("/src/.env")), "/out/static/.env.deadbeef");
    assert_eq!(
        ctx.asset_path("deadbeef", &ident("/src/archive.tar.gz")),
        "/out/static/archive.tar.deadbeef.gz"
    );
}

#[test]
fn asset_url_with_base_path() {
    let ctx = DevChunkingContext::builder(
        "/".to_string(),
        "/out".to_string(),
        "/out/chunks".to_string(),
        "/out/static".to_string(),
        Environment::Browser,
    )
    .asset_base_path(Some("/static".to_string()))
    .build();
    assert_eq!(ctx.asset_url(&ident("/out/img/a.png")), Ok("/staticimg/a.png".to_string()));
}

#[test]
fn asset_url_default_prefix() {
    let ctx = policy();
    assert_eq!(ctx.asset_url(&ident("/out/img/a.png")), Ok("/img/a.png".to_string()));
}

#[test]
fn asset_url_outside_output_root() {
    let ctx = policy();
    assert_eq!(ctx.asset_url(&ident("/elsewhere/a.png")), Err(ChunkingError::OutsideOutputRoot));
    assert_eq!(ctx.asset_url(&ident("/output/a.png")), Err(ChunkingError::OutsideOutputRoot));
}

#[test]
fn source_maps_by_extension() {
    let ctx = DevChunkingContext::builder(
        "/".to_string(),
        "/out".to_string(),
        "/out/chunks".to_string(),
        "/out/static".to_string(),
        Environment::Browser,
    )
    .reference_css_chunk_source_maps(false)
    .build();
    assert!(!ctx.reference_chunk_source_maps("/out/chunks/app.css"));
    assert!(ctx.reference_chunk_source_maps("/out/chunks/app.js"));
    assert!(ctx.reference_chunk_source_maps("/out/chunks/app"));

    let ctx = DevChunkingContext::builder(
        "/".to_string(),
        "/out".to_string(),
        "/out/chunks".to_string(),
        "/out/static".to_string(),
        Environment::Browser,
    )
    .reference_chunk_source_maps(false)
    .build();
    assert!(ctx.reference_chunk_source_maps("/out/chunks/app.css"));
    assert!(!ctx.reference_chunk_source_maps("/out/chunks/app.js"));
}

#[test]
fn builder_defaults_and_setters() {
    let ctx = policy();
    assert!(!ctx.is_hot_module_replacement_enabled());
    assert!(ctx.reference_chunk_source_maps);
    assert!(ctx.reference_css_chunk_source_maps);
    assert_eq!(ctx.chunk_base_path(), &None);
    assert_eq!(ctx.asset_base_path, None);
    assert_eq!(ctx.runtime_type(), RuntimeType::Default);
    assert_eq!(ctx.environment(), Environment::Browser);
    assert_eq!(ctx.context_path(), "/");
    assert_eq!(ctx.output_root(), "/out");
    assert!(ctx.has_react_refresh());

    let ctx = DevChunkingContext::builder(
        "/".to_string(),
        "/out".to_string(),
        "/out/chunks".to_string(),
        "/out/static".to_string(),
        Environment::NodeJsLambda,
    )
    .hot_module_replacement()
    .chunk_base_path(Some("/base/".to_string()))
    .runtime_type(RuntimeType::Dummy)
    .build();
    assert!(ctx.is_hot_module_replacement_enabled());
    assert_eq!(ctx.chunk_base_path(), &Some("/base/".to_string()));
    assert_eq!(ctx.runtime_type(), RuntimeType::Dummy);
    assert_eq!(ctx.environment(), Environment::NodeJsLambda);
}

#[test]
fn chunk_path_under_chunk_root() {
    let ctx = policy();
    assert_eq!(ctx.chunk_path("app_a.js"), "/out/chunks/app_a.js");
}

#[test]
fn generate_chunk_by_kind() {
    let ctx = policy();
    let c = chunk("/app/a.js", ChunkKind::Ecmascript, &["/app/a.js"]);
    assert_eq!(
        ctx.generate_chunk(&c),
        Ok(OutputAsset::DevChunk(chunk("/app/a.js", ChunkKind::Ecmascript, &["/app/a.js"])))
    );
    let c = chunk("/app/a.css", ChunkKind::OutputAsset, &["/app/a.css"]);
    assert_eq!(
        ctx.generate_chunk(&c),
        Ok(OutputAsset::ChunkAsset(chunk("/app/a.css", ChunkKind::OutputAsset, &["/app/a.css"])))
    );
    let c = chunk("/app/a.wasm", ChunkKind::Other, &["/app/a.wasm"]);
    assert_eq!(ctx.generate_chunk(&c), Err(ChunkingError::UnsupportedChunk));
}

fn grouping() -> MakeChunkGroupResult {
    MakeChunkGroupResult {
        chunks: vec![
            chunk("/app/page.js", ChunkKind::Ecmascript, &["/app/page.js", "/app/util.js"]),
            chunk("/app/node_modules/dep/index.js", ChunkKind::Ecmascript, &[
                "/app/node_modules/dep/index.js",
            ]),
        ],
        availability_info: availability(&["/app/page.js", "/app/util.js", "/app/node_modules/dep/index.js"]),
    }
}

#[test]
fn chunk_group_appends_registration() {
    let ctx = policy();
    let r = ctx.chunk_group(&ident("/app/page.js"), grouping()).unwrap();
    assert_eq!(r.assets.len(), 3);
    assert_eq!(
        r.assets[0],
        OutputAsset::DevChunk(chunk("/app/page.js", ChunkKind::Ecmascript, &[
            "/app/page.js",
            "/app/util.js",
        ]))
    );
    assert_eq!(
        r.assets[2],
        OutputAsset::ChunkList {
            ident: ident("/app/page.js"),
            evaluatable_assets: vec![],
            chunks: vec![ident("/app/page.js"), ident("/app/node_modules/dep/index.js")],
            source: ChunkListSource::Dynamic,
        }
    );
    assert_eq!(
        r.availability_info,
        availability(&["/app/page.js", "/app/util.js", "/app/node_modules/dep/index.js"])
    );
}

#[test]
fn chunk_group_is_deterministic() {
    let ctx = policy();
    let a: ChunkGroupResult = ctx.chunk_group(&ident("/app/page.js"), grouping()).unwrap();
    let b: ChunkGroupResult = ctx.chunk_group(&ident("/app/page.js"), grouping()).unwrap();
    assert_eq!(a, b);
    let a = ctx.evaluated_chunk_group(&ident("/app/entry"), &vec![ident("/app/page.js")], grouping());
    let b = ctx.evaluated_chunk_group(&ident("/app/entry"), &vec![ident("/app/page.js")], grouping());
    assert_eq!(a, b);
}

#[test]
fn chunk_group_fails_on_unsupported_chunk() {
    let ctx = policy();
    let g = MakeChunkGroupResult {
        chunks: vec![
            chunk("/app/page.js", ChunkKind::Ecmascript, &["/app/page.js"]),
            chunk("/app/x.bin", ChunkKind::Other, &["/app/x.bin"]),
        ],
        availability_info: AvailabilityInfo::root(),
    };
    assert_eq!(ctx.chunk_group(&ident("/app/page.js"), g), Err(ChunkingError::UnsupportedChunk));
}

#[test]
fn evaluated_group_keeps_order() {
    let ctx = policy();
    let evaluatables = vec![ident("/app/runtime.js"), ident("/app/polyfill.js"), ident("/app/page.js")];
    let r = ctx.evaluated_chunk_group(&ident("/app/entry"), &evaluatables, grouping()).unwrap();
    assert_eq!(r.assets.len(), 4);
    let expected_chunks = vec![ident("/app/page.js"), ident("/app/node_modules/dep/index.js")];
    assert_eq!(
        r.assets[2],
        OutputAsset::ChunkList {
            ident: ident("/app/entry"),
            evaluatable_assets: vec![ident("/app/runtime.js"), ident("/app/polyfill.js"), ident("/app/page.js")],
            chunks: expected_chunks.iter().map(|i| i.duplicate()).collect(),
            source: ChunkListSource::Entry,
        }
    );
    assert_eq!(
        r.assets[3],
        OutputAsset::EvaluateChunk {
            ident: ident("/app/entry"),
            chunks: expected_chunks,
            evaluatable_assets: vec![ident("/app/runtime.js"), ident("/app/polyfill.js"), ident("/app/page.js")],
        }
    );
}

#[test]
fn evaluated_group_with_no_evaluatables() {
    let ctx = policy();
    let g = MakeChunkGroupResult { chunks: vec![], availability_info: AvailabilityInfo::root() };
    let r = ctx.evaluated_chunk_group(&ident("/app/entry"), &vec![], g).unwrap();
    assert_eq!(r.assets.len(), 2);
    assert_eq!(
        r.assets[0],
        OutputAsset::ChunkList {
            ident: ident("/app/entry"),
            evaluatable_assets: vec![],
            chunks: vec![],
            source: ChunkListSource::Entry,
        }
    );
}

#[test]
fn no_duplicate_of_available_module() {
    // The grouping algorithm left out /app/shared.js, which an earlier group emitted.
    let ctx = policy();
    let g = MakeChunkGroupResult {
        chunks: vec![chunk("/app/lazy.js", ChunkKind::Ecmascript, &["/app/lazy.js"])],
        availability_info: availability(&["/app/shared.js", "/app/lazy.js"]),
    };
    let r = ctx.chunk_group(&ident("/app/lazy.js"), g).unwrap();
    for asset in &r.assets {
        if let OutputAsset::DevChunk(c) | OutputAsset::ChunkAsset(c) = asset {
            assert!(!c.modules.contains(&ident("/app/shared.js")));
        }
    }
    assert_eq!(r.assets.len(), 2);
}

#[test]
fn loader_id_from_identity() {
    let ctx = policy();
    match ctx.async_loader_chunk_item_id(&ident("/app/a.js")) {
        ModuleId::String(s) => assert_eq!(s, "/app/a.js (loader)"),
        ModuleId::Number(_) => panic!("expected a string id"),
    }
    let with_query = AssetIdent {
        path: "/app/a.js".to_string(),
        query: "raw".to_string(),
        modifiers: vec!["client".to_string()],
    };
    assert_eq!(
        ctx.async_loader_chunk_item_id(&with_query),
        ModuleId::String("/app/a.js?raw (client, loader)".to_string())
    );
    assert_eq!(ctx.async_loader_chunk_item_id(&ident("/app/a.js")), ctx.async_loader_chunk_item_id(&ident("/app/a.js")));
}

#[test]
fn loader_item_carries_availability() {
    let ctx = policy();
    let item = ctx.async_loader_chunk_item(&ident("/app/lazy.js"), availability(&["/app/page.js"]));
    assert_eq!(item.module, ident("/app/lazy.js"));
    assert_eq!(item.availability_info, availability(&["/app/page.js"]));
}

#[test]
fn identity_text() {
    let id = ident("/app/a.js").with_modifier("ecmascript").with_modifier("client");
    assert_eq!(id.to_text(), "/app/a.js (ecmascript, client)");
    assert_eq!(ident("/app/a.js").to_text(), "/app/a.js");
}

#[test]
fn path_operations() {
    assert_eq!(parent("/app/a.js"), "/app");
    assert_eq!(parent("a.js"), "");
    assert_eq!(parent(""), "");
    assert_eq!(file_name("/app/a.js"), "a.js");
    assert_eq!(extension("/app/a.js"), Some("js".to_string()));
    assert_eq!(extension("/app.d/README"), None);
    assert_eq!(extension("/app/.gitignore"), None);
    assert_eq!(join("/out", "a.js"), "/out/a.js");
    assert_eq!(join("", "a.js"), "a.js");
    assert_eq!(get_path_to("/app", "/app/x/y.js"), Some("x/y.js".to_string()));
    assert_eq!(get_path_to("/app", "/application/y.js"), None);
    assert_eq!(get_path_to("", "app/y.js"), Some("app/y.js".to_string()));
}
