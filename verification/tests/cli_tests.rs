use oxide_engine::assets::{AssetSourceFileHandler, InitialAssetDescription};
use oxide_engine::cli::{cook, cooked_asset_path, rescan, CliError, Cooker, ParsecError};
use oxide_engine::manifest::Manifest;

struct ObjHandler;

impl AssetSourceFileHandler for ObjHandler {
    const EXTENSION: &'static str = "obj";

    fn extract_assets(_filepath: &str) -> Vec<InitialAssetDescription> {
        Vec::new()
    }
}

struct GltfHandler;

impl AssetSourceFileHandler for GltfHandler {
    const EXTENSION: &'static str = "gltf";

    fn extract_assets(_filepath: &str) -> Vec<InitialAssetDescription> {
        Vec::new()
    }
}

fn initial(kind: &str, subresource: &str) -> InitialAssetDescription {
    InitialAssetDescription { kind: kind.to_string(), subresource: subresource.to_string() }
}

#[test]
fn default_cooker_has_nothing_registered() {
    let c = Cooker::default();
    assert!(!c.has_source_file_type("obj"));
    assert!(!c.has_asset_type("mesh"));
}

#[test]
fn register_source_file_type_registers_extension() {
    let mut c = Cooker::default();
    c.register_source_file_type::<ObjHandler>();
    assert!(c.has_source_file_type("obj"));
    assert!(!c.has_source_file_type("gltf"));
    c.register_source_file_type::<ObjHandler>();
    c.register_source_file_type::<GltfHandler>();
    assert!(c.has_source_file_type("obj"));
    assert!(c.has_source_file_type("gltf"));
    assert!(!c.has_asset_type("obj"));
}

#[test]
fn register_asset_type_names() {
    let mut c = Cooker::default();
    c.register_asset_type_name("mesh");
    c.register_asset_type_name("mesh");
    c.register_asset_type_name("shader");
    assert!(c.has_asset_type("mesh"));
    assert!(c.has_asset_type("shader"));
    assert!(!c.has_asset_type("texture"));
    assert!(!c.has_source_file_type("mesh"));
}

#[test]
fn handler_extension_finds_registered_kind() {
    let mut c = Cooker::default();
    c.register_source_file_type::<ObjHandler>();
    match c.handler_extension("models/cube.obj") {
        Ok(ext) => assert_eq!(ext, "obj"),
        Err(e) => panic!("unexpected {:?}", e),
    }
}

#[test]
fn handler_extension_without_extension() {
    let c = Cooker::default();
    match c.handler_extension("models/Makefile") {
        Err(CliError::AssetSourceFileExtensionInvalid(p)) => assert_eq!(p, "models/Makefile"),
        other => panic!("unexpected {:?}", other),
    }
    match c.handler_extension("models/.hidden") {
        Err(CliError::AssetSourceFileExtensionInvalid(p)) => assert_eq!(p, "models/.hidden"),
        other => panic!("unexpected {:?}", other),
    }
}

#[test]
fn handler_extension_unknown_kind() {
    let mut c = Cooker::default();
    c.register_source_file_type::<ObjHandler>();
    match c.handler_extension("scene.fbx") {
        Err(CliError::HandlerNotFound(ext)) => assert_eq!(ext, "fbx"),
        other => panic!("unexpected {:?}", other),
    }
}

#[test]
fn rescan_reports_each_failure() {
    let mut c = Cooker::default();
    c.register_source_file_type::<ObjHandler>();
    let mut m = Manifest::new();
    m.add_source_file("a.obj", &vec![initial("mesh", "a")]);
    m.add_source_file("b.fbx", &vec![]);
    m.add_source_file("README", &vec![]);
    let never = |_: &str, _: &str| -> Vec<InitialAssetDescription> { panic!("no extraction expected") };
    match rescan(&mut m, &c, "missing.obj", never) {
        Err(CliError::AssetSourceFileNotFound(p)) => assert_eq!(p, "missing.obj"),
        other => panic!("unexpected {:?}", other),
    }
    match rescan(&mut m, &c, "b.fbx", never) {
        Err(CliError::HandlerNotFound(ext)) => assert_eq!(ext, "fbx"),
        other => panic!("unexpected {:?}", other),
    }
    match rescan(&mut m, &c, "README", never) {
        Err(CliError::AssetSourceFileExtensionInvalid(p)) => assert_eq!(p, "README"),
        other => panic!("unexpected {:?}", other),
    }
    assert_eq!(m.files.len(), 3);
    assert_eq!(m.assets.len(), 1);
}

#[test]
fn rescan_replaces_the_files_assets() {
    let mut c = Cooker::default();
    c.register_source_file_type::<ObjHandler>();
    let mut m = Manifest::new();
    m.add_source_file("a.obj", &vec![initial("mesh", "old1"), initial("mesh", "old2")]);
    m.add_source_file("b.obj", &vec![initial("mesh", "other")]);
    let calls = std::cell::RefCell::new(Vec::new());
    let extract = |ext: &str, file: &str| {
        calls.borrow_mut().push((ext.to_string(), file.to_string()));
        vec![initial("mesh", "new")]
    };
    assert!(matches!(rescan(&mut m, &c, "a.obj", extract), Ok(true)));
    assert_eq!(calls.borrow().clone(), vec![("obj".to_string(), "a.obj".to_string())]);
    let names: Vec<&str> = m.assets.iter().map(|a| a.asset_name.as_str()).collect();
    assert_eq!(names, vec!["other", "new"]);
    assert_eq!(m.files.len(), 2);
    assert_eq!(m.files[0].filepath, "b.obj");
    assert_eq!(m.files[1].filepath, "a.obj");
    assert_eq!(m.files[1].asset_ids.iter().copied().collect::<Vec<_>>(), vec![1]);
    assert_eq!(m.assets[1].asset_id, 1);
}

#[test]
fn rescan_with_stale_positions_changes_nothing() {
    let mut c = Cooker::default();
    c.register_source_file_type::<ObjHandler>();
    let mut m = Manifest::new();
    m.add_source_file("a.obj", &vec![initial("mesh", "a")]);
    m.add_source_file("b.obj", &vec![initial("mesh", "b")]);
    m.remove_source_file_at(0);
    let extract = |_: &str, _: &str| vec![initial("mesh", "c")];
    assert!(matches!(rescan(&mut m, &c, "b.obj", extract), Ok(false)));
    assert_eq!(m.assets.len(), 1);
    assert_eq!(m.files.len(), 1);
}

#[test]
fn cooked_asset_path_is_under_cook_dir() {
    assert_eq!(cooked_asset_path("cube"), "./assets/cube.asset");
    assert_eq!(cooked_asset_path("cube.mesh"), "./assets/cube.asset");
}

#[test]
fn cook_needs_a_known_asset() {
    let c = Cooker::default();
    let mut m = Manifest::new();
    m.add_source_file("a.obj", &vec![initial("mesh", "hull")]);
    let task = cook("hull", &m, &c).unwrap();
    assert_eq!((task.asset, task.source_file), (0, Some(0)));
    assert!(task.job.is_none());
    assert!(matches!(cook("wing", &m, &c), Err(ParsecError::NoneValue)));
}

#[test]
fn cook_hands_the_asset_to_its_registered_handler() {
    let mut c = Cooker::default();
    c.register_asset_type_name("mesh");
    let mut m = Manifest::new();
    m.add_source_file("a.obj", &vec![initial("texture", "skin")]);
    m.add_source_file("b.obj", &vec![initial("mesh", "hull"), initial("mesh", "hull")]);
    let task = cook("hull", &m, &c).unwrap();
    assert_eq!((task.asset, task.source_file), (1, Some(1)));
    let job = task.job.unwrap();
    assert_eq!(job.asset_type, "mesh");
    assert_eq!(job.output, "./assets/hull.asset");
    assert!(cook("skin", &m, &c).unwrap().job.is_none());
}

#[test]
fn cooker_cook_picks_the_handler_by_asset_type() {
    let mut c = Cooker::default();
    c.register_asset_type_name("shader");
    let mut m = Manifest::new();
    m.add_source_file("s.glsl", &vec![initial("shader", "lit")]);
    let job = c.cook(&m.assets[0], "out.asset").unwrap();
    assert_eq!((job.asset_type.as_str(), job.output.as_str()), ("shader", "out.asset"));
    let mut d = Cooker::default();
    d.register_asset_type_name("mesh");
    assert!(d.cook(&m.assets[0], "out.asset").is_none());
}

#[test]
fn handler_for_decides_on_the_given_extension() {
    let mut c = Cooker::default();
    c.register_source_file_type::<GltfHandler>();
    match c.handler_for("scene.gltf", Some("gltf".to_string())) {
        Ok(e) => assert_eq!(e, "gltf"),
        Err(_) => panic!("a registered extension is accepted"),
    }
    match c.handler_for("scene", None) {
        Err(CliError::AssetSourceFileExtensionInvalid(p)) => assert_eq!(p, "scene"),
        _ => panic!("a missing extension is refused"),
    }
    match c.handler_for("scene.fbx", Some("fbx".to_string())) {
        Err(CliError::HandlerNotFound(e)) => assert_eq!(e, "fbx"),
        _ => panic!("an unregistered extension is refused"),
    }
}
