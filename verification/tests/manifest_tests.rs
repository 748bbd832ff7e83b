use oxide_engine::assets::InitialAssetDescription;
use oxide_engine::manifest::Manifest;

fn initial(kind: &str, subresource: &str) -> InitialAssetDescription {
    InitialAssetDescription { kind: kind.to_string(), subresource: subresource.to_string() }
}

#[test]
fn new_manifest_is_empty() {
    let m = Manifest::new();
    assert_eq!(m.verison, 0);
    assert!(m.files.is_empty());
    assert!(m.assets.is_empty());
}

#[test]
fn add_source_file_records_assets_and_ids() {
    let mut m = Manifest::new();
    m.add_source_file("models/ship.obj", &vec![initial("mesh", "hull"), initial("mesh", "wing")]);
    m.add_source_file("shaders/lit.frag", &vec![initial("shader", "main")]);
    assert_eq!(m.files.len(), 2);
    assert_eq!(m.files[0].filepath, "models/ship.obj");
    assert_eq!(m.files[0].asset_ids.iter().copied().collect::<Vec<_>>(), vec![0, 1]);
    assert_eq!(m.files[1].asset_ids.iter().copied().collect::<Vec<_>>(), vec![2]);
    assert_eq!(m.assets.len(), 3);
    assert_eq!(m.assets[1].asset_id, 1);
    assert_eq!(m.assets[1].asset_name, "wing");
    assert_eq!(m.assets[1].asset_type, "mesh");
    assert_eq!(m.assets[1].source_file_path, "models/ship.obj");
    assert_eq!(m.assets[1].source_subresource, "wing");
    assert_eq!(m.assets[2].asset_type, "shader");
    assert_eq!(m.assets[2].source_file_path, "shaders/lit.frag");
}

#[test]
fn add_source_file_without_assets() {
    let mut m = Manifest::new();
    m.add_source_file("empty.obj", &Vec::new());
    assert_eq!(m.files.len(), 1);
    assert!(m.files[0].asset_ids.is_empty());
    assert!(m.assets.is_empty());
}

#[test]
fn find_file_gives_first_match() {
    let mut m = Manifest::new();
    m.add_source_file("a.obj", &vec![initial("mesh", "x")]);
    m.add_source_file("b.obj", &vec![]);
    m.add_source_file("a.obj", &vec![]);
    assert_eq!(m.find_file("a.obj"), Some(0));
    assert_eq!(m.find_file("b.obj"), Some(1));
    assert_eq!(m.find_file("c.obj"), None);
}

#[test]
fn find_asset_by_name() {
    let mut m = Manifest::new();
    m.add_source_file("a.obj", &vec![initial("mesh", "x"), initial("mesh", "y"), initial("mesh", "y")]);
    assert_eq!(m.find_asset("y"), Some(1));
    assert_eq!(m.find_asset("x"), Some(0));
    assert_eq!(m.find_asset("z"), None);
}

#[test]
fn remove_source_file_drops_its_assets() {
    let mut m = Manifest::new();
    m.add_source_file("a.obj", &vec![initial("mesh", "a0"), initial("mesh", "a1")]);
    m.add_source_file("b.obj", &vec![initial("mesh", "b0")]);
    m.add_source_file("c.obj", &vec![initial("mesh", "c0")]);
    assert!(m.asset_ids_in_range(0));
    m.remove_source_file_at(0);
    let names: Vec<&str> = m.assets.iter().map(|a| a.asset_name.as_str()).collect();
    assert_eq!(names, vec!["b0", "c0"]);
    // the last file took the place of the removed one
    assert_eq!(m.files.len(), 2);
    assert_eq!(m.files[0].filepath, "c.obj");
    assert_eq!(m.files[1].filepath, "b.obj");
}

#[test]
fn remove_then_ids_of_others_are_stale() {
    let mut m = Manifest::new();
    m.add_source_file("a.obj", &vec![initial("mesh", "a0"), initial("mesh", "a1")]);
    m.add_source_file("b.obj", &vec![initial("mesh", "b0"), initial("mesh", "b1")]);
    m.remove_source_file_at(0);
    // b.obj still records positions 2 and 3, which no longer exist
    assert_eq!(m.files[0].filepath, "b.obj");
    assert!(!m.asset_ids_in_range(0));
}

#[test]
fn remove_right_after_add_restores_manifest() {
    let mut m = Manifest::new();
    m.add_source_file("a.obj", &vec![initial("mesh", "a0")]);
    m.add_source_file("b.obj", &vec![initial("mesh", "b0"), initial("mesh", "b1")]);
    m.remove_source_file_at(1);
    assert_eq!(m.files.len(), 1);
    assert_eq!(m.files[0].filepath, "a.obj");
    assert_eq!(m.assets.len(), 1);
    assert_eq!(m.assets[0].asset_name, "a0");
}

#[test]
fn remove_keeps_order_of_interleaved_assets() {
    let mut m = Manifest::new();
    m.add_source_file("a.obj", &vec![initial("mesh", "0"), initial("mesh", "1"), initial("mesh", "2")]);
    // a file recording scattered positions
    let mut ids = std::collections::BTreeSet::new();
    ids.insert(0usize);
    ids.insert(2usize);
    m.files.push(oxide_engine::assets::AssetSourceFile { filepath: "x".to_string(), asset_ids: ids });
    assert!(m.asset_ids_in_range(1));
    m.remove_source_file_at(1);
    let names: Vec<&str> = m.assets.iter().map(|a| a.asset_name.as_str()).collect();
    assert_eq!(names, vec!["1"]);
    assert_eq!(m.files.len(), 1);
}

#[test]
fn find_file_compares_paths_by_components() {
    let mut m = Manifest::new();
    m.add_source_file("assets/a.obj", &vec![]);
    assert_eq!(m.find_file("assets//a.obj"), Some(0));
    assert_eq!(m.find_file("assets/./a.obj"), Some(0));
    assert_eq!(m.find_file("assets/a.obj/"), Some(0));
    assert_eq!(m.find_file("assets/b.obj"), None);
}

#[test]
fn file_of_asset_and_assets_to_cook() {
    let mut m = Manifest::new();
    m.add_source_file("a.obj", &vec![initial("mesh", "x"), initial("mesh", "y")]);
    m.add_source_file("b.obj", &vec![initial("mesh", "z")]);
    assert_eq!(m.file_of_asset(1), Some(0));
    assert_eq!(m.file_of_asset(2), Some(1));
    assert_eq!(m.file_of_asset(3), None);
    assert_eq!(m.assets_to_cook(None), vec![0, 1, 2]);
    assert_eq!(m.assets_to_cook(Some(1)), vec![2]);
    m.remove_source_file_at(0);
    assert_eq!(m.assets_to_cook(Some(0)), Vec::<usize>::new());
}
