use oxide_engine::model_files::{model_format, ModelFormat};

#[test]
fn obj_and_gltf_names_pick_their_loader() {
    assert_eq!(model_format("cube.obj"), ModelFormat::Obj("cube".to_string()));
    assert_eq!(model_format("scene.gltf"), ModelFormat::Gltf("scene".to_string()));
}

#[test]
fn name_splits_at_the_first_dot() {
    assert_eq!(model_format("a.b.obj"), ModelFormat::Unsupported);
    assert_eq!(model_format("a.obj.gltf"), ModelFormat::Unsupported);
    assert_eq!(model_format(".obj"), ModelFormat::Obj(String::new()));
}

#[test]
fn other_extensions_are_unsupported() {
    assert_eq!(model_format("mesh.fbx"), ModelFormat::Unsupported);
    assert_eq!(model_format("mesh."), ModelFormat::Unsupported);
    assert_eq!(model_format("mesh.OBJ"), ModelFormat::Unsupported);
}

#[test]
fn names_without_a_dot_are_invalid() {
    assert_eq!(model_format("mesh"), ModelFormat::Invalid);
    assert_eq!(model_format(""), ModelFormat::Invalid);
}
