use oxide_engine::model_names::{
    decimal, default_material_name, gltf_material_name, gltf_mesh_name, gltf_texture_name, obj_material, obj_material_name,
    obj_mesh_name, obj_texture_name, replace_backslashes, ObjMaterialError,
};

#[test]
fn decimal_writes_like_to_string() {
    for n in [0usize, 7, 10, 42, 100, 9999, 123456789, usize::MAX] {
        assert_eq!(decimal(n), n.to_string());
    }
}

#[test]
fn backslashes_become_slashes() {
    assert_eq!(replace_backslashes("a\\b\\c.png"), "a/b/c.png");
    assert_eq!(replace_backslashes("ünï\\côdé"), "ünï/côdé");
    assert_eq!(replace_backslashes(""), "");
}

#[test]
fn obj_names() {
    assert_eq!(obj_material_name("ship", "hull"), "ship-hull");
    assert_eq!(obj_mesh_name("ship", 12), "ship12");
    assert_eq!(obj_texture_name("ship", "tex\\hull.png"), "ship/tex/hull.png");
    assert_eq!(obj_texture_name("a\\b", "c"), "a/b/c");
}

#[test]
fn gltf_names() {
    assert_eq!(gltf_texture_name("a\\b", "tex\\c.png"), "a\\b/tex/c.png");
    assert_eq!(gltf_material_name("ship", Some("metal\\1".to_string()), 3), "ship.metal/1");
    assert_eq!(gltf_material_name("ship", None, 3), "ship.3");
    assert_eq!(gltf_mesh_name("ship", Some("wing".to_string()), 4, 0), "ship.wing.0");
    assert_eq!(gltf_mesh_name("ship", None, 4, 2), "ship.4.2");
    assert_eq!(default_material_name(5), "Material5");
}

#[test]
fn obj_material_checks_the_position() {
    assert_eq!(obj_material(Some(1), 2), Ok(1));
    assert_eq!(obj_material(Some(2), 2), Err(ObjMaterialError::MaterialNotFound));
    assert_eq!(obj_material(None, 2), Err(ObjMaterialError::NoMaterial));
}
