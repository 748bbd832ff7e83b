use oxide_engine::asset_index::{find_id, name_assets, resolve_material, Attachment, AttachmentDescription, NamedId, ResolveError};

fn named(id: u128, name: &str) -> NamedId {
    NamedId { id, name: name.to_string() }
}

#[test]
fn find_id_gives_first_of_name() {
    let entries = vec![named(10, "lit"), named(11, "perspective"), named(12, "lit")];
    assert_eq!(find_id(&entries, "lit"), Some(10));
    assert_eq!(find_id(&entries, "perspective"), Some(11));
    assert_eq!(find_id(&entries, "unlit"), None);
}

#[test]
fn name_assets_keeps_names() {
    let names = vec!["a".to_string(), "b".to_string()];
    let ids = name_assets(&names);
    assert_eq!(ids.len(), 2);
    assert_eq!(ids[0].name, "a");
    assert_eq!(ids[1].name, "b");
    assert_ne!(ids[0].id, ids[1].id);
}

#[test]
fn resolve_material_success() {
    let shaders = vec![named(1, "perspective"), named(2, "lit")];
    let textures = vec![named(7, "brick.png")];
    let slots = vec![AttachmentDescription::Texture("brick.png".to_string()), AttachmentDescription::DefaultTexture];
    let m = resolve_material(&shaders, &textures, "perspective", "lit", &slots).unwrap();
    assert_eq!(m.vertex_shader, 1);
    assert_eq!(m.fragment_shader, 2);
    assert_eq!(m.attachments, vec![Attachment::Texture(7), Attachment::DefaultTexture]);
}

#[test]
fn resolve_material_errors() {
    let shaders = vec![named(1, "perspective"), named(2, "lit")];
    let textures = vec![named(7, "brick.png")];
    let slots = vec![AttachmentDescription::DefaultTexture, AttachmentDescription::Texture("moss.png".to_string())];
    match resolve_material(&shaders, &textures, "ortho", "lit", &slots) {
        Err(ResolveError::VertexShaderNotFound(n)) => assert_eq!(n, "ortho"),
        _ => panic!("expected a missing vertex shader"),
    }
    match resolve_material(&shaders, &textures, "perspective", "unlit", &slots) {
        Err(ResolveError::FragmentShaderNotFound(n)) => assert_eq!(n, "unlit"),
        _ => panic!("expected a missing fragment shader"),
    }
    match resolve_material(&shaders, &textures, "perspective", "lit", &slots) {
        Err(ResolveError::TextureNotFound(n)) => assert_eq!(n, "moss.png"),
        _ => panic!("expected a missing texture"),
    }
}
