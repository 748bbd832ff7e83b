use oxide_engine::static_mesh::StaticMesh;

#[test]
fn set_mesh_marks_commands_outdated() {
    let mut mesh = StaticMesh { mesh_name: "cube".to_string() };
    let mut outdated = false;
    mesh.set_mesh(&mut outdated, "sphere".to_string());
    assert_eq!(mesh.mesh_name, "sphere");
    assert!(outdated);
}
