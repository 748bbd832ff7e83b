use oxide_engine::mesh_data::{check_mesh_data, decode_indices, sequential_indices, IndexComponent, MeshError};
use oxide_engine::ui::UiManager;

#[test]
fn check_mesh_data_accepts_valid_mesh() {
    assert_eq!(check_mesh_data(3, &vec![0, 1, 2, 2, 1, 0]), Ok(()));
}

#[test]
fn check_mesh_data_errors_in_order() {
    assert_eq!(check_mesh_data(0, &vec![]), Err(MeshError::EmptyVertexList));
    assert_eq!(check_mesh_data(0, &vec![5]), Err(MeshError::EmptyVertexList));
    assert_eq!(check_mesh_data(3, &vec![]), Err(MeshError::EmptyIndexList));
    assert_eq!(check_mesh_data(3, &vec![0, 3, 1]), Err(MeshError::IndexOutOfBounds));
    assert_eq!(check_mesh_data(3, &vec![u32::MAX]), Err(MeshError::IndexOutOfBounds));
}

#[test]
fn quad_indices_pattern() {
    assert_eq!(UiManager::quad_indices(0), Vec::<u32>::new());
    assert_eq!(UiManager::quad_indices(1), vec![0, 1, 2, 0, 2, 3]);
    assert_eq!(UiManager::quad_indices(2), vec![0, 1, 2, 0, 2, 3, 4, 5, 6, 4, 6, 7]);
}

#[test]
fn quads_form_a_mesh_over_their_corners() {
    for n in 1..6usize {
        assert_eq!(check_mesh_data(4 * n, &UiManager::quad_indices(n)), Ok(()));
        assert_eq!(check_mesh_data(4 * n - 1, &UiManager::quad_indices(n)), Err(MeshError::IndexOutOfBounds));
    }
}

#[test]
fn decode_u8_u16_u32() {
    let buffer: Vec<u8> = vec![9, 1, 2, 3, 4, 0xff, 0xff, 0x01, 0x00];
    assert_eq!(decode_indices(&buffer, 1, 4, IndexComponent::U8), Some(vec![1, 2, 3, 4]));
    assert_eq!(decode_indices(&buffer, 1, 2, IndexComponent::U16), Some(vec![0x0201, 0x0403]));
    assert_eq!(decode_indices(&buffer, 5, 2, IndexComponent::U16), Some(vec![0xffff, 0x0001]));
    assert_eq!(decode_indices(&buffer, 1, 2, IndexComponent::U32), Some(vec![0x04030201, 0x0001ffff]));
    assert_eq!(decode_indices(&buffer, 0, 0, IndexComponent::U32), Some(vec![]));
    assert_eq!(decode_indices(&buffer, 0, 2, IndexComponent::Unsupported), None);
}

#[test]
fn sequential_indices_count_up() {
    assert_eq!(sequential_indices(0), Vec::<u32>::new());
    assert_eq!(sequential_indices(4), vec![0, 1, 2, 3]);
    assert_eq!(check_mesh_data(4, &sequential_indices(4)), Ok(()));
}
