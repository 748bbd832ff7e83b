use oxide_engine::mesh_transfer::MeshTransfer;

#[test]
fn old_data_is_shown_until_the_transfer_finishes() {
    let mut mesh = MeshTransfer::new(vec![1u32, 2, 3]);
    mesh.request(vec![4, 5, 6]);
    assert!(mesh.transfer_requested());
    assert_eq!(mesh.current(), &vec![1, 2, 3]);

    let sent = mesh.start_transfer();
    assert_eq!(sent, Some(vec![4, 5, 6]));
    assert!(mesh.transfering());
    assert!(!mesh.transfer_requested());
    assert_eq!(mesh.current(), &vec![1, 2, 3]);

    mesh.finish_transfer(sent.unwrap());
    assert!(!mesh.transfering());
    assert_eq!(mesh.current(), &vec![4, 5, 6]);
    assert_eq!(mesh.start_transfer(), None);
}

#[test]
fn one_transfer_at_a_time_and_last_request_wins() {
    let mut mesh = MeshTransfer::new("a");
    mesh.request("b");
    assert_eq!(mesh.start_transfer(), Some("b"));
    mesh.request("c");
    mesh.request("d");
    assert_eq!(mesh.start_transfer(), None);
    assert_eq!(*mesh.current(), "a");
    mesh.finish_transfer("b");
    assert_eq!(*mesh.current(), "b");
    assert_eq!(mesh.start_transfer(), Some("d"));
    mesh.finish_transfer("d");
    assert_eq!(*mesh.current(), "d");
}

#[test]
fn nothing_waiting_starts_nothing() {
    let mut mesh = MeshTransfer::new(0u8);
    assert!(!mesh.transfer_requested());
    assert_eq!(mesh.start_transfer(), None);
    assert!(!mesh.transfering());
}

#[test]
fn replacing_at_once_keeps_waiting_data() {
    let mut mesh = MeshTransfer::new(1u8);
    mesh.request(2);
    mesh.replace_now(3);
    assert_eq!(*mesh.current(), 3);
    assert_eq!(mesh.start_transfer(), Some(2));
}
