use oxide_engine::physics::CollisionHandler;

#[test]
fn candidate_pairs_by_key_order() {
    assert_eq!(CollisionHandler::candidate_pairs(&vec![]), Vec::<(usize, usize)>::new());
    assert_eq!(CollisionHandler::candidate_pairs(&vec![5]), Vec::<(usize, usize)>::new());
    assert_eq!(CollisionHandler::candidate_pairs(&vec![3, 1, 2]), vec![(0, 1), (0, 2), (2, 1)]);
}

#[test]
fn each_pair_once() {
    let keys = vec![40u64, 10, 30, 20];
    let pairs = CollisionHandler::candidate_pairs(&keys);
    assert_eq!(pairs.len(), 6);
    for i in 0..4 {
        for j in 0..4 {
            if i != j {
                let forward = pairs.contains(&(i, j));
                let backward = pairs.contains(&(j, i));
                assert!(forward != backward);
                assert_eq!(forward, keys[i] > keys[j]);
            }
        }
    }
}
