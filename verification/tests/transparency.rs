use renderer::scene::draw_order_back_to_front;

#[test]
fn entities_at_distances_five_one_three_draw_farthest_first() {
    // Squared distances of entities at distances [5, 1, 3].
    let keys = vec![25u64, 1, 9];
    let order = draw_order_back_to_front(&keys);
    // Draw order is [5, 3, 1]: indices [0, 2, 1].
    assert_eq!(order, vec![0, 2, 1]);
}

#[test]
fn empty_scene_sorts_to_empty_order() {
    let keys: Vec<u64> = vec![];
    assert_eq!(draw_order_back_to_front(&keys), Vec::<usize>::new());
}

#[test]
fn equal_keys_keep_every_entity_exactly_once() {
    let keys = vec![4u64, 4, 4, 1];
    let mut order = draw_order_back_to_front(&keys);
    assert_eq!(order[3], 3);
    order.sort();
    assert_eq!(order, vec![0, 1, 2, 3]);
}

#[test]
fn already_descending_input_is_kept() {
    let keys = vec![9u64, 7, 5, 2];
    assert_eq!(draw_order_back_to_front(&keys), vec![0, 1, 2, 3]);
}
