//! Association preloading: batched child queries and grouping by key.

use chela::preload::{attach_children, indices_with_key, preload_query};

#[derive(PartialEq, Debug, Clone)]
struct User {
    id: i32,
    username: String,
    orders: Vec<Order>,
}

#[derive(PartialEq, Debug, Clone, Copy)]
struct Order {
    id: i32,
    user_id: i32,
    price: f64,
}

#[derive(PartialEq)]
struct UserOuter {
    id: i32,
    username: String,
}

#[test]
fn preload_has_many_works() {
    let expected_users = vec![User {
        id: 1,
        username: "origin".to_string(),
        orders: vec![Order {
            id: 1,
            user_id: 1,
            price: 200.0,
        }],
    }];
    let users_outer = vec![UserOuter {
        id: 1,
        username: "origin".to_string(),
    }];

    let orders = vec![Order {
        id: 1,
        user_id: 1,
        price: 200.0,
    }];
    let parent_ids: Vec<i32> = users_outer.iter().map(|user| user.id).collect();
    let child_keys: Vec<i32> = orders.iter().map(|order| order.user_id).collect();
    let groups = attach_children(&parent_ids, &child_keys);

    let result = users_outer
        .iter()
        .zip(groups.iter())
        .map(|(user, group)| User {
            orders: group.iter().map(|&j| orders[j]).collect(),
            id: user.id,
            username: user.username.to_owned(),
        })
        .collect::<Vec<_>>();
    assert_eq!(result, expected_users);
}

#[test]
fn parent_without_children_gets_empty_group() {
    let parent_ids = vec![1, 2];
    let child_keys = vec![1, 1];
    let groups = attach_children(&parent_ids, &child_keys);
    assert_eq!(groups.len(), 2);
    assert_eq!(groups[0], vec![0, 1]);
    assert_eq!(groups[1], Vec::<usize>::new());
}

#[test]
fn grouping_preserves_query_order() {
    let child_keys = vec![7, 3, 7, 7, 3];
    assert_eq!(indices_with_key(&child_keys, 7), vec![0, 2, 3]);
    assert_eq!(indices_with_key(&child_keys, 3), vec![1, 4]);
    assert_eq!(indices_with_key(&child_keys, 9), Vec::<usize>::new());
}

#[test]
fn grouping_matches_join_then_group() {
    let parent_ids = vec![10, 20, 30];
    let child_keys = vec![20, 10, 20, 30, 40];
    let groups = attach_children(&parent_ids, &child_keys);
    for (i, &p) in parent_ids.iter().enumerate() {
        let joined: Vec<usize> = (0..child_keys.len())
            .filter(|&j| child_keys[j] == p)
            .collect();
        assert_eq!(groups[i], joined);
    }
}

#[test]
fn preload_query_renders_batched_select() {
    let q = preload_query(
        "orders".to_string(),
        "user_id".to_string(),
        vec![1, 2, 3, 4],
    );
    assert_eq!(
        q.to_string(),
        "SELECT * FROM orders WHERE user_id IN (1, 2, 3, 4)"
    );
}

#[test]
fn preload_query_with_no_parents_renders_empty_list() {
    let q = preload_query("orders".to_string(), "user_id".to_string(), vec![]);
    assert_eq!(q.to_string(), "SELECT * FROM orders WHERE user_id IN ()");
}
