use worldgen::atlas_fields::{
    assign_continent_ids, compute_distance_to_value, for_each_cardinal_neighbor, for_each_neighbor,
    NO_SOURCE_DISTANCE,
};

#[test]
fn distance_without_source_stays_far_instead_of_collapsing_to_zero() {
    let distances = compute_distance_to_value(&vec![true, true, true, true], 2, 2, false);

    assert!(distances.iter().all(|distance| *distance == NO_SOURCE_DISTANCE));
}

#[test]
fn distance_uses_straight_and_diagonal_step_costs() {
    // 3x3 grid with a single source in the middle of the top row.
    let mask = vec![false, true, false, false, false, false, false, false, false];
    let distances = compute_distance_to_value(&mask, 3, 3, true);
    assert_eq!(distances, vec![1000, 0, 1000, 1414, 1000, 1414, 2414, 2000, 2414]);
}

#[test]
fn distance_is_zero_on_every_source() {
    let mask = vec![true, false, false, true];
    let distances = compute_distance_to_value(&mask, 4, 1, true);
    assert_eq!(distances, vec![0, 1000, 1000, 0]);
}

#[test]
fn neighbours_are_listed_in_visit_order_with_costs() {
    assert_eq!(for_each_neighbor(0, 2, 2), vec![(1, 1000), (2, 1000), (3, 1414)]);
    assert_eq!(for_each_neighbor(4, 3, 3).len(), 8);
    // Cardinal neighbours come west, east, north, south.
    assert_eq!(for_each_cardinal_neighbor(4, 3, 3), vec![3, 5, 1, 7]);
    assert_eq!(for_each_cardinal_neighbor(0, 3, 3), vec![1, 3]);
}

#[test]
fn continents_are_labelled_by_four_connectivity() {
    // Two diagonal-only touching cells belong to different continents.
    let mask = vec![
        true, false, true, //
        false, true, true, //
        false, false, false, //
    ];
    let ids = assign_continent_ids(&mask, 3, 3);
    assert_eq!(ids, vec![1, 0, 2, 0, 2, 2, 0, 0, 0]);
}

#[test]
fn continent_labels_follow_first_cell_order() {
    let mask = vec![false, true, false, true, true, false, false, true];
    let ids = assign_continent_ids(&mask, 8, 1);
    assert_eq!(ids, vec![0, 1, 0, 2, 2, 0, 0, 3]);
    assert_eq!(assign_continent_ids(&vec![false; 4], 2, 2), vec![0; 4]);
}
