use city_simulator::systems::utility_systems::DisjointSetUnion;

#[test]
fn new_sets_are_singletons() {
    let mut dsu = DisjointSetUnion::new(5);
    for i in 0..5u32 {
        assert_eq!(dsu.find(i), i);
    }
}

#[test]
fn union_joins_two_classes() {
    let mut dsu = DisjointSetUnion::new(4);
    dsu.union(0, 1);
    assert_eq!(dsu.find(0), dsu.find(1));
    assert_ne!(dsu.find(0), dsu.find(2));
    assert_ne!(dsu.find(2), dsu.find(3));
}

#[test]
fn union_tie_keeps_first_representative() {
    // Equal ranks: the representative of `y` goes under that of `x`.
    let mut dsu = DisjointSetUnion::new(3);
    dsu.union(2, 1);
    assert_eq!(dsu.find(1), 2);
    assert_eq!(dsu.find(2), 2);
}

#[test]
fn union_by_rank_keeps_higher_rank_root() {
    let mut dsu = DisjointSetUnion::new(4);
    dsu.union(0, 1); // root 0, rank 1
    dsu.union(2, 0); // rank of 2 is 0 < 1: 2 goes under 0
    assert_eq!(dsu.find(2), 0);
    dsu.union(3, 2); // 3 (rank 0) goes under 0 (rank 1)
    assert_eq!(dsu.find(3), 0);
}

#[test]
fn union_is_transitive() {
    let mut dsu = DisjointSetUnion::new(6);
    dsu.union(0, 1);
    dsu.union(1, 2);
    dsu.union(3, 4);
    assert_eq!(dsu.find(0), dsu.find(2));
    assert_eq!(dsu.find(3), dsu.find(4));
    assert_ne!(dsu.find(0), dsu.find(3));
    dsu.union(2, 4);
    for i in 0..5u32 {
        assert_eq!(dsu.find(i), dsu.find(0));
    }
    assert_ne!(dsu.find(5), dsu.find(0));
}

#[test]
fn find_is_idempotent() {
    let mut dsu = DisjointSetUnion::new(8);
    for i in 0..7u32 {
        dsu.union(i, i + 1);
    }
    let r = dsu.find(7);
    assert_eq!(dsu.find(r), r);
    assert_eq!(dsu.find(7), r);
}

#[test]
fn union_of_same_class_changes_nothing() {
    let mut dsu = DisjointSetUnion::new(3);
    dsu.union(0, 1);
    let before = dsu.find(1);
    dsu.union(1, 0);
    assert_eq!(dsu.find(0), before);
    assert_ne!(dsu.find(2), before);
}

#[test]
fn empty_union_find() {
    let _dsu = DisjointSetUnion::new(0);
}
