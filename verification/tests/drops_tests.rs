use bag_goblin::combat::{DropTable, ItemId};
use bag_goblin::drops::{resolve_drops, resolve_drops_with};

fn table(items: Vec<ItemId>, chances: Vec<u32>) -> DropTable {
    DropTable { items, chances }
}

#[test]
fn draws_below_weight_drop_in_table_order() {
    let t = table(
        vec![ItemId::Croissant, ItemId::Athelas, ItemId::HealthPotion],
        vec![5, 0, 7],
    );
    // 4 < 5 drops, 0 < 0 does not, 6 < 7 drops.
    let r = resolve_drops_with(&t, &vec![4, 0, 6]);
    assert_eq!(r, vec![ItemId::Croissant, ItemId::HealthPotion]);
}

#[test]
fn zero_weight_entry_never_drops_even_on_zero_draw() {
    let t = table(vec![ItemId::Scroll], vec![0]);
    let r = resolve_drops_with(&t, &vec![0]);
    assert!(r.is_empty());
}

#[test]
fn high_draws_drop_nothing() {
    let t = table(vec![ItemId::Vial, ItemId::TurtleHerb], vec![3, 9]);
    let r = resolve_drops_with(&t, &vec![3, 9]);
    assert!(r.is_empty());
}

#[test]
fn empty_table_yields_no_drops() {
    let t = table(vec![], vec![]);
    assert!(resolve_drops(&t).is_empty());
}

#[test]
fn all_zero_weight_table_yields_no_drops() {
    let t = table(
        vec![ItemId::CandleStick, ItemId::EmptyLantern, ItemId::FireEssence],
        vec![0, 0, 0],
    );
    assert!(resolve_drops(&t).is_empty());
}

#[test]
fn sole_positive_weight_entry_always_drops() {
    // With one entry holding the whole weight, every draw from
    // [0, total) lands below it: the item must drop every time.
    let t = table(vec![ItemId::MediumShield], vec![12]);
    for _ in 0..50 {
        assert_eq!(resolve_drops(&t), vec![ItemId::MediumShield]);
    }
}

#[test]
fn dropped_items_always_carry_positive_weight() {
    let t = table(
        vec![ItemId::HealthPotion, ItemId::Scroll, ItemId::Croissant],
        vec![3, 0, 5],
    );
    for _ in 0..200 {
        for it in resolve_drops(&t) {
            assert_ne!(it, ItemId::Scroll);
            assert!(it == ItemId::HealthPotion || it == ItemId::Croissant);
        }
    }
}

#[test]
fn total_weight_sums_the_chances() {
    let t = table(
        vec![ItemId::Vial, ItemId::Athelas, ItemId::Scroll],
        vec![2, 0, 40],
    );
    assert_eq!(t.total_weight(), 42);
    let empty = table(vec![], vec![]);
    assert_eq!(empty.total_weight(), 0);
}

#[test]
fn validate_checks_parallel_lists() {
    let good = table(vec![ItemId::Vial, ItemId::Scroll], vec![1, 2]);
    assert!(good.validate());
    let bad = table(vec![ItemId::Vial], vec![1, 2]);
    assert!(!bad.validate());
    assert!(DropTable::default().validate());
}
