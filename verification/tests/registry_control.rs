//! Unit registry and control-group behavior on concrete values.

use swarmy::control::{PlayerControl, ACTIVE_UNITS_GROUP_IDX};
use swarmy::events::MapPos;
use swarmy::registry::UnitRegistry;
use swarmy::tag::UnitTag;
use swarmy::unit_colors::{
    get_unit_sized_color, user_color, FREYA_LIGHT_BLUE, FREYA_LIGHT_GREEN, FREYA_ORANGE,
    FREYA_WHITE, UNIT_SIZE_DEFAULT,
};

fn tag(index: u32, recycle: u32) -> UnitTag {
    UnitTag { index, recycle }
}

fn pos(x: i64, y: i64) -> MapPos {
    MapPos { x, y }
}

#[test]
fn tag_key_packs_index_and_recycle() {
    assert_eq!(tag(1, 2).key(), 0x1_0000_0002);
    assert_eq!(tag(0, 7).key(), 7);
    assert_eq!(tag(7, 0).key(), 7 * 0x1_0000_0000);
}

#[test]
fn game_tag_encoding_round_trips() {
    let t = tag(0x2a, 0x155);
    let packed = swarmy::tag::game_tag(t);
    assert_eq!(packed, 0x2a * 0x40000 + 0x155);
    assert_eq!(swarmy::tag::game_tag_index(packed), 0x2a);
    assert_eq!(swarmy::tag::game_tag_recycle(packed), 0x155);
}

#[test]
fn tags_with_same_index_different_recycle_have_distinct_keys() {
    assert_ne!(tag(5, 1).key(), tag(5, 2).key());
    assert_ne!(tag(1, 0).key(), tag(0, 1).key());
}

#[test]
fn user_colors_are_fixed_per_player() {
    assert_eq!(user_color(0), FREYA_LIGHT_GREEN);
    assert_eq!(user_color(1), FREYA_LIGHT_BLUE);
    assert_eq!(user_color(3), FREYA_ORANGE);
    assert_eq!(user_color(42), FREYA_WHITE);
}

#[test]
fn unit_size_table_gives_exact_values() {
    assert_eq!(get_unit_sized_color("MineralField", 0), (48, FREYA_LIGHT_BLUE));
    assert_eq!(get_unit_sized_color("Broodling", 0), (6, [0xf4, 0xf5, 0xf8, 0xff]));
    // An unknown name falls back to the default size and the owner's color.
    assert_eq!(get_unit_sized_color("SomethingNew", 3), (UNIT_SIZE_DEFAULT, FREYA_ORANGE));
    // Different names must give different answers: the comparison really
    // reads the string contents.
    assert_ne!(get_unit_sized_color("MineralField", 0), get_unit_sized_color("Hatchery", 0));
}

#[test]
fn registry_init_then_lookup() {
    let mut reg = UnitRegistry::new();
    let rec = reg.init_or_register(tag(5, 0), String::from("Marine"), Some(1), pos(3, 4), 10);
    assert_eq!(rec.tag, tag(5, 0));
    assert_eq!(rec.name, "Marine");
    assert_eq!(rec.owner, Some(1));
    assert!(!rec.selected);
    let looked = reg.get(tag(5, 0)).expect("unit must be registered");
    assert_eq!(looked.pos, pos(3, 4));
    assert_eq!(looked.creation_loop, 10);
}

#[test]
fn registry_reinit_keeps_identity_refreshes_position() {
    let mut reg = UnitRegistry::new();
    let _ = reg.init_or_register(tag(5, 0), String::from("Marine"), Some(1), pos(0, 0), 1);
    let rec = reg.init_or_register(tag(5, 0), String::from("Zergling"), Some(2), pos(9, 9), 7);
    // Identity and ownership stay; only position and loop move.
    assert_eq!(rec.name, "Marine");
    assert_eq!(rec.owner, Some(1));
    assert_eq!(rec.pos, pos(9, 9));
    assert_eq!(rec.last_updated, 7);
    assert_eq!(rec.creation_loop, 1);
}

#[test]
fn registry_born_on_known_tag_only_augments() {
    let mut reg = UnitRegistry::new();
    let _ = reg.init_or_register(tag(2, 0), String::from("Egg"), Some(1), pos(1, 1), 1);
    let rec = reg.born(
        tag(2, 0),
        String::from("Zergling"),
        Some(2),
        pos(8, 8),
        Some(String::from("MorphZergling")),
        5,
    );
    assert_eq!(rec.name, "Egg");
    assert_eq!(rec.pos, pos(1, 1));
    assert_eq!(rec.creator_ability.as_deref(), Some("MorphZergling"));
    assert_eq!(rec.last_updated, 5);
}

#[test]
fn registry_born_on_unknown_tag_creates_record() {
    let mut reg = UnitRegistry::new();
    let rec = reg.born(tag(9, 1), String::from("Larva"), Some(2), pos(2, 2), None, 3);
    assert_eq!(rec.name, "Larva");
    assert!(reg.get(tag(9, 1)).is_some());
}

#[test]
fn registry_position_update_unknown_tag_is_skipped() {
    let mut reg = UnitRegistry::new();
    assert!(reg.position_update(tag(3, 0), pos(5, 5), 2).is_none());
    assert!(reg.get(tag(3, 0)).is_none());
}

#[test]
fn registry_died_removes_and_returns_record() {
    let mut reg = UnitRegistry::new();
    let _ = reg.init_or_register(tag(5, 0), String::from("Marine"), Some(1), pos(0, 0), 0);
    let removed = reg.died(tag(5, 0)).expect("known tag must be returned");
    assert_eq!(removed.name, "Marine");
    assert!(reg.get(tag(5, 0)).is_none());
    // Dying twice is a benign no-op.
    assert!(reg.died(tag(5, 0)).is_none());
}

#[test]
fn registry_died_never_confuses_recycle_counters() {
    let mut reg = UnitRegistry::new();
    let _ = reg.init_or_register(tag(5, 1), String::from("Marine"), Some(1), pos(0, 0), 0);
    let _ = reg.init_or_register(tag(5, 2), String::from("Zergling"), Some(2), pos(1, 1), 0);
    // A died event for recycle 1 never removes the live unit with
    // recycle 2 at the same index.
    let removed = reg.died(tag(5, 1)).expect("recycle 1 was alive");
    assert_eq!(removed.name, "Marine");
    let survivor = reg.get(tag(5, 2)).expect("recycle 2 must survive");
    assert_eq!(survivor.name, "Zergling");
}

#[test]
fn selection_radius_round_trip_restores_exactly() {
    let mut reg = UnitRegistry::new();
    let rec = reg.init_or_register(tag(1, 0), String::from("Marine"), Some(1), pos(0, 0), 0);
    let base = rec.radius;
    assert!(reg.set_selected(tag(1, 0), true, 1));
    assert_eq!(reg.get(tag(1, 0)).unwrap().radius, base * 2);
    assert!(reg.set_selected(tag(1, 0), false, 2));
    assert_eq!(reg.get(tag(1, 0)).unwrap().radius, base);
}

#[test]
fn selection_scaling_applies_once_per_transition() {
    let mut reg = UnitRegistry::new();
    let rec = reg.init_or_register(tag(1, 0), String::from("Marine"), Some(1), pos(0, 0), 0);
    let base = rec.radius;
    assert!(reg.set_selected(tag(1, 0), true, 1));
    // A repeated select with no state change must not compound.
    assert!(!reg.set_selected(tag(1, 0), true, 2));
    assert_eq!(reg.get(tag(1, 0)).unwrap().radius, base * 2);
}

#[test]
fn control_groups_start_empty() {
    let p = PlayerControl::new(1);
    for g in 0..11 {
        assert!(p.group_copy(g).is_empty());
    }
}

#[test]
fn set_group_copies_active_selection() {
    let mut p = PlayerControl::new(1);
    p.replace_selection(vec![tag(1, 0), tag(2, 0)]);
    p.set_group(3);
    assert_eq!(p.group_copy(3), vec![tag(1, 0), tag(2, 0)]);
    // The active selection itself is untouched.
    assert_eq!(p.active_selection(), vec![tag(1, 0), tag(2, 0)]);
}

#[test]
fn clear_group_empties_target() {
    let mut p = PlayerControl::new(1);
    p.replace_selection(vec![tag(1, 0)]);
    p.set_group(2);
    p.clear_group(2);
    assert!(p.group_copy(2).is_empty());
}

#[test]
fn append_group_deduplicates() {
    let mut p = PlayerControl::new(1);
    p.replace_selection(vec![tag(1, 0), tag(2, 0)]);
    p.set_group(4);
    p.replace_selection(vec![tag(2, 0), tag(3, 0)]);
    p.append_group(4);
    assert_eq!(p.group_copy(4), vec![tag(1, 0), tag(2, 0), tag(3, 0)]);
}

#[test]
fn set_group_steal_removes_selection_from_other_groups() {
    let mut p = PlayerControl::new(1);
    p.replace_selection(vec![tag(1, 0), tag(2, 0)]);
    p.set_group(0);
    p.set_group_steal(5);
    assert!(p.group_copy(0).is_empty());
    assert_eq!(p.group_copy(5), vec![tag(1, 0), tag(2, 0)]);
}

#[test]
fn set_group_steal_twice_equals_once() {
    let mut a = PlayerControl::new(1);
    a.replace_selection(vec![tag(1, 0), tag(2, 0)]);
    a.set_group(0);
    a.set_group(7);
    let mut b = PlayerControl::new(1);
    b.replace_selection(vec![tag(1, 0), tag(2, 0)]);
    b.set_group(0);
    b.set_group(7);
    a.set_group_steal(5);
    b.set_group_steal(5);
    b.set_group_steal(5);
    for g in 0..11 {
        assert_eq!(a.group_copy(g), b.group_copy(g), "group {} differs", g);
    }
    // The stolen tags sit in exactly one addressable group.
    for g in 0..10 {
        if g != 5 {
            assert!(!a.group_copy(g).contains(&tag(1, 0)));
        }
    }
    assert_eq!(a.group_copy(5), vec![tag(1, 0), tag(2, 0)]);
}

#[test]
fn steal_covers_every_other_addressable_group() {
    let mut p = PlayerControl::new(1);
    p.replace_selection(vec![tag(1, 0)]);
    // Park the tag in the last addressable group, then steal into the
    // first: "all other groups" includes group 9.
    p.set_group(9);
    p.set_group_steal(0);
    assert!(p.group_copy(9).is_empty());
    assert_eq!(p.group_copy(0), vec![tag(1, 0)]);
}

#[test]
fn append_group_steal_combines_both_steps() {
    let mut p = PlayerControl::new(1);
    p.replace_selection(vec![tag(1, 0)]);
    p.set_group(2);
    p.replace_selection(vec![tag(1, 0), tag(2, 0)]);
    p.set_group(7);
    p.append_group_steal(2);
    // The selection was stolen from group 7 and appended (deduplicated)
    // into group 2.
    assert!(p.group_copy(7).is_empty());
    assert_eq!(p.group_copy(2), vec![tag(1, 0), tag(2, 0)]);
}

#[test]
fn default_record_is_the_unknown_placeholder() {
    let r = swarmy::registry::UnitRecord::default();
    assert_eq!(r.name, "Unknown");
    assert_eq!(r.tag, tag(0, 0));
    assert_eq!(r.owner, None);
    assert!(!r.selected);
    assert_eq!(r.radius, UNIT_SIZE_DEFAULT);
}

#[test]
fn recall_makes_stored_group_the_selection() {
    let mut p = PlayerControl::new(1);
    p.replace_selection(vec![tag(4, 0)]);
    p.set_group(9);
    p.replace_selection(vec![]);
    p.recall_group(9);
    assert_eq!(p.active_selection(), vec![tag(4, 0)]);
}

#[test]
fn purge_tag_clears_every_group() {
    let mut p = PlayerControl::new(1);
    p.replace_selection(vec![tag(1, 0), tag(2, 0)]);
    p.set_group(0);
    p.set_group(9);
    p.purge_tag(tag(1, 0));
    assert_eq!(p.group_copy(0), vec![tag(2, 0)]);
    assert_eq!(p.group_copy(9), vec![tag(2, 0)]);
    assert_eq!(p.group_copy(ACTIVE_UNITS_GROUP_IDX), vec![tag(2, 0)]);
}
