use group_column::decimal::decimal_text;
use group_column::groups::{group_cell, CurrentUser, Group, GroupRecord, GroupStyle, UserFormat};

fn folk(members: &[&str]) -> GroupRecord {
    GroupRecord {
        gid: 100,
        name: Some(String::from("folk")),
        members: members.iter().map(|m| m.as_bytes().to_vec()).collect(),
    }
}

fn eve(primary_group: u32) -> CurrentUser {
    CurrentUser { uid: 2, name: b"eve".to_vec(), primary_group }
}

#[test]
fn decimal_text_of_edges() {
    assert_eq!(decimal_text(0), "0");
    assert_eq!(decimal_text(9), "9");
    assert_eq!(decimal_text(10), "10");
    assert_eq!(decimal_text(100), "100");
    assert_eq!(decimal_text(2_147_483_648), "2147483648");
    assert_eq!(decimal_text(u32::MAX), "4294967295");
}

#[test]
fn resolved_group_not_yours() {
    let cell = group_cell(Some(Group(100)), Some(folk(&[])), Some(eve(666)), UserFormat::Name);
    assert_eq!(cell.style, GroupStyle::NotYours);
    assert_eq!(cell.text, "folk");
    let cell = group_cell(Some(Group(100)), Some(folk(&[])), Some(eve(666)), UserFormat::Numeric);
    assert_eq!(cell.style, GroupStyle::NotYours);
    assert_eq!(cell.text, "100");
}

#[test]
fn unresolved_group_shows_id_in_both_formats() {
    for format in [UserFormat::Name, UserFormat::Numeric] {
        let cell = group_cell(Some(Group(100)), None, Some(eve(100)), format);
        assert_eq!(cell.style, GroupStyle::NotYours);
        assert_eq!(cell.text, "100");
    }
}

#[test]
fn absent_group_is_blank() {
    for format in [UserFormat::Name, UserFormat::Numeric] {
        let cell = group_cell(None, Some(folk(&["eve"])), Some(eve(100)), format);
        assert_eq!(cell.style, GroupStyle::NoGroup);
        assert_eq!(cell.text, "");
    }
}

#[test]
fn primary_group_is_yours() {
    let cell = group_cell(Some(Group(100)), Some(folk(&[])), Some(eve(100)), UserFormat::Name);
    assert_eq!(cell.style, GroupStyle::Yours);
    assert_eq!(cell.text, "folk");
}

#[test]
fn member_is_yours() {
    let cell = group_cell(
        Some(Group(100)),
        Some(folk(&["adam", "eve"])),
        Some(eve(666)),
        UserFormat::Name,
    );
    assert_eq!(cell.style, GroupStyle::Yours);
    assert_eq!(cell.text, "folk");
}

#[test]
fn similar_member_name_is_not_yours() {
    let cell = group_cell(
        Some(Group(100)),
        Some(folk(&["eves", "ev"])),
        Some(eve(666)),
        UserFormat::Name,
    );
    assert_eq!(cell.style, GroupStyle::NotYours);
}

#[test]
fn root_group_wins_over_yours() {
    let rec = GroupRecord { gid: 0, name: Some(String::from("root")), members: vec![b"eve".to_vec()] };
    let cell = group_cell(Some(Group(0)), Some(rec), Some(eve(0)), UserFormat::Numeric);
    assert_eq!(cell.style, GroupStyle::RootGroup);
    assert_eq!(cell.text, "0");
}

#[test]
fn no_viewer_keeps_not_yours() {
    let cell = group_cell(Some(Group(100)), Some(folk(&["eve"])), None, UserFormat::Name);
    assert_eq!(cell.style, GroupStyle::NotYours);
}

#[test]
fn undecodable_name_renders_empty() {
    let rec = GroupRecord { gid: 100, name: None, members: Vec::new() };
    let cell = group_cell(Some(Group(100)), Some(rec), None, UserFormat::Name);
    assert_eq!(cell.style, GroupStyle::NotYours);
    assert_eq!(cell.text, "");
}

#[test]
fn record_id_is_shown_not_the_key() {
    let rec = GroupRecord { gid: 101, name: Some(String::from("folk")), members: Vec::new() };
    let cell = group_cell(Some(Group(100)), Some(rec), Some(eve(101)), UserFormat::Numeric);
    assert_eq!(cell.style, GroupStyle::Yours);
    assert_eq!(cell.text, "101");
}

#[test]
fn empty_name_differs_from_no_group_by_style() {
    let rec = GroupRecord { gid: 100, name: Some(String::new()), members: Vec::new() };
    let cell = group_cell(Some(Group(100)), Some(rec), None, UserFormat::Name);
    assert_eq!(cell.text, "");
    assert_eq!(cell.style, GroupStyle::NotYours);
}
