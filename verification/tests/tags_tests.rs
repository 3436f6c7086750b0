use sonibox::tags::{folder_selection, tag, NUMBER_TAGS};

#[test]
fn each_unique_tag_selects_its_folder() {
    assert_eq!(folder_selection(&[0x2E, 0x52, 0xE8, 0xC1]), Some(1));
    assert_eq!(folder_selection(&[0xCE, 0x46, 0xE8, 0xC1]), Some(2));
    assert_eq!(folder_selection(&[0x3E, 0x43, 0xE8, 0xC1]), Some(3));
    assert_eq!(folder_selection(&[0xBE, 0x56, 0xE8, 0xC1]), Some(4));
    assert_eq!(folder_selection(&[0x0E, 0x54, 0xE8, 0xC1]), Some(5));
    assert_eq!(folder_selection(&[0xDE, 0x86, 0xE7, 0xC1]), Some(6));
    assert_eq!(folder_selection(&[0x5E, 0x56, 0xE8, 0xC1]), Some(7));
    assert_eq!(folder_selection(&[0xCE, 0x54, 0xE8, 0xC1]), Some(8));
    assert_eq!(folder_selection(&[0x1E, 0x16, 0xE8, 0xC1]), Some(9));
}

#[test]
fn development_cards_wrap_around() {
    assert_eq!(folder_selection(&[0x06, 0x99, 0xC1, 0x44]), Some(1));
    assert_eq!(folder_selection(&[0x95, 0xE0, 0x7D, 0x6C]), Some(2));
}

#[test]
fn unknown_tags_select_nothing() {
    assert_eq!(folder_selection(&[0x2E, 0x52, 0xE8, 0xC2]), None);
    assert_eq!(folder_selection(&[]), None);
    assert_eq!(folder_selection(&[0x2E, 0x52, 0xE8]), None);
    assert_eq!(folder_selection(&[0x2E, 0x52, 0xE8, 0xC1, 0x00]), None);
    assert_eq!(folder_selection(&[0x00; 7]), None);
}

#[test]
fn table_positions_match_folders() {
    for i in 0..NUMBER_TAGS {
        let t = tag(i);
        assert_eq!(folder_selection(&t), Some(i % 9 + 1));
    }
}
