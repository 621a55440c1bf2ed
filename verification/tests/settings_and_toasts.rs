use std::borrow::Cow;
use zedxa::item_settings::{
    ClosePosition, ItemSettings, ItemSettingsContent, MissingSetting, ITEM_SETTINGS_KEY,
};
use zedxa::text::same_text;
use zedxa::toast::Toast;

fn content(git_status: Option<bool>, close_position: Option<ClosePosition>) -> ItemSettingsContent {
    ItemSettingsContent { git_status, close_position }
}

#[test]
fn right_is_the_default_position() {
    assert!(ClosePosition::default().right());
    assert!(ClosePosition::Right.right());
    assert!(!ClosePosition::Left.right());
}

#[test]
fn content_is_empty_by_default() {
    let content = ItemSettingsContent::default();
    assert_eq!(content.git_status, None);
    assert_eq!(content.close_position, None);
    assert_eq!(ITEM_SETTINGS_KEY, "tabs");
}

#[test]
fn defaults_alone_load() {
    let default = content(Some(true), Some(ClosePosition::Right));
    assert_eq!(
        ItemSettings::load(&default, &[]),
        Ok(ItemSettings { git_status: true, close_position: ClosePosition::Right })
    );
}

#[test]
fn later_files_win_where_they_say_something() {
    let default = content(Some(true), Some(ClosePosition::Right));
    let user = content(Some(false), Some(ClosePosition::Left));
    let local = content(None, Some(ClosePosition::Right));
    assert_eq!(
        ItemSettings::load(&default, &[&user, &local]),
        Ok(ItemSettings { git_status: false, close_position: ClosePosition::Right })
    );
    assert_eq!(
        ItemSettings::load(&default, &[&local, &user]),
        Ok(ItemSettings { git_status: false, close_position: ClosePosition::Left })
    );
}

#[test]
fn missing_settings_are_named() {
    let empty = content(None, None);
    let position = content(None, Some(ClosePosition::Left));
    let status = content(Some(true), None);
    assert_eq!(ItemSettings::load(&empty, &[]), Err(MissingSetting::GitStatus));
    assert_eq!(ItemSettings::load(&empty, &[&position]), Err(MissingSetting::GitStatus));
    assert_eq!(ItemSettings::load(&status, &[&empty]), Err(MissingSetting::ClosePosition));
    assert_eq!(
        ItemSettings::load(&empty, &[&position, &status]),
        Ok(ItemSettings { git_status: true, close_position: ClosePosition::Left })
    );
}

fn toast(id: usize, msg: &'static str) -> Toast<fn() -> u8> {
    Toast::new(id, Cow::Borrowed(msg))
}

fn one() -> u8 {
    1
}

fn two() -> u8 {
    2
}

#[test]
fn toasts_compare_by_number_message_and_clickability() {
    assert!(toast(1, "saved") == toast(1, "saved"));
    assert!(toast(1, "saved") != toast(2, "saved"));
    assert!(toast(1, "saved") != toast(1, "Saved"));
    assert!(toast(1, "saved") != toast(1, "saved!"));
    let clickable = toast(1, "saved").on_click(Cow::Borrowed("undo"), one);
    let other = toast(1, "saved").on_click(Cow::Borrowed("redo"), two);
    assert!(clickable == other);
    assert!(clickable != toast(1, "saved"));
}

#[test]
fn owned_and_borrowed_messages_are_equal() {
    let owned: Toast<fn() -> u8> = Toast::new(3, Cow::Owned("gr\u{fc}n".to_string()));
    assert!(owned == toast(3, "gr\u{fc}n"));
    assert!(owned != toast(3, "grun"));
}

#[test]
fn copy_of_a_toast_equals_it() {
    let plain = toast(4, "done");
    assert!(plain.clone() == plain);
    let clickable = toast(4, "done").on_click(Cow::Owned("again".to_string()), one);
    assert!(clickable.clone() == clickable);
    assert!(clickable.clone() != plain);
}

#[test]
fn texts_are_compared_in_full() {
    assert!(same_text("", ""));
    assert!(same_text("a\u{1f600}b", "a\u{1f600}b"));
    assert!(!same_text("a\u{1f600}b", "a\u{1f600}c"));
    assert!(!same_text("ab", "abc"));
    assert!(!same_text("ba", "ca"));
}
