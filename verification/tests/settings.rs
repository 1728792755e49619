use plumeimpactor::accent::AccentColor;
use plumeimpactor::settings::{
    accent_presets, current_team, normalize_hex_input, team_placeholder, Message, SettingsScreen,
    Team,
};

fn team(name: &str, id: &str) -> Team {
    Team { name: name.to_string(), id: id.to_string() }
}

#[test]
fn team_shows_name_and_id() {
    assert_eq!(team("Acme Inc", "ABC123").to_string(), "Acme Inc (ABC123)");
}

#[test]
fn normalize_prefixes_bare_digits() {
    assert_eq!(normalize_hex_input("  e88aab ".to_string()), "#E88AAB");
    assert_eq!(normalize_hex_input("abc".to_string()), "#ABC");
    assert_eq!(normalize_hex_input("#e88aab".to_string()), "#E88AAB");
    assert_eq!(normalize_hex_input("".to_string()), "");
    assert_eq!(normalize_hex_input("1234567".to_string()), "1234567");
    assert_eq!(normalize_hex_input("xyz".to_string()), "XYZ");
}

#[test]
fn normalize_keeps_colour_text() {
    let c = AccentColor::new(0x12, 0x34, 0x56);
    assert_eq!(normalize_hex_input(c.to_hex()), c.to_hex());
}

#[test]
fn new_screen_shows_default_accent() {
    let s = SettingsScreen::new();
    assert!(!s.accent_editor_open());
    assert_eq!(s.accent_draft(), AccentColor::default());
    assert_eq!(s.accent_hex_input(), "#E88AAB");
    assert!(s.accent_hex_valid());
}

#[test]
fn typing_colour_text_selects_it() {
    let mut s = SettingsScreen::new();
    let out = s.update(Message::AccentHexChanged("4cc39b".to_string()));
    assert!(out.is_none());
    assert_eq!(s.accent_draft(), AccentColor::new(0x4C, 0xC3, 0x9B));
    assert_eq!(s.accent_hex_input(), "#4CC39B");
    assert!(s.accent_hex_valid());
}

#[test]
fn typing_bad_text_marks_field_invalid_and_keeps_draft() {
    let mut s = SettingsScreen::new();
    s.update(Message::AccentHexChanged("#12".to_string()));
    assert_eq!(s.accent_hex_input(), "#12");
    assert!(!s.accent_hex_valid());
    assert_eq!(s.accent_draft(), AccentColor::default());
    // Applying an invalid text does nothing.
    s.update(Message::OpenAccentEditor(AccentColor::default()));
    s.update(Message::AccentHexChanged("nope".to_string()));
    let out = s.update(Message::SubmitAccentEditor);
    assert!(out.is_none());
    assert!(s.accent_editor_open());
}

#[test]
fn try_update_refuses_text_cut_off_a_char_boundary() {
    let mut s = SettingsScreen::new();
    assert!(s.try_update(Message::AccentHexChanged("A\u{20ac}BC".to_string())).is_none());
    assert_eq!(s.accent_hex_input(), "#E88AAB");
    assert!(s.try_update(Message::AccentHexChanged("ab".to_string())).is_some());
    assert_eq!(s.accent_hex_input(), "#AB");
}

#[test]
fn open_then_apply_picks_colour() {
    let mut s = SettingsScreen::new();
    let c = AccentColor::new(0x52, 0xB8, 0xD6);
    assert!(s.update(Message::OpenAccentEditor(c)).is_none());
    assert!(s.accent_editor_open());
    match s.update(Message::SubmitAccentEditor) {
        Some(Message::AccentColorPicked(p)) => assert_eq!(p, c),
        other => panic!("unexpected {:?}", other),
    }
    assert!(!s.accent_editor_open());
}

#[test]
fn reset_restores_default_and_hands_on_reset() {
    let mut s = SettingsScreen::new();
    s.update(Message::AccentPresetSelected(AccentColor::new(1, 2, 3)));
    assert_eq!(s.accent_hex_input(), "#010203");
    match s.update(Message::ResetAccentEditor) {
        Some(Message::ResetAccentColor) => {}
        other => panic!("unexpected {:?}", other),
    }
    assert_eq!(s.accent_draft(), AccentColor::default());
}

#[test]
fn cancel_keeps_draft() {
    let mut s = SettingsScreen::new();
    s.update(Message::OpenAccentEditor(AccentColor::new(9, 9, 9)));
    s.update(Message::AccentSpectrumChanged(AccentColor::new(10, 20, 30)));
    s.update(Message::CloseAccentEditor);
    assert!(!s.accent_editor_open());
    assert_eq!(s.accent_draft(), AccentColor::new(10, 20, 30));
    assert_eq!(s.accent_hex_input(), "#0A141E");
}

#[test]
fn loaded_teams_read_back() {
    let mut s = SettingsScreen::new();
    let a = "a@example.com".to_string();
    let b = "b@example.com".to_string();
    s.update(Message::FetchTeams(a.clone()));
    assert!(s.is_loading_teams(&a));
    assert!(!s.is_loading_teams(&b));
    s.update(Message::TeamsLoaded(a.clone(), vec![team("One", "1"), team("Two", "2")]));
    assert!(!s.is_loading_teams(&a));
    assert_eq!(s.teams_for(&a), vec![team("One", "1"), team("Two", "2")]);
    assert!(s.teams_for(&b).is_empty());
    s.update(Message::TeamsLoaded(b.clone(), vec![team("Three", "3")]));
    s.update(Message::TeamsLoaded(a.clone(), vec![team("Four", "4")]));
    assert_eq!(s.teams_for(&a), vec![team("Four", "4")]);
    assert_eq!(s.teams_for(&b), vec![team("Three", "3")]);
}

#[test]
fn other_messages_change_nothing() {
    let mut s = SettingsScreen::new();
    for m in [
        Message::ShowLogin,
        Message::SelectAccount(0),
        Message::RemoveAccount(1),
        Message::ExportP12,
        Message::SelectTeam("a".to_string(), "b".to_string()),
        Message::ToggleAutoStart(true),
        Message::ResetAccentColor,
    ] {
        assert!(s.update(m).is_none());
    }
    assert_eq!(s.accent_draft(), AccentColor::default());
    assert!(!s.accent_editor_open());
}

#[test]
fn current_team_is_first_with_id() {
    let teams = vec![team("A", "1"), team("B", "2"), team("C", "2")];
    assert_eq!(current_team(&teams, &"2".to_string()), Some(team("B", "2")));
    assert_eq!(current_team(&teams, &"9".to_string()), None);
    assert_eq!(current_team(&teams, &"".to_string()), None);
}

#[test]
fn team_placeholder_texts() {
    assert_eq!(team_placeholder(true, &"X".to_string()), "Loading teams...");
    assert_eq!(team_placeholder(false, &"X".to_string()), "X");
    assert_eq!(team_placeholder(false, &"".to_string()), "Select team...");
}

#[test]
fn preview_follows_editor() {
    let mut s = SettingsScreen::new();
    let applied = AccentColor::new(1, 1, 1);
    assert_eq!(s.accent_preview(applied), applied);
    s.update(Message::OpenAccentEditor(AccentColor::new(2, 2, 2)));
    assert_eq!(s.accent_preview(applied), AccentColor::new(2, 2, 2));
}

#[test]
fn presets_in_order() {
    let p = accent_presets();
    assert_eq!(p.len(), 8);
    assert_eq!(p[0], AccentColor::default());
    assert_eq!(p[7].to_hex(), "#C08AD8");
}

#[test]
fn normalize_is_idempotent_on_ascii() {
    for input in ["  e88aab ", "abc", "#12", "xyz", "", " 1234567 ", "#e88aab", " \t+f+f "] {
        let once = normalize_hex_input(input.to_string());
        assert_eq!(normalize_hex_input(once.clone()), once);
    }
}
