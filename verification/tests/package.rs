use plumeimpactor::package::{
    FileRequest, Message, Package, PackageScreen, PackageText, SignerEmbedding, SignerFeatures,
    SignerInstallMode, SignerMode, SignerOptions,
};
use std::path::PathBuf;

fn options() -> SignerOptions {
    SignerOptions {
        custom_name: None,
        custom_identifier: None,
        custom_version: None,
        features: SignerFeatures {
            support_minimum_os_version: false,
            support_file_sharing: false,
            support_ipad_fullscreen: false,
            support_game_mode: false,
            support_pro_motion: false,
            support_liquid_glass: false,
            support_ellekit: false,
        },
        embedding: SignerEmbedding { single_profile: false },
        refresh: false,
        mode: SignerMode::Pem,
        install_mode: SignerInstallMode::Install,
        tweaks: None,
        custom_icon: None,
        custom_entitlements: None,
    }
}

fn package() -> Package {
    Package {
        name: Some("Demo".to_string()),
        bundle_identifier: Some("com.example.demo".to_string()),
        version: Some("1.0".to_string()),
        app_icon_data: None,
    }
}

#[test]
fn edit_equal_to_package_value_clears_override() {
    let mut s = PackageScreen::new(Some(package()), options());
    s.update(Message::UpdateCustomName("Other".to_string()));
    assert_eq!(s.options.custom_name.as_deref(), Some("Other"));
    assert_eq!(s.shown_text(PackageText::Name), "Other");
    s.update(Message::UpdateCustomName("Demo".to_string()));
    assert_eq!(s.options.custom_name, None);
    assert_eq!(s.shown_text(PackageText::Name), "Demo");
    s.update(Message::UpdateCustomIdentifier("com.x".to_string()));
    assert_eq!(s.shown_text(PackageText::Identifier), "com.x");
    assert_eq!(s.shown_text(PackageText::Version), "1.0");
    s.update(Message::UpdateCustomVersion("2.0".to_string()));
    assert_eq!(s.options.custom_version.as_deref(), Some("2.0"));
}

#[test]
fn without_package_empty_edit_is_no_override() {
    let mut s = PackageScreen::new(None, options());
    s.update(Message::UpdateCustomName("".to_string()));
    assert_eq!(s.options.custom_name, None);
    s.update(Message::UpdateCustomName("X".to_string()));
    assert_eq!(s.options.custom_name.as_deref(), Some("X"));
}

#[test]
fn toggles_set_their_switch() {
    let mut s = PackageScreen::new(Some(package()), options());
    s.update(Message::ToggleMinimumOsVersion(true));
    s.update(Message::ToggleFileSharing(true));
    s.update(Message::ToggleIpadFullscreen(true));
    s.update(Message::ToggleGameMode(true));
    s.update(Message::ToggleProMotion(true));
    s.update(Message::ToggleLiquidGlass(true));
    s.update(Message::ToggleElleKit(true));
    s.update(Message::ToggleSingleProfile(true));
    s.update(Message::ToggleRefresh(true));
    let f = s.options.features;
    assert!(f.support_minimum_os_version && f.support_file_sharing && f.support_ipad_fullscreen);
    assert!(f.support_game_mode && f.support_pro_motion && f.support_liquid_glass && f.support_ellekit);
    assert!(s.options.embedding.single_profile && s.options.refresh);
    s.update(Message::ToggleGameMode(false));
    assert!(!s.options.features.support_game_mode);
    assert!(s.options.features.support_pro_motion);
}

#[test]
fn modes_are_set() {
    let mut s = PackageScreen::new(None, options());
    s.update(Message::UpdateSignerMode(SignerMode::Adhoc));
    s.update(Message::UpdateInstallMode(SignerInstallMode::Export));
    assert_eq!(s.options.mode, SignerMode::Adhoc);
    assert_eq!(s.options.install_mode, SignerInstallMode::Export);
    s.update(Message::UpdateSignerMode(SignerMode::Unsigned));
    assert_eq!(s.options.mode, SignerMode::Unsigned);
}

#[test]
fn dialogs_are_requested() {
    let mut s = PackageScreen::new(None, options());
    assert_eq!(s.update(Message::AddTweak), Some(FileRequest::Tweak));
    assert_eq!(s.update(Message::AddBundle), Some(FileRequest::Bundle));
    assert_eq!(s.update(Message::SetCustomIcon), Some(FileRequest::Icon));
    assert_eq!(s.update(Message::SetCustomEntitlements), Some(FileRequest::Entitlements));
    assert_eq!(s.update(Message::Back), None);
    assert_eq!(s.update(Message::RequestInstallation), None);
    assert!(s.options.tweaks.is_none());
}

#[test]
fn tweaks_are_added_and_removed() {
    let mut s = PackageScreen::new(None, options());
    s.tweak_file_picked(None);
    assert!(s.options.tweaks.is_none());
    s.tweak_file_picked(Some(PathBuf::from("/t/a.deb")));
    s.tweak_file_picked(Some(PathBuf::from("/t/b.dylib")));
    s.bundle_folder_picked(Some(PathBuf::from("/t/C.framework")), Some("framework"));
    s.bundle_folder_picked(Some(PathBuf::from("/t/D.app")), Some("app"));
    s.bundle_folder_picked(Some(PathBuf::from("/t/E")), None);
    s.bundle_folder_picked(Some(PathBuf::from("/t/F.appex")), Some("appex"));
    s.bundle_folder_picked(Some(PathBuf::from("/t/G.bundle")), Some("bundle"));
    let names = |s: &PackageScreen| {
        s.options.tweaks.as_ref().unwrap().iter().map(|p| p.to_str().unwrap().to_string()).collect::<Vec<_>>()
    };
    assert_eq!(names(&s), vec!["/t/a.deb", "/t/b.dylib", "/t/C.framework", "/t/F.appex", "/t/G.bundle"]);
    s.update(Message::RemoveTweak(1));
    assert_eq!(names(&s), vec!["/t/a.deb", "/t/C.framework", "/t/F.appex", "/t/G.bundle"]);
    s.update(Message::RemoveTweak(9));
    assert_eq!(names(&s).len(), 4);
    s.update(Message::RemoveTweak(3));
    assert_eq!(names(&s), vec!["/t/a.deb", "/t/C.framework", "/t/F.appex"]);
}

#[test]
fn remove_without_tweaks_does_nothing() {
    let mut s = PackageScreen::new(None, options());
    assert_eq!(s.update(Message::RemoveTweak(0)), None);
    assert!(s.options.tweaks.is_none());
}

#[test]
fn icon_is_set_and_cleared() {
    let mut s = PackageScreen::new(None, options());
    assert!(!s.has_custom_icon());
    assert!(matches!(s.icon_action(), Message::SetCustomIcon));
    s.icon_file_picked(Some(PathBuf::from("/i/icon.png")));
    assert!(s.has_custom_icon());
    assert_eq!(s.options.custom_icon, Some(PathBuf::from("/i/icon.png")));
    assert!(matches!(s.icon_action(), Message::ClearCustomIcon));
    s.update(Message::ClearCustomIcon);
    assert!(!s.has_custom_icon());
    assert_eq!(s.options.custom_icon, None);
}

#[test]
fn icon_from_options_counts_as_custom() {
    let mut o = options();
    o.custom_icon = Some(PathBuf::from("/i/x.png"));
    let s = PackageScreen::new(None, o);
    assert!(s.has_custom_icon());
}

#[test]
fn entitlements_need_single_profile() {
    let mut s = PackageScreen::new(None, options());
    assert_eq!(s.entitlements_controls(), (false, false));
    s.update(Message::ToggleSingleProfile(true));
    assert_eq!(s.entitlements_controls(), (true, false));
    s.entitlements_file_picked(Some(PathBuf::from("/e/a.plist")));
    assert_eq!(s.entitlements_controls(), (true, true));
    s.update(Message::ClearCustomEntitlements);
    assert_eq!(s.options.custom_entitlements, None);
}

#[test]
fn install_button_needs_device_only_to_install() {
    let mut s = PackageScreen::new(None, options());
    assert_eq!(s.install_button(false), (false, "Install".to_string()));
    assert_eq!(s.install_button(true), (true, "Install".to_string()));
    s.update(Message::UpdateInstallMode(SignerInstallMode::Export));
    assert_eq!(s.install_button(false), (true, "Export".to_string()));
}

#[test]
fn package_getters() {
    let p = package();
    assert_eq!(p.get_name().as_deref(), Some("Demo"));
    assert_eq!(p.get_bundle_identifier().as_deref(), Some("com.example.demo"));
    assert_eq!(p.get_version().as_deref(), Some("1.0"));
}

#[test]
fn add_then_remove_last_tweak_restores_list() {
    let mut o = options();
    o.tweaks = Some(vec![PathBuf::from("/t/a.deb")]);
    let mut s = PackageScreen::new(None, o);
    s.tweak_file_picked(Some(PathBuf::from("/t/b.deb")));
    s.update(Message::RemoveTweak(1));
    assert_eq!(s.options.tweaks, Some(vec![PathBuf::from("/t/a.deb")]));

    let mut s = PackageScreen::new(None, options());
    s.tweak_file_picked(Some(PathBuf::from("/t/b.deb")));
    s.update(Message::RemoveTweak(0));
    assert_eq!(s.options.tweaks, Some(Vec::new()));
}

#[test]
fn picked_icon_is_named_by_options_and_screen() {
    let mut s = PackageScreen::new(None, options());
    assert_eq!(s.update(Message::SetCustomIcon), Some(FileRequest::Icon));
    s.icon_file_picked(None);
    assert!(!s.has_custom_icon());
    assert_eq!(s.options().custom_icon, None);
    s.icon_file_picked(Some(PathBuf::from("/i/a.png")));
    assert!(s.has_custom_icon());
    assert_eq!(s.options().custom_icon, Some(PathBuf::from("/i/a.png")));
    s.update(Message::ToggleRefresh(true));
    assert!(s.has_custom_icon());
    s.update(Message::ClearCustomIcon);
    assert!(!s.has_custom_icon());
    assert_eq!(s.options().custom_icon, None);
    assert!(s.selected_package().is_none());
}
