//! The package screen: the signing options chosen for the selected app
//! package before it is installed or exported.
use std::path::PathBuf;
use vstd::prelude::*;

verus! {

/// A file system path, carried as it is.
#[verifier::external_type_specification]
#[verifier::external_body]
pub struct ExPathBuf(std::path::PathBuf);

/// Calls `<PathBuf as Clone>::clone`, which returns an equal path.
#[verifier::external_body]
fn clone_path(p: &PathBuf) -> (r: PathBuf)
    ensures
        r == *p,
{
    p.clone()
}

fn clone_opt_path(p: &Option<PathBuf>) -> (r: Option<PathBuf>)
    ensures
        r == *p,
{
    match p {
        Some(q) => Some(clone_path(q)),
        None => None,
    }
}

/// The view of an optional string.
pub open spec fn opt_text(s: Option<String>) -> Option<Seq<char>> {
    match s {
        Some(t) => Some(t@),
        None => None,
    }
}

/// How the package is signed.
#[derive(Debug, Clone, Copy, PartialEq, Eq, Structural)]
pub enum SignerMode {
    Pem,
    Adhoc,
    /// No signing (the variant is named `None` in the signer itself).
    Unsigned,
}

/// Whether the signed package is installed on a device or exported.
#[derive(Debug, Clone, Copy, PartialEq, Eq, Structural)]
pub enum SignerInstallMode {
    Install,
    Export,
}

/// The tweaks of the app's Info.plist and binaries that signing applies.
#[derive(Debug, Clone, Copy, PartialEq, Eq, Structural)]
pub struct SignerFeatures {
    pub support_minimum_os_version: bool,
    pub support_file_sharing: bool,
    pub support_ipad_fullscreen: bool,
    pub support_game_mode: bool,
    pub support_pro_motion: bool,
    pub support_liquid_glass: bool,
    pub support_ellekit: bool,
}

/// How provisioning profiles are embedded.
#[derive(Debug, Clone, Copy, PartialEq, Eq, Structural)]
pub struct SignerEmbedding {
    pub single_profile: bool,
}

/// The options of one signing run.
#[derive(Debug, Clone)]
pub struct SignerOptions {
    pub custom_name: Option<String>,
    pub custom_identifier: Option<String>,
    pub custom_version: Option<String>,
    pub features: SignerFeatures,
    pub embedding: SignerEmbedding,
    pub refresh: bool,
    pub mode: SignerMode,
    pub install_mode: SignerInstallMode,
    pub tweaks: Option<Vec<PathBuf>>,
    pub custom_icon: Option<PathBuf>,
    pub custom_entitlements: Option<PathBuf>,
}

/// The signing options as the contracts see them.
pub struct OptionsView {
    pub custom_name: Option<Seq<char>>,
    pub custom_identifier: Option<Seq<char>>,
    pub custom_version: Option<Seq<char>>,
    pub features: SignerFeatures,
    pub embedding: SignerEmbedding,
    pub refresh: bool,
    pub mode: SignerMode,
    pub install_mode: SignerInstallMode,
    pub tweaks: Option<Seq<PathBuf>>,
    pub custom_icon: Option<PathBuf>,
    pub custom_entitlements: Option<PathBuf>,
}

impl View for SignerOptions {
    type V = OptionsView;

    open spec fn view(&self) -> OptionsView {
        OptionsView {
            custom_name: opt_text(self.custom_name),
            custom_identifier: opt_text(self.custom_identifier),
            custom_version: opt_text(self.custom_version),
            features: self.features,
            embedding: self.embedding,
            refresh: self.refresh,
            mode: self.mode,
            install_mode: self.install_mode,
            tweaks: match self.tweaks {
                Some(v) => Some(v@),
                None => None,
            },
            custom_icon: self.custom_icon,
            custom_entitlements: self.custom_entitlements,
        }
    }
}

/// What the screen reads of an app package: the name, bundle identifier and
/// version from its Info.plist, and its icon.
#[derive(Debug, Clone)]
pub struct Package {
    pub name: Option<String>,
    pub bundle_identifier: Option<String>,
    pub version: Option<String>,
    pub app_icon_data: Option<Vec<u8>>,
}

fn clone_opt_string(s: &Option<String>) -> (r: Option<String>)
    ensures
        opt_text(r) == opt_text(*s),
{
    match s {
        Some(t) => Some(t.clone()),
        None => None,
    }
}

impl Package {
    /// The app's display name, if the package has one.
    pub fn get_name(&self) -> (r: Option<String>)
        ensures
            opt_text(r) == opt_text(self.name),
    {
        clone_opt_string(&self.name)
    }

    /// The app's bundle identifier, if the package has one.
    pub fn get_bundle_identifier(&self) -> (r: Option<String>)
        ensures
            opt_text(r) == opt_text(self.bundle_identifier),
    {
        clone_opt_string(&self.bundle_identifier)
    }

    /// The app's version, if the package has one.
    pub fn get_version(&self) -> (r: Option<String>)
        ensures
            opt_text(r) == opt_text(self.version),
    {
        clone_opt_string(&self.version)
    }
}

/// Which of the package's texts a field edits.
#[derive(Clone, Copy, PartialEq, Eq, Structural)]
pub enum PackageText {
    Name,
    Identifier,
    Version,
}

/// The package's own value of a text, empty when there is no package or
/// the package has none.
pub open spec fn package_text(p: Option<Package>, which: PackageText) -> Seq<char> {
    match p {
        Some(pkg) => {
            let t = match which {
                PackageText::Name => pkg.name,
                PackageText::Identifier => pkg.bundle_identifier,
                PackageText::Version => pkg.version,
            };
            match t {
                Some(s) => s@,
                None => Seq::<char>::empty(),
            }
        },
        None => Seq::<char>::empty(),
    }
}

/// The override kept for an edited text: none when the edit equals the
/// package's own value, the edit otherwise.
pub open spec fn override_for(edit: Seq<char>, package_value: Seq<char>) -> Option<Seq<char>> {
    if edit == package_value {
        None
    } else {
        Some(edit)
    }
}

/// A file the screen asks the user to pick.
#[derive(Debug, Clone, Copy, PartialEq, Eq, Structural)]
pub enum FileRequest {
    /// A `.deb` or `.dylib` tweak.
    Tweak,
    /// A `.framework`, `.bundle` or `.appex` folder.
    Bundle,
    /// A `.png`, `.jpg` or `.jpeg` icon.
    Icon,
    /// A `.plist` or `.xml` entitlements file.
    Entitlements,
}

/// A message of the package screen.
#[derive(Debug, Clone)]
pub enum Message {
    UpdateCustomName(String),
    UpdateCustomIdentifier(String),
    UpdateCustomVersion(String),
    ToggleMinimumOsVersion(bool),
    ToggleFileSharing(bool),
    ToggleIpadFullscreen(bool),
    ToggleGameMode(bool),
    ToggleProMotion(bool),
    ToggleSingleProfile(bool),
    ToggleLiquidGlass(bool),
    ToggleRefresh(bool),
    ToggleElleKit(bool),
    UpdateSignerMode(SignerMode),
    UpdateInstallMode(SignerInstallMode),
    AddTweak,
    AddBundle,
    RemoveTweak(usize),
    SetCustomIcon,
    ClearCustomIcon,
    SetCustomEntitlements,
    ClearCustomEntitlements,
    Back,
    RequestInstallation,
}

/// The extensions of the folders that can be added as bundles.
pub open spec fn is_bundle_extension(ext: Seq<char>) -> bool {
    ||| ext == seq!['f', 'r', 'a', 'm', 'e', 'w', 'o', 'r', 'k']
    ||| ext == seq!['b', 'u', 'n', 'd', 'l', 'e']
    ||| ext == seq!['a', 'p', 'p', 'e', 'x']
}

/// The screen as the contracts see it.
pub struct PackageView {
    pub package: Option<Package>,
    pub options: OptionsView,
    pub custom_icon_path: Option<PathBuf>,
}

/// One step of the package screen: the state that `message` leads to from
/// `old` (the package always stays), and the file the screen asks for.
pub open spec fn package_next(old: PackageView, message: Message) -> (PackageView, Option<FileRequest>) {
    let o = old.options;
    let package = old.package;
    match message {
        Message::UpdateCustomName(name) => (
            PackageView {
                options: OptionsView {
                    custom_name: override_for(name@, package_text(package, PackageText::Name)),
                    ..o
                },
                ..old
            },
            None,
        ),
        Message::UpdateCustomIdentifier(id) => (
            PackageView {
                options: OptionsView {
                    custom_identifier: override_for(
                        id@,
                        package_text(package, PackageText::Identifier),
                    ),
                    ..o
                },
                ..old
            },
            None,
        ),
        Message::UpdateCustomVersion(ver) => (
            PackageView {
                options: OptionsView {
                    custom_version: override_for(ver@, package_text(package, PackageText::Version)),
                    ..o
                },
                ..old
            },
            None,
        ),
        Message::ToggleMinimumOsVersion(value) => (
            PackageView {
                options: OptionsView {
                    features: SignerFeatures { support_minimum_os_version: value, ..o.features },
                    ..o
                },
                ..old
            },
            None,
        ),
        Message::ToggleFileSharing(value) => (
            PackageView {
                options: OptionsView {
                    features: SignerFeatures { support_file_sharing: value, ..o.features },
                    ..o
                },
                ..old
            },
            None,
        ),
        Message::ToggleIpadFullscreen(value) => (
            PackageView {
                options: OptionsView {
                    features: SignerFeatures { support_ipad_fullscreen: value, ..o.features },
                    ..o
                },
                ..old
            },
            None,
        ),
        Message::ToggleGameMode(value) => (
            PackageView {
                options: OptionsView {
                    features: SignerFeatures { support_game_mode: value, ..o.features },
                    ..o
                },
                ..old
            },
            None,
        ),
        Message::ToggleProMotion(value) => (
            PackageView {
                options: OptionsView {
                    features: SignerFeatures { support_pro_motion: value, ..o.features },
                    ..o
                },
                ..old
            },
            None,
        ),
        Message::ToggleSingleProfile(value) => (
            PackageView {
                options: OptionsView { embedding: SignerEmbedding { single_profile: value }, ..o },
                ..old
            },
            None,
        ),
        Message::ToggleLiquidGlass(value) => (
            PackageView {
                options: OptionsView {
                    features: SignerFeatures { support_liquid_glass: value, ..o.features },
                    ..o
                },
                ..old
            },
            None,
        ),
        Message::ToggleRefresh(value) => (
            PackageView { options: OptionsView { refresh: value, ..o }, ..old },
            None,
        ),
        Message::ToggleElleKit(value) => (
            PackageView {
                options: OptionsView {
                    features: SignerFeatures { support_ellekit: value, ..o.features },
                    ..o
                },
                ..old
            },
            None,
        ),
        Message::UpdateSignerMode(mode) => (
            PackageView { options: OptionsView { mode: mode, ..o }, ..old },
            None,
        ),
        Message::UpdateInstallMode(mode) => (
            PackageView { options: OptionsView { install_mode: mode, ..o }, ..old },
            None,
        ),
        Message::AddTweak => (old, Some(FileRequest::Tweak)),
        Message::AddBundle => (old, Some(FileRequest::Bundle)),
        Message::SetCustomIcon => (old, Some(FileRequest::Icon)),
        Message::SetCustomEntitlements => (old, Some(FileRequest::Entitlements)),
        Message::RemoveTweak(index) => (
            match o.tweaks {
                Some(t) => if index < t.len() {
                    PackageView {
                        options: OptionsView { tweaks: Some(t.remove(index as int)), ..o },
                        ..old
                    }
                } else {
                    old
                },
                None => old,
            },
            None,
        ),
        Message::ClearCustomIcon => (
            PackageView {
                options: OptionsView { custom_icon: None, ..o },
                custom_icon_path: None,
                ..old
            },
            None,
        ),
        Message::ClearCustomEntitlements => (
            PackageView { options: OptionsView { custom_entitlements: None, ..o }, ..old },
            None,
        ),
        Message::Back => (old, None),
        Message::RequestInstallation => (old, None),
    }
}

/// The messages that set one of the options' switches or modes.
pub open spec fn option_setting(m: Message) -> bool {
    match m {
        Message::ToggleMinimumOsVersion(_) | Message::ToggleFileSharing(_)
        | Message::ToggleIpadFullscreen(_) | Message::ToggleGameMode(_)
        | Message::ToggleProMotion(_) | Message::ToggleSingleProfile(_)
        | Message::ToggleLiquidGlass(_) | Message::ToggleRefresh(_) | Message::ToggleElleKit(_)
        | Message::UpdateSignerMode(_) | Message::UpdateInstallMode(_) => true,
        _ => false,
    }
}

fn is_option_setting(m: &Message) -> (r: bool)
    ensures
        r == option_setting(*m),
{
    match m {
        Message::ToggleMinimumOsVersion(_) | Message::ToggleFileSharing(_)
        | Message::ToggleIpadFullscreen(_) | Message::ToggleGameMode(_)
        | Message::ToggleProMotion(_) | Message::ToggleSingleProfile(_)
        | Message::ToggleLiquidGlass(_) | Message::ToggleRefresh(_) | Message::ToggleElleKit(_)
        | Message::UpdateSignerMode(_) | Message::UpdateInstallMode(_) => true,
        _ => false,
    }
}

/// `tweaks` with `path` appended; a missing list becomes a list of one.
pub open spec fn with_tweak(tweaks: Option<Seq<PathBuf>>, path: PathBuf) -> Option<Seq<PathBuf>> {
    match tweaks {
        Some(t) => Some(t.push(path)),
        None => Some(seq![path]),
    }
}

/// The package screen.
#[derive(Debug, Clone)]
pub struct PackageScreen {
    pub selected_package: Option<Package>,
    pub options: SignerOptions,
    custom_icon_path: Option<PathBuf>,
}

impl View for PackageScreen {
    type V = PackageView;

    closed spec fn view(&self) -> PackageView {
        PackageView {
            package: self.selected_package,
            options: self.options@,
            custom_icon_path: self.custom_icon_path,
        }
    }
}

fn override_text(edit: String, package_value: Option<String>) -> (r: Option<String>)
    ensures
        opt_text(r) == override_for(
            edit@,
            match package_value {
                Some(s) => s@,
                None => Seq::<char>::empty(),
            },
        ),
{
    let pkg = match package_value {
        Some(s) => s,
        None => String::new(),
    };
    if !(edit == pkg) {
        Some(edit)
    } else {
        None
    }
}

impl PackageScreen {
    /// The options as the screen has set them.
    pub fn options(&self) -> (r: &SignerOptions)
        ensures
            r@ == self@.options,
    {
        &self.options
    }

    /// The package the screen is for.
    pub fn selected_package(&self) -> (r: &Option<Package>)
        ensures
            *r == self@.package,
    {
        &self.selected_package
    }

    /// The screen for `package` with `options`; the custom icon shown is the
    /// one the options name.
    pub fn new(package: Option<Package>, options: SignerOptions) -> (s: Self)
        ensures
            s@.package == package,
            s@.options == options@,
            s@.custom_icon_path == options.custom_icon,
            icon_consistent(s@),
    {
        let custom_icon_path = clone_opt_path(&options.custom_icon);
        Self { selected_package: package, options, custom_icon_path }
    }

    /// The package's own value of a text.
    fn package_value(&self, which: PackageText) -> (r: Option<String>)
        ensures
            (match r {
                Some(s) => s@,
                None => Seq::<char>::empty(),
            }) == package_text(self.selected_package, which),
    {
        match &self.selected_package {
            Some(p) => match which {
                PackageText::Name => p.get_name(),
                PackageText::Identifier => p.get_bundle_identifier(),
                PackageText::Version => p.get_version(),
            },
            None => None,
        }
    }

    fn remove_tweak(&mut self, index: usize)
        ensures
            final(self)@ == (match old(self)@.options.tweaks {
                Some(t) => if index < t.len() {
                    PackageView {
                        options: OptionsView { tweaks: Some(t.remove(index as int)), ..old(self)@.options },
                        ..old(self)@
                    }
                } else {
                    old(self)@
                },
                None => old(self)@,
            }),
    {
        match self.options.tweaks.take() {
            Some(mut tweaks) => {
                if index < tweaks.len() {
                    tweaks.remove(index);
                }
                self.options.tweaks = Some(tweaks);
            },
            None => {},
        }
    }

    /// Sets the override of one of the package's texts.
    fn set_text(&mut self, which: PackageText, edit: String)
        ensures
            final(self)@ == (PackageView {
                options: match which {
                    PackageText::Name => OptionsView {
                        custom_name: override_for(edit@, package_text(old(self)@.package, which)),
                        ..old(self)@.options
                    },
                    PackageText::Identifier => OptionsView {
                        custom_identifier: override_for(edit@, package_text(old(self)@.package, which)),
                        ..old(self)@.options
                    },
                    PackageText::Version => OptionsView {
                        custom_version: override_for(edit@, package_text(old(self)@.package, which)),
                        ..old(self)@.options
                    },
                },
                ..old(self)@
            }),
    {
        let pkg = self.package_value(which);
        let value = override_text(edit, pkg);
        match which {
            PackageText::Name => self.options.custom_name = value,
            PackageText::Identifier => self.options.custom_identifier = value,
            PackageText::Version => self.options.custom_version = value,
        }
    }

    /// Handles one message and returns the file that the screen asks the
    /// user to pick, if any.
    pub fn update(&mut self, message: Message) -> (out: Option<FileRequest>)
        ensures
            (final(self)@, out) == package_next(old(self)@, message),
    {
        if is_option_setting(&message) {
            self.update_setting(message)
        } else {
            self.update_other(message)
        }
    }

    fn update_setting(&mut self, message: Message) -> (out: Option<FileRequest>)
        requires
            option_setting(message),
        ensures
            (final(self)@, out) == package_next(old(self)@, message),
    {
        match message {
            Message::ToggleMinimumOsVersion(value) => {
                self.options.features.support_minimum_os_version = value;
                None
            },
            Message::ToggleFileSharing(value) => {
                self.options.features.support_file_sharing = value;
                None
            },
            Message::ToggleIpadFullscreen(value) => {
                self.options.features.support_ipad_fullscreen = value;
                None
            },
            Message::ToggleGameMode(value) => {
                self.options.features.support_game_mode = value;
                None
            },
            Message::ToggleProMotion(value) => {
                self.options.features.support_pro_motion = value;
                None
            },
            Message::ToggleSingleProfile(value) => {
                self.options.embedding.single_profile = value;
                None
            },
            Message::ToggleLiquidGlass(value) => {
                self.options.features.support_liquid_glass = value;
                None
            },
            Message::ToggleRefresh(value) => {
                self.options.refresh = value;
                None
            },
            Message::ToggleElleKit(value) => {
                self.options.features.support_ellekit = value;
                None
            },
            Message::UpdateSignerMode(mode) => {
                self.options.mode = mode;
                None
            },
            Message::UpdateInstallMode(mode) => {
                self.options.install_mode = mode;
                None
            },
            _ => None,
        }
    }

    fn update_other(&mut self, message: Message) -> (out: Option<FileRequest>)
        requires
            !option_setting(message),
        ensures
            (final(self)@, out) == package_next(old(self)@, message),
    {
        match message {
            Message::UpdateCustomName(name) => {
                self.set_text(PackageText::Name, name);
                None
            },
            Message::UpdateCustomIdentifier(id) => {
                self.set_text(PackageText::Identifier, id);
                None
            },
            Message::UpdateCustomVersion(ver) => {
                self.set_text(PackageText::Version, ver);
                None
            },
            Message::AddTweak => Some(FileRequest::Tweak),
            Message::AddBundle => Some(FileRequest::Bundle),
            Message::RemoveTweak(index) => {
                self.remove_tweak(index);
                None
            },
            Message::SetCustomIcon => Some(FileRequest::Icon),
            Message::ClearCustomIcon => {
                self.options.custom_icon = None;
                self.custom_icon_path = None;
                None
            },
            Message::SetCustomEntitlements => Some(FileRequest::Entitlements),
            Message::ClearCustomEntitlements => {
                self.options.custom_entitlements = None;
                None
            },
            Message::Back => None,
            Message::RequestInstallation => None,

            _ => None,
        }
    }

    /// Adds the tweak file the user picked; nothing when the pick was
    /// cancelled.
    pub fn tweak_file_picked(&mut self, path: Option<PathBuf>)
        ensures
            final(self)@ == (match path {
                Some(p) => PackageView {
                    options: OptionsView { tweaks: with_tweak(old(self)@.options.tweaks, p), ..old(self)@.options },
                    ..old(self)@
                },
                None => old(self)@,
            }),
    {
        if let Some(p) = path {
            self.push_tweak(p);
        }
    }

    /// Adds the bundle folder the user picked when its extension (as UTF-8
    /// text, if it has one) is `framework`, `bundle` or `appex`; nothing
    /// otherwise.
    pub fn bundle_folder_picked(&mut self, path: Option<PathBuf>, extension: Option<&str>)
        ensures
            final(self)@ == (match (path, extension) {
                (Some(p), Some(ext)) => if is_bundle_extension(ext@) {
                    PackageView {
                        options: OptionsView { tweaks: with_tweak(old(self)@.options.tweaks, p), ..old(self)@.options },
                        ..old(self)@
                    }
                } else {
                    old(self)@
                },
                _ => old(self)@,
            }),
    {
        if let Some(p) = path {
            if let Some(ext) = extension {
                if is_bundle_extension_exec(ext) {
                    self.push_tweak(p);
                }
            }
        }
    }

    fn push_tweak(&mut self, p: PathBuf)
        ensures
            final(self)@ == (PackageView {
                options: OptionsView { tweaks: with_tweak(old(self)@.options.tweaks, p), ..old(self)@.options },
                ..old(self)@
            }),
    {
        match self.options.tweaks.take() {
            Some(mut tweaks) => {
                tweaks.push(p);
                self.options.tweaks = Some(tweaks);
            },
            None => {
                let mut tweaks = Vec::new();
                tweaks.push(p);
                assert(tweaks@ =~= seq![p]);
                self.options.tweaks = Some(tweaks);
            },
        }
    }

    /// Uses the icon file the user picked as the custom icon; nothing when
    /// the pick was cancelled.
    pub fn icon_file_picked(&mut self, path: Option<PathBuf>)
        ensures
            final(self)@ == icon_picked(old(self)@, path),
    {
        if let Some(p) = path {
            self.options.custom_icon = Some(clone_path(&p));
            self.custom_icon_path = Some(p);
        }
    }

    /// Uses the entitlements file the user picked; nothing when the pick was
    /// cancelled.
    pub fn entitlements_file_picked(&mut self, path: Option<PathBuf>)
        ensures
            final(self)@ == (match path {
                Some(p) => PackageView {
                    options: OptionsView { custom_entitlements: Some(p), ..old(self)@.options },
                    ..old(self)@
                },
                None => old(self)@,
            }),
    {
        if let Some(p) = path {
            self.options.custom_entitlements = Some(p);
        }
    }
}


/// Adding a tweak appends it to whatever list is there: the list grows by
/// one (from nothing to one when there was no list), its last entry is the
/// new tweak, and the earlier entries stay as they were.
pub proof fn lemma_tweak_appended(tweaks: Option<Seq<PathBuf>>, p: PathBuf)
    ensures
        ({
            let old_len = match tweaks {
                Some(t) => t.len(),
                None => 0,
            };
            &&& with_tweak(tweaks, p) is Some
            &&& with_tweak(tweaks, p)->0.len() == old_len + 1
            &&& with_tweak(tweaks, p)->0[old_len as int] == p
            &&& forall|i: int| 0 <= i < old_len ==> with_tweak(tweaks, p)->0[i] == tweaks->0[i]
        }),
{
}

/// The package's own value of each text is the matching Info.plist field:
/// the name, the bundle identifier or the version (empty when the package
/// lacks it or there is no package), and with no override a field shows
/// exactly that value.
pub proof fn lemma_package_text_fields(v: PackageView, p: Package, which: PackageText)
    ensures
        package_text(None, which) == Seq::<char>::empty(),
        p.name matches Some(s) ==> package_text(Some(p), PackageText::Name) == s@,
        p.name is None ==> package_text(Some(p), PackageText::Name) == Seq::<char>::empty(),
        p.bundle_identifier matches Some(s) ==> package_text(Some(p), PackageText::Identifier)
            == s@,
        p.bundle_identifier is None ==> package_text(Some(p), PackageText::Identifier)
            == Seq::<char>::empty(),
        p.version matches Some(s) ==> package_text(Some(p), PackageText::Version) == s@,
        p.version is None ==> package_text(Some(p), PackageText::Version) == Seq::<char>::empty(),
        v.options.custom_name is None ==> shown_text(v, PackageText::Name) == package_text(
            v.package,
            PackageText::Name,
        ),
        v.options.custom_identifier is None ==> shown_text(v, PackageText::Identifier)
            == package_text(v.package, PackageText::Identifier),
        v.options.custom_version is None ==> shown_text(v, PackageText::Version) == package_text(
            v.package,
            PackageText::Version,
        ),
{
}

/// Each switch and mode message sets its option to the value it carries,
/// whatever it was before, and leaves every other option, the package and
/// the shown icon alone; none asks for a file.
pub proof fn lemma_settings_set_their_option(old: PackageView, v: bool, mode: SignerMode, im: SignerInstallMode)
    ensures
        ({
            let o = old.options;
            let f = o.features;
            &&& package_next(old, Message::ToggleMinimumOsVersion(v)) == (PackageView {
                options: OptionsView { features: SignerFeatures { support_minimum_os_version: v, ..f }, ..o },
                ..old
            }, None::<FileRequest>)
            &&& package_next(old, Message::ToggleFileSharing(v)).0.options.features.support_file_sharing == v
            &&& package_next(old, Message::ToggleFileSharing(v)) == (PackageView {
                options: OptionsView { features: SignerFeatures { support_file_sharing: v, ..f }, ..o },
                ..old
            }, None::<FileRequest>)
            &&& package_next(old, Message::ToggleIpadFullscreen(v)) == (PackageView {
                options: OptionsView { features: SignerFeatures { support_ipad_fullscreen: v, ..f }, ..o },
                ..old
            }, None::<FileRequest>)
            &&& package_next(old, Message::ToggleGameMode(v)) == (PackageView {
                options: OptionsView { features: SignerFeatures { support_game_mode: v, ..f }, ..o },
                ..old
            }, None::<FileRequest>)
            &&& package_next(old, Message::ToggleProMotion(v)) == (PackageView {
                options: OptionsView { features: SignerFeatures { support_pro_motion: v, ..f }, ..o },
                ..old
            }, None::<FileRequest>)
            &&& package_next(old, Message::ToggleLiquidGlass(v)) == (PackageView {
                options: OptionsView { features: SignerFeatures { support_liquid_glass: v, ..f }, ..o },
                ..old
            }, None::<FileRequest>)
            &&& package_next(old, Message::ToggleElleKit(v)) == (PackageView {
                options: OptionsView { features: SignerFeatures { support_ellekit: v, ..f }, ..o },
                ..old
            }, None::<FileRequest>)
            &&& package_next(old, Message::ToggleSingleProfile(v)) == (PackageView {
                options: OptionsView { embedding: SignerEmbedding { single_profile: v }, ..o },
                ..old
            }, None::<FileRequest>)
            &&& package_next(old, Message::ToggleRefresh(v)) == (PackageView {
                options: OptionsView { refresh: v, ..o },
                ..old
            }, None::<FileRequest>)
            &&& package_next(old, Message::UpdateSignerMode(mode)) == (PackageView {
                options: OptionsView { mode: mode, ..o },
                ..old
            }, None::<FileRequest>)
            &&& package_next(old, Message::UpdateInstallMode(im)) == (PackageView {
                options: OptionsView { install_mode: im, ..o },
                ..old
            }, None::<FileRequest>)
        }),
{
}

/// An edit keeps an override only when it differs from the package's own
/// value: typing the package's value back removes the override, typing
/// anything else keeps exactly what was typed.
pub proof fn lemma_override_only_when_different(old: PackageView, text: String)
    ensures
        ({
            let new = package_next(old, Message::UpdateCustomName(text)).0;
            &&& (new.options.custom_name is None) <==> (text@ == package_text(
                old.package,
                PackageText::Name,
            ))
            &&& new.options.custom_name is Some ==> new.options.custom_name->0 == text@
        }),
        ({
            let new = package_next(old, Message::UpdateCustomIdentifier(text)).0;
            &&& (new.options.custom_identifier is None) <==> (text@ == package_text(
                old.package,
                PackageText::Identifier,
            ))
            &&& new.options.custom_identifier is Some ==> new.options.custom_identifier->0 == text@
        }),
        ({
            let new = package_next(old, Message::UpdateCustomVersion(text)).0;
            &&& (new.options.custom_version is None) <==> (text@ == package_text(
                old.package,
                PackageText::Version,
            ))
            &&& new.options.custom_version is Some ==> new.options.custom_version->0 == text@
        }),
{
}

/// Removing the tweak at a position of the list takes out exactly that
/// entry: the list shrinks by one, the entries before stay, the ones after
/// move up by one. A position past the end, or no list, changes nothing.
pub proof fn lemma_remove_tweak(old: PackageView, index: usize)
    ensures
        ({
            let (new, out) = package_next(old, Message::RemoveTweak(index));
            &&& out is None
            &&& new.package == old.package
            &&& new.custom_icon_path == old.custom_icon_path
            &&& match old.options.tweaks {
                Some(t) => if index < t.len() {
                    &&& new.options.tweaks is Some
                    &&& new.options.tweaks->0.len() == t.len() - 1
                    &&& forall|i: int| 0 <= i < index ==> new.options.tweaks->0[i] == t[i]
                    &&& forall|i: int|
                        index <= i < t.len() - 1 ==> new.options.tweaks->0[i] == t[i + 1]
                } else {
                    new == old
                },
                None => new == old,
            }
        }),
{
}

/// Asking for a file changes nothing and names the file asked for; going
/// back or asking for the installation changes nothing either.
pub proof fn lemma_requests_change_nothing(old: PackageView)
    ensures
        package_next(old, Message::AddTweak) == (old, Some(FileRequest::Tweak)),
        package_next(old, Message::AddBundle) == (old, Some(FileRequest::Bundle)),
        package_next(old, Message::SetCustomIcon) == (old, Some(FileRequest::Icon)),
        package_next(old, Message::SetCustomEntitlements) == (old, Some(FileRequest::Entitlements)),
        package_next(old, Message::Back) == (old, None::<FileRequest>),
        package_next(old, Message::RequestInstallation) == (old, None::<FileRequest>),
{
}

/// Clearing the entitlements file removes it and nothing else.
pub proof fn lemma_clear_entitlements(old: PackageView)
    ensures
        package_next(old, Message::ClearCustomEntitlements).0.options.custom_entitlements is None,
        package_next(old, Message::ClearCustomEntitlements).0 == (PackageView {
            options: OptionsView { custom_entitlements: None, ..old.options },
            ..old
        }),
{
}

/// The bundle folders that can be added are exactly those ending in
/// `.framework`, `.bundle` and `.appex`.
pub proof fn lemma_bundle_extensions(ext: Seq<char>)
    ensures
        is_bundle_extension(ext) <==> (ext == "framework"@ || ext == "bundle"@ || ext == "appex"@),
{
    reveal_strlit("framework");
    reveal_strlit("bundle");
    reveal_strlit("appex");
    assert("framework"@ =~= seq!['f', 'r', 'a', 'm', 'e', 'w', 'o', 'r', 'k']);
    assert("bundle"@ =~= seq!['b', 'u', 'n', 'd', 'l', 'e']);
    assert("appex"@ =~= seq!['a', 'p', 'p', 'e', 'x']);
}

/// The screen after the user picked `path` as the custom icon: the options
/// and the shown icon both name it; a cancelled pick changes nothing.
pub open spec fn icon_picked(old: PackageView, path: Option<PathBuf>) -> PackageView {
    match path {
        Some(p) => PackageView {
            options: OptionsView { custom_icon: Some(p), ..old.options },
            custom_icon_path: Some(p),
            ..old
        },
        None => old,
    }
}

/// The icon the screen shows as custom is the one the options name.
pub open spec fn icon_consistent(v: PackageView) -> bool {
    v.options.custom_icon == v.custom_icon_path
}

/// Every message keeps the shown custom icon and the options' icon the
/// same, and so does every answer to the icon dialog.
pub proof fn lemma_icon_stays_consistent(old: PackageView, message: Message, pick: Option<PathBuf>)
    requires
        icon_consistent(old),
    ensures
        icon_consistent(package_next(old, message).0),
        icon_consistent(icon_picked(old, pick)),
{
}

/// Asking for an icon and then picking `p` makes `p` the custom icon in
/// the options and on screen; clearing it afterwards removes it from both.
pub proof fn lemma_pick_then_clear_icon(old: PackageView, p: PathBuf)
    ensures
        package_next(old, Message::SetCustomIcon) == (old, Some(FileRequest::Icon)),
        ({
            let picked = icon_picked(package_next(old, Message::SetCustomIcon).0, Some(p));
            let cleared = package_next(picked, Message::ClearCustomIcon).0;
            &&& picked.options.custom_icon == Some(p)
            &&& picked.custom_icon_path == Some(p)
            &&& cleared.options.custom_icon is None
            &&& cleared.custom_icon_path is None
        }),
{
}

/// The text a field shows: the override when there is one, the package's
/// own value otherwise.
pub open spec fn shown_text(v: PackageView, which: PackageText) -> Seq<char> {
    let o = match which {
        PackageText::Name => v.options.custom_name,
        PackageText::Identifier => v.options.custom_identifier,
        PackageText::Version => v.options.custom_version,
    };
    match o {
        Some(t) => t,
        None => package_text(v.package, which),
    }
}

/// The label of the main button for an install mode.
pub open spec fn install_label(mode: SignerInstallMode) -> Seq<char> {
    match mode {
        SignerInstallMode::Install => seq!['I', 'n', 's', 't', 'a', 'l', 'l'],
        SignerInstallMode::Export => seq!['E', 'x', 'p', 'o', 'r', 't'],
    }
}

/// Editing a text field shows what was typed, whatever the package's own
/// value is; the other fields keep what they showed.
pub proof fn lemma_edit_shows_typed_text(old: PackageView, which: PackageText, text: String)
    ensures
        ({
            let m = match which {
                PackageText::Name => Message::UpdateCustomName(text),
                PackageText::Identifier => Message::UpdateCustomIdentifier(text),
                PackageText::Version => Message::UpdateCustomVersion(text),
            };
            let new = package_next(old, m).0;
            &&& shown_text(new, which) == text@
            &&& forall|other: PackageText| other != which ==> shown_text(new, other) == shown_text(old, other)
        }),
{
}

/// Adding a picked tweak and then removing the last tweak gives back the
/// list that was there (a missing list comes back as an empty one).
pub proof fn lemma_add_then_remove_last_tweak(old: PackageView, p: PathBuf)
    ensures
        ({
            let added = PackageView {
                options: OptionsView { tweaks: with_tweak(old.options.tweaks, p), ..old.options },
                ..old
            };
            let n = match old.options.tweaks {
                Some(t) => t.len(),
                None => 0,
            };
            n < usize::MAX ==> package_next(added, Message::RemoveTweak(n as usize)).0 == PackageView {
                options: OptionsView {
                    tweaks: Some(
                        match old.options.tweaks {
                            Some(t) => t,
                            None => Seq::<PathBuf>::empty(),
                        },
                    ),
                    ..old.options
                },
                ..old
            }
        }),
{
    match old.options.tweaks {
        Some(t) => {
            assert(t.push(p).remove(t.len() as int) =~= t);
        },
        None => {
            assert(seq![p].remove(0) =~= Seq::<PathBuf>::empty());
        },
    }
}

impl PackageScreen {
    /// The text a field shows (see `shown_text`).
    pub fn shown_text(&self, which: PackageText) -> (r: String)
        ensures
            r@ == shown_text(self@, which),
    {
        let o = match which {
            PackageText::Name => &self.options.custom_name,
            PackageText::Identifier => &self.options.custom_identifier,
            PackageText::Version => &self.options.custom_version,
        };
        match o {
            Some(t) => t.clone(),
            None => match self.package_value(which) {
                Some(v) => v,
                None => String::new(),
            },
        }
    }

    /// Whether a custom icon was picked.
    pub fn has_custom_icon(&self) -> (r: bool)
        ensures
            r == (self@.custom_icon_path is Some),
    {
        self.custom_icon_path.is_some()
    }

    /// What pressing the icon does: clear the custom icon when there is one,
    /// ask for one otherwise.
    pub fn icon_action(&self) -> (m: Message)
        ensures
            m == (if self@.custom_icon_path is Some {
                Message::ClearCustomIcon
            } else {
                Message::SetCustomIcon
            }),
    {
        if self.custom_icon_path.is_some() {
            Message::ClearCustomIcon
        } else {
            Message::SetCustomIcon
        }
    }

    /// Whether an entitlements file can be set (only when just the main
    /// bundle is registered) and whether it can be cleared (also only when
    /// one is set).
    pub fn entitlements_controls(&self) -> (r: (bool, bool))
        ensures
            r.0 == self@.options.embedding.single_profile,
            r.1 == (self@.options.embedding.single_profile && self@.options.custom_entitlements is Some),
    {
        let enabled = self.options.embedding.single_profile;
        (enabled, enabled && self.options.custom_entitlements.is_some())
    }

    /// Whether the main button is enabled and its label: installing needs a
    /// device, exporting does not.
    pub fn install_button(&self, has_device: bool) -> (r: (bool, String))
        ensures
            r.0 == (match self@.options.install_mode {
                SignerInstallMode::Install => has_device,
                SignerInstallMode::Export => true,
            }),
            r.1@ == install_label(self@.options.install_mode),
    {
        match self.options.install_mode {
            SignerInstallMode::Install => {
                let label = "Install".to_owned();
                proof {
                    reveal_strlit("Install");
                    assert(label@ =~= install_label(SignerInstallMode::Install));
                }
                (has_device, label)
            },
            SignerInstallMode::Export => {
                let label = "Export".to_owned();
                proof {
                    reveal_strlit("Export");
                    assert(label@ =~= install_label(SignerInstallMode::Export));
                }
                (true, label)
            },
        }
    }
}

fn is_bundle_extension_exec(ext: &str) -> (r: bool)
    ensures
        r == is_bundle_extension(ext@),
{
    let e = ext.to_owned();
    let framework = "framework".to_owned();
    let bundle = "bundle".to_owned();
    let appex = "appex".to_owned();
    proof {
        reveal_strlit("framework");
        reveal_strlit("bundle");
        reveal_strlit("appex");
        assert(framework@ =~= seq!['f', 'r', 'a', 'm', 'e', 'w', 'o', 'r', 'k']);
        assert(bundle@ =~= seq!['b', 'u', 'n', 'd', 'l', 'e']);
        assert(appex@ =~= seq!['a', 'p', 'p', 'e', 'x']);
    }
    e == framework || e == bundle || e == appex
}

} // verus!
