//! The settings screen: the developer teams known per account, and the
//! accent colour editor with its draft colour and hex text field.
use crate::accent::{
    hex_slicing_panics, hex_text, lemma_accent_view_injective, lemma_hex_round_trip,
    lemma_hex_text_shape, parse_hex_rgb, AccentColor,
};
use crate::text::{
    ascii_upper_char, ascii_uppercase, is_unicode_whitespace, lemma_trim_identity,
    lemma_trimmed_ends, push_char, to_uppercase_str, trim_end_whitespace, trim_start_whitespace,
    trim_str, trim_whitespace, uppercase_text,
};
use vstd::hash_map::StringHashMap;
use vstd::prelude::*;
use vstd::string::*;
use vstd::utf8::*;

verus! {

/// A developer team of an account.
#[derive(Debug, Clone, PartialEq, Eq)]
pub struct Team {
    pub name: String,
    pub id: String,
}

/// How a team is shown: `name (id)`.
pub open spec fn team_text(name: Seq<char>, id: Seq<char>) -> Seq<char> {
    name + seq![' ', '('] + id + seq![')']
}

impl Team {
    /// The team as it is shown in the team picker: `name (id)`.
    pub fn to_string(&self) -> (s: String)
        ensures
            s@ == team_text(self.name@, self.id@),
    {
        let mut s = self.name.clone();
        push_char(&mut s, ' ');
        push_char(&mut s, '(');
        s.append(self.id.as_str());
        push_char(&mut s, ')');
        assert(s@ =~= team_text(self.name@, self.id@));
        s
    }
}

fn copy_team(t: &Team) -> (r: Team)
    ensures
        r == *t,
{
    Team { name: t.name.clone(), id: t.id.clone() }
}

fn copy_teams(v: &Vec<Team>) -> (r: Vec<Team>)
    ensures
        r@ == v@,
{
    let mut r: Vec<Team> = Vec::new();
    let n = v.len();
    for i in 0..n
        invariant
            n == v@.len(),
            r@ =~= v@.take(i as int),
    {
        r.push(copy_team(&v[i]));
        assert(v@.take(i + 1) =~= v@.take(i as int).push(v@[i as int]));
    }
    assert(v@.take(n as int) =~= v@);
    r
}

/// A message of the settings screen. The two messages of the colour
/// picker's spectrum and hue strip carry the colour that the picked
/// hue/saturation/value stands for.
#[derive(Debug, Clone)]
pub enum Message {
    ShowLogin,
    SelectAccount(usize),
    RemoveAccount(usize),
    ExportP12,
    SelectTeam(String, String),
    FetchTeams(String),
    TeamsLoaded(String, Vec<Team>),
    ToggleAutoStart(bool),
    OpenAccentEditor(AccentColor),
    CloseAccentEditor,
    AccentHexChanged(String),
    AccentSpectrumChanged(AccentColor),
    AccentHueChanged(AccentColor),
    AccentPresetSelected(AccentColor),
    SubmitAccentEditor,
    ResetAccentEditor,
    AccentColorPicked(AccentColor),
    ResetAccentColor,
}

/// Prefixes `u` with `#` when it is non-empty, does not start with `#`,
/// holds only hexadecimal digits and at most six of them (a digit is one
/// byte, so this is the byte length the app compares).
pub open spec fn prefix_bare_hex(u: Seq<char>) -> Seq<char> {
    if u.len() > 0 && u[0] != '#' && all_hex_digits(u) && u.len() <= 6 {
        seq!['#'] + u
    } else {
        u
    }
}

/// An ASCII hexadecimal digit of either case.
pub open spec fn is_hex_digit_char(c: char) -> bool {
    ('0' <= c <= '9') || ('A' <= c <= 'F') || ('a' <= c <= 'f')
}

/// Every character of `u` is an ASCII hexadecimal digit.
pub open spec fn all_hex_digits(u: Seq<char>) -> bool {
    forall|i: int| 0 <= i < u.len() ==> is_hex_digit_char(#[trigger] u[i])
}

/// The text of the hex field after an edit: trimmed, upper-cased, and
/// given a leading `#` when it is a bare run of at most six digits.
pub open spec fn normalized_hex_input(s: Seq<char>) -> Seq<char> {
    prefix_bare_hex(uppercase_text(trim_whitespace(s)))
}

fn all_hex_digits_exec(s: &str) -> (r: bool)
    ensures
        r == all_hex_digits(s@),
{
    let n = s.unicode_len();
    for i in 0..n
        invariant
            n == s@.len(),
            forall|j: int| 0 <= j < i ==> is_hex_digit_char(#[trigger] s@[j]),
    {
        let c = s.get_char(i);
        if !(('0' <= c && c <= '9') || ('A' <= c && c <= 'F') || ('a' <= c && c <= 'f')) {
            assert(!is_hex_digit_char(s@[i as int]));
            return false;
        }
    }
    true
}

/// Normalises what was typed into the hex field: trims it, upper-cases it,
/// and puts `#` before a bare run of at most six hexadecimal digits.
pub fn normalize_hex_input(input: String) -> (r: String)
    ensures
        r@ == normalized_hex_input(input@),
{
    let trimmed = trim_str(input.as_str());
    let upper = to_uppercase_str(trimmed);
    let n = upper.as_str().unicode_len();
    if n > 0 && upper.as_str().get_char(0) != '#' && all_hex_digits_exec(upper.as_str()) {
        proof {
            assert(is_ascii_chars(upper@)) by {
                assert forall|i: int| 0 <= i < upper@.len() implies '\0' <= #[trigger] upper@[i]
                    <= '\u{7f}' by {
                    assert(is_hex_digit_char(upper@[i]));
                }
            }
            is_ascii_chars_encode_utf8(upper@);
        }
        if upper.as_str().len() <= 6 {
            let mut out = String::new();
            push_char(&mut out, '#');
            out.append(upper.as_str());
            assert(out@ =~= seq!['#'] + upper@);
            return out;
        }
    }
    upper
}


/// `i` is the first position of a team with the id `id`.
pub open spec fn is_first_team_with_id(teams: Seq<Team>, id: Seq<char>, i: int) -> bool {
    &&& 0 <= i < teams.len()
    &&& teams[i].id@ == id
    &&& forall|j: int| 0 <= j < i ==> (#[trigger] teams[j]).id@ != id
}

/// The team an account has chosen, among the loaded ones: the first with
/// the account's team id; none when the id is empty or no team has it.
pub fn current_team(teams: &Vec<Team>, team_id: &String) -> (r: Option<Team>)
    ensures
        match r {
            Some(t) => team_id@.len() > 0 && exists|i: int|
                is_first_team_with_id(teams@, team_id@, i) && t == #[trigger] teams@[i],
            None => team_id@.len() == 0 || forall|i: int|
                0 <= i < teams@.len() ==> (#[trigger] teams@[i]).id@ != team_id@,
        },
{
    if team_id.as_str().unicode_len() == 0 {
        return None;
    }
    let n = teams.len();
    for i in 0..n
        invariant
            n == teams@.len(),
            team_id@.len() > 0,
            forall|j: int| 0 <= j < i ==> (#[trigger] teams@[j]).id@ != team_id@,
    {
        if teams[i].id == *team_id {
            let t = copy_team(&teams[i]);
            assert(is_first_team_with_id(teams@, team_id@, i as int));
            return Some(t);
        }
    }
    None
}

/// What the team picker shows when no team is chosen yet.
pub open spec fn team_placeholder_text(is_loading: bool, team_id: Seq<char>) -> Seq<char> {
    if is_loading {
        "Loading teams..."@
    } else if team_id.len() > 0 {
        team_id
    } else {
        "Select team..."@
    }
}

/// The placeholder of the team picker: `Loading teams...` while the teams
/// are fetched, else the account's team id, else `Select team...`.
pub fn team_placeholder(is_loading: bool, team_id: &String) -> (r: String)
    ensures
        r@ == team_placeholder_text(is_loading, team_id@),
{
    if is_loading {
        "Loading teams...".to_owned()
    } else if team_id.as_str().unicode_len() > 0 {
        team_id.clone()
    } else {
        "Select team...".to_owned()
    }
}

/// The colours offered as presets in the accent editor, in order.
pub open spec fn accent_preset_rgbs() -> Seq<(u8, u8, u8)> {
    seq![
        (0xE8u8, 0x8Au8, 0xABu8),
        (0xF0u8, 0x92u8, 0x6Au8),
        (0xE1u8, 0xB2u8, 0x4Eu8),
        (0x8Du8, 0xC6u8, 0x5Au8),
        (0x4Cu8, 0xC3u8, 0x9Bu8),
        (0x52u8, 0xB8u8, 0xD6u8),
        (0x6Fu8, 0x95u8, 0xF5u8),
        (0xC0u8, 0x8Au8, 0xD8u8),
    ]
}

/// The preset accent colours, in the order the editor shows them.
pub fn accent_presets() -> (r: Vec<AccentColor>)
    ensures
        r@.len() == accent_preset_rgbs().len(),
        forall|i: int| 0 <= i < r@.len() ==> (#[trigger] r@[i])@ == accent_preset_rgbs()[i],
{
    let mut r = Vec::new();
    r.push(AccentColor::new(0xE8, 0x8A, 0xAB));
    r.push(AccentColor::new(0xF0, 0x92, 0x6A));
    r.push(AccentColor::new(0xE1, 0xB2, 0x4E));
    r.push(AccentColor::new(0x8D, 0xC6, 0x5A));
    r.push(AccentColor::new(0x4C, 0xC3, 0x9B));
    r.push(AccentColor::new(0x52, 0xB8, 0xD6));
    r.push(AccentColor::new(0x6F, 0x95, 0xF5));
    r.push(AccentColor::new(0xC0, 0x8A, 0xD8));
    r
}

/// The state of the settings screen as the contracts see it.
pub struct SettingsView {
    /// The teams loaded for each account, by e-mail address.
    pub teams: Map<Seq<char>, Seq<Team>>,
    /// The account whose teams are being fetched.
    pub loading_teams: Option<Seq<char>>,
    pub accent_editor_open: bool,
    pub accent_draft: AccentColor,
    pub accent_hex_input: Seq<char>,
    pub accent_hex_valid: bool,
}

/// Whenever the hex field is marked valid, it shows the text of the draft.
pub open spec fn accent_consistent(v: SettingsView) -> bool {
    v.accent_hex_valid ==> v.accent_hex_input == hex_text(v.accent_draft@)
}

/// `new` is `old` with the draft set to `rgb`, the field showing its text
/// and marked valid; nothing else changes.
pub open spec fn draft_synced(old: SettingsView, new: SettingsView, rgb: (u8, u8, u8)) -> bool {
    &&& new.accent_draft@ == rgb
    &&& new == SettingsView {
        accent_draft: new.accent_draft,
        accent_hex_input: hex_text(rgb),
        accent_hex_valid: true,
        ..old
    }
}

/// The colour in which the app starts, `#E88AAB`.
pub open spec fn default_accent_rgb() -> (u8, u8, u8) {
    (0xE8u8, 0x8Au8, 0xABu8)
}

/// One step of the settings screen: from `old`, `message` leads to `new`,
/// and `out` is the message that the step hands on (`None` for no task).
pub open spec fn settings_step(
    old: SettingsView,
    message: Message,
    new: SettingsView,
    out: Option<Message>,
) -> bool {
    match message {
        Message::FetchTeams(email) => {
            &&& new == SettingsView { loading_teams: Some(email@), ..old }
            &&& out is None
        },
        Message::TeamsLoaded(email, teams) => {
            &&& new == SettingsView {
                teams: old.teams.insert(email@, teams@),
                loading_teams: None,
                ..old
            }
            &&& out is None
        },
        Message::OpenAccentEditor(accent) => {
            &&& new.accent_editor_open
            &&& draft_synced(old, SettingsView { accent_editor_open: old.accent_editor_open, ..new }, accent@)
            &&& out is None
        },
        Message::CloseAccentEditor => {
            &&& new == SettingsView { accent_editor_open: false, ..old }
            &&& out is None
        },
        Message::AccentHexChanged(value) => {
            let text = normalized_hex_input(value@);
            &&& out is None
            &&& match parse_hex_rgb(text) {
                Some(rgb) => draft_synced(old, new, rgb),
                None => new == SettingsView {
                    accent_hex_input: text,
                    accent_hex_valid: false,
                    ..old
                },
            }
        },
        Message::AccentSpectrumChanged(accent) => draft_synced(old, new, accent@) && out is None,
        Message::AccentHueChanged(accent) => draft_synced(old, new, accent@) && out is None,
        Message::AccentPresetSelected(accent) => draft_synced(old, new, accent@) && out is None,
        Message::SubmitAccentEditor => if old.accent_hex_valid {
            &&& new == SettingsView { accent_editor_open: false, ..old }
            &&& out == Some(Message::AccentColorPicked(old.accent_draft))
        } else {
            new == old && out is None
        },
        Message::ResetAccentEditor => {
            &&& draft_synced(old, new, default_accent_rgb())
            &&& out == Some(Message::ResetAccentColor)
        },
        _ => new == old && out is None,
    }
}

/// The messages on which the screen would cut the hex text off a character
/// boundary while reading it.
pub open spec fn settings_step_panics(message: Message) -> bool {
    match message {
        Message::AccentHexChanged(value) => hex_slicing_panics(normalized_hex_input(value@)),
        _ => false,
    }
}


/// Normalising the text of a colour leaves it as it is: for every colour
/// `c`, `normalize_hex_input(c.to_hex())` is `c.to_hex()`.
pub proof fn lemma_normalize_keeps_hex_text(rgb: (u8, u8, u8))
    ensures
        normalized_hex_input(hex_text(rgb)) == hex_text(rgb),
{
    let t = hex_text(rgb);
    lemma_hex_text_shape(rgb);
    assert(ascii_uppercase(t) =~= t);
    assert(uppercase_text(trim_whitespace(t)) == t);
}

/// Picking a colour on the hue strip, on the spectrum or among the presets
/// makes it the draft: the hex field shows its text and is valid, nothing
/// else of the screen changes, and nothing is handed on.
pub proof fn lemma_picked_colour_becomes_draft(
    old: SettingsView,
    c: AccentColor,
    kind: int,
    new: SettingsView,
    out: Option<Message>,
)
    requires
        0 <= kind < 3,
        settings_step(
            old,
            if kind == 0 {
                Message::AccentHueChanged(c)
            } else if kind == 1 {
                Message::AccentSpectrumChanged(c)
            } else {
                Message::AccentPresetSelected(c)
            },
            new,
            out,
        ),
    ensures
        new.accent_draft == c,
        new.accent_hex_input == hex_text(c@),
        new.accent_hex_valid,
        new.accent_editor_open == old.accent_editor_open,
        new.teams == old.teams,
        new.loading_teams == old.loading_teams,
        out is None,
{
    lemma_accent_view_injective(new.accent_draft, c);
}

/// Starting to fetch an account's teams marks that account as loading and
/// changes nothing else.
pub proof fn lemma_fetch_marks_loading(
    old: SettingsView,
    email: String,
    new: SettingsView,
    out: Option<Message>,
)
    requires
        settings_step(old, Message::FetchTeams(email), new, out),
    ensures
        new.loading_teams == Some(email@),
        new.teams == old.teams,
        new.accent_draft == old.accent_draft,
        new.accent_hex_input == old.accent_hex_input,
        new.accent_hex_valid == old.accent_hex_valid,
        new.accent_editor_open == old.accent_editor_open,
        out is None,
{
}

/// Resetting the editor makes `#E88AAB` the draft, shows its text as
/// valid, keeps the editor as it was and hands on `ResetAccentColor`.
pub proof fn lemma_reset_restores_default(old: SettingsView, new: SettingsView, out: Option<Message>)
    requires
        settings_step(old, Message::ResetAccentEditor, new, out),
    ensures
        new.accent_draft@ == (0xE8u8, 0x8Au8, 0xABu8),
        new.accent_hex_input == seq!['#', 'E', '8', '8', 'A', 'A', 'B'],
        new.accent_hex_valid,
        new.accent_editor_open == old.accent_editor_open,
        new.teams == old.teams,
        new.loading_teams == old.loading_teams,
        out == Some(Message::ResetAccentColor),
{
    assert(hex_text((0xE8u8, 0x8Au8, 0xABu8)) =~= seq!['#', 'E', '8', '8', 'A', 'A', 'B']);
}

/// Applying hands on the draft and closes the editor exactly when the hex
/// field is valid; otherwise nothing changes and nothing is handed on.
pub proof fn lemma_apply_needs_valid_text(old: SettingsView, new: SettingsView, out: Option<Message>)
    requires
        settings_step(old, Message::SubmitAccentEditor, new, out),
    ensures
        old.accent_hex_valid ==> out == Some(Message::AccentColorPicked(old.accent_draft))
            && !new.accent_editor_open && new.accent_draft == old.accent_draft
            && new.accent_hex_input == old.accent_hex_input && new.teams == old.teams,
        !old.accent_hex_valid ==> out is None && new == old,
{
}

/// Typing text that does not read as a colour keeps the draft, shows the
/// normalised text and marks it invalid.
pub proof fn lemma_bad_text_marks_invalid(
    old: SettingsView,
    value: String,
    new: SettingsView,
    out: Option<Message>,
)
    requires
        settings_step(old, Message::AccentHexChanged(value), new, out),
        parse_hex_rgb(normalized_hex_input(value@)) is None,
    ensures
        new.accent_draft == old.accent_draft,
        new.accent_hex_input == normalized_hex_input(value@),
        !new.accent_hex_valid,
        new.accent_editor_open == old.accent_editor_open,
        new.teams == old.teams,
        out is None,
{
}

/// The account, team, start-up and hand-on messages leave the screen as it
/// is and hand nothing on.
pub proof fn lemma_other_messages_change_nothing(
    old: SettingsView,
    message: Message,
    new: SettingsView,
    out: Option<Message>,
)
    requires
        settings_step(old, message, new, out),
        message is ShowLogin || message is SelectAccount || message is RemoveAccount
            || message is ExportP12 || message is SelectTeam || message is ToggleAutoStart
            || message is AccentColorPicked || message is ResetAccentColor,
    ensures
        new == old,
        out is None,
{
}

/// Normalising is idempotent on text whose trimmed form is ASCII: the
/// normalised text is again ASCII once trimmed, and normalising it once
/// more gives it back.
pub proof fn lemma_normalize_idempotent_ascii(s: Seq<char>)
    requires
        is_ascii_chars(trim_whitespace(s)),
    ensures
        is_ascii_chars(trim_whitespace(normalized_hex_input(s))),
        normalized_hex_input(normalized_hex_input(s)) == normalized_hex_input(s),
{
    let t = trim_whitespace(s);
    let u = ascii_uppercase(t);
    let r = normalized_hex_input(s);
    assert(uppercase_text(t) == u);
    assert(r == prefix_bare_hex(u));
    lemma_trimmed_ends(s);
    assert forall|i: int| 0 <= i < u.len() implies {
        &&& '\0' <= #[trigger] u[i] <= '\u{7f}'
        &&& !('a' <= u[i] <= 'z')
        &&& (is_unicode_whitespace(u[i]) == is_unicode_whitespace(t[i]))
    } by {
        assert(u[i] == ascii_upper_char(t[i]));
    }
    assert(is_ascii_chars(u));
    if r.len() == 0 {
        assert(trim_start_whitespace(r) == r);
        assert(trim_end_whitespace(r) == r);
    } else {
        if r == u {
            assert(r[0] == u[0] && r.last() == u[u.len() - 1]);
        } else {
            assert(r == seq!['#'] + u);
            assert(r[0] == '#');
            assert(r.last() == u[u.len() - 1]);
        }
        lemma_trim_identity(r);
    }
    assert(trim_whitespace(r) == r);
    assert(is_ascii_chars(r)) by {
        assert forall|i: int| 0 <= i < r.len() implies '\0' <= #[trigger] r[i] <= '\u{7f}' by {
            if r != u {
                assert(r == seq!['#'] + u);
                if i > 0 {
                    assert(r[i] == u[i - 1]);
                }
            }
        }
    }
    assert(ascii_uppercase(r) =~= r) by {
        assert forall|i: int| 0 <= i < r.len() implies #[trigger] ascii_uppercase(r)[i] == r[i] by {
            if r != u {
                assert(r == seq!['#'] + u);
                if i > 0 {
                    assert(r[i] == u[i - 1]);
                }
            }
        }
    }
    assert(uppercase_text(trim_whitespace(r)) == r);
    if r != u {
        assert(r == seq!['#'] + u);
        assert(r[0] == '#');
    }
}

/// Typing the text of a colour into the hex field selects that colour: the
/// draft becomes the colour, the field shows its text and is valid, and the
/// step is defined (it never cuts the text off a character boundary).
pub proof fn lemma_typing_colour_text_selects_it(
    old: SettingsView,
    value: String,
    c: AccentColor,
    new: SettingsView,
    out: Option<Message>,
)
    requires
        value@ == hex_text(c@),
        settings_step(old, Message::AccentHexChanged(value), new, out),
    ensures
        !settings_step_panics(Message::AccentHexChanged(value)),
        new.accent_draft == c,
        new.accent_hex_input == hex_text(c@),
        new.accent_hex_valid,
        new.accent_editor_open == old.accent_editor_open,
        new.teams == old.teams,
        out is None,
{
    lemma_normalize_keeps_hex_text(c@);
    lemma_hex_round_trip(c@);
    lemma_accent_view_injective(new.accent_draft, c);
}

/// What a step hands on for the applied accent: opening the editor on a
/// colour and applying it at once hands on that colour and closes the
/// editor.
pub proof fn lemma_open_then_apply_picks_colour(
    s0: SettingsView,
    c: AccentColor,
    s1: SettingsView,
    out1: Option<Message>,
    s2: SettingsView,
    out2: Option<Message>,
)
    requires
        settings_step(s0, Message::OpenAccentEditor(c), s1, out1),
        settings_step(s1, Message::SubmitAccentEditor, s2, out2),
    ensures
        out2 == Some(Message::AccentColorPicked(c)),
        !s2.accent_editor_open,
        s2.accent_draft == c,
{
    lemma_accent_view_injective(s1.accent_draft, c);
}

/// The teams of an account read back as they were loaded, and loading them
/// ends the fetch; the teams of other accounts stay.
pub proof fn lemma_loaded_teams_read_back(
    old: SettingsView,
    email: String,
    teams: Vec<Team>,
    new: SettingsView,
    out: Option<Message>,
    other: Seq<char>,
)
    requires
        settings_step(old, Message::TeamsLoaded(email, teams), new, out),
        other != email@,
    ensures
        new.teams.contains_key(email@),
        new.teams[email@] == teams@,
        new.loading_teams is None,
        new.teams.contains_key(other) == old.teams.contains_key(other),
        old.teams.contains_key(other) ==> new.teams[other] == old.teams[other],
{
}

/// Cancelling the editor keeps the draft and the hex field: reopening is
/// not needed to see them again.
pub proof fn lemma_cancel_keeps_draft(old: SettingsView, new: SettingsView, out: Option<Message>)
    requires
        settings_step(old, Message::CloseAccentEditor, new, out),
    ensures
        !new.accent_editor_open,
        new.accent_draft == old.accent_draft,
        new.accent_hex_input == old.accent_hex_input,
        new.accent_hex_valid == old.accent_hex_valid,
        out is None,
{
}

/// Every step keeps the hex field consistent with the draft.
pub proof fn lemma_step_keeps_accent_consistent(
    old: SettingsView,
    message: Message,
    new: SettingsView,
    out: Option<Message>,
)
    requires
        accent_consistent(old),
        settings_step(old, message, new, out),
    ensures
        accent_consistent(new),
{
}

/// The settings screen.
pub struct SettingsScreen {
    teams: StringHashMap<Vec<Team>>,
    loading_teams: Option<String>,
    accent_editor_open: bool,
    accent_draft: AccentColor,
    accent_hex_input: String,
    accent_hex_valid: bool,
}

impl View for SettingsScreen {
    type V = SettingsView;

    closed spec fn view(&self) -> SettingsView {
        SettingsView {
            teams: self.teams@.map_values(|v: Vec<Team>| v@),
            loading_teams: match self.loading_teams {
                Some(e) => Some(e@),
                None => None,
            },
            accent_editor_open: self.accent_editor_open,
            accent_draft: self.accent_draft,
            accent_hex_input: self.accent_hex_input@,
            accent_hex_valid: self.accent_hex_valid,
        }
    }
}

impl SettingsScreen {
    /// The screen's internal invariant: the hex field consistent with the
    /// draft.
    pub closed spec fn wf(&self) -> bool {
        accent_consistent(self@)
    }

    /// A screen with no teams loaded, the editor closed, and the default
    /// accent as the draft.
    pub fn new() -> (s: Self)
        ensures
            s.wf(),
            accent_consistent(s@),
            s@.teams == Map::<Seq<char>, Seq<Team>>::empty(),
            s@.loading_teams is None,
            !s@.accent_editor_open,
            s@.accent_draft@ == default_accent_rgb(),
            s@.accent_hex_input == hex_text(default_accent_rgb()),
            s@.accent_hex_valid,
    {
        let accent_draft = AccentColor::default();
        let s = Self {
            teams: StringHashMap::new(),
            loading_teams: None,
            accent_editor_open: false,
            accent_draft,
            accent_hex_input: accent_draft.to_hex(),
            accent_hex_valid: true,
        };
        assert(s@.teams =~= Map::<Seq<char>, Seq<Team>>::empty());
        s
    }

    fn sync_accent_draft(&mut self, accent: AccentColor)
        requires
            old(self).wf(),
        ensures
            final(self).wf(),
            draft_synced(old(self)@, final(self)@, accent@),
    {
        self.accent_draft = accent;
        self.accent_hex_input = accent.to_hex();
        self.accent_hex_valid = true;
    }

    fn insert_teams(&mut self, email: String, teams: Vec<Team>)
        requires
            old(self).wf(),
        ensures
            final(self).wf(),
            final(self)@ == (SettingsView {
                teams: old(self)@.teams.insert(email@, teams@),
                ..old(self)@
            }),
    {
        let ghost key = email@;
        let ghost value = teams@;
        let ghost before = self.teams@;
        self.teams.insert(email, teams);
        assert(self.teams@.map_values(|v: Vec<Team>| v@) =~= before.map_values(
            |v: Vec<Team>| v@,
        ).insert(key, value));
    }

    /// Handles one message and returns the message it hands on, if any. The
    /// hex field's text must not be one that its reading would cut off a
    /// character boundary (`try_update` checks this first).
    pub fn update(&mut self, message: Message) -> (out: Option<Message>)
        requires
            old(self).wf(),
            !settings_step_panics(message),
        ensures
            final(self).wf(),
            accent_consistent(final(self)@),
            settings_step(old(self)@, message, final(self)@, out),
    {
        match message {
            Message::FetchTeams(email) => {
                self.loading_teams = Some(email);
                None
            },
            Message::TeamsLoaded(email, teams) => {
                self.insert_teams(email, teams);
                self.loading_teams = None;
                None
            },
            Message::OpenAccentEditor(accent) => {
                self.sync_accent_draft(accent);
                self.accent_editor_open = true;
                None
            },
            Message::CloseAccentEditor => {
                self.accent_editor_open = false;
                None
            },
            Message::AccentHexChanged(value) => {
                let text = normalize_hex_input(value);
                match AccentColor::from_str(text.as_str()) {
                    Ok(accent) => {
                        self.sync_accent_draft(accent);
                    },
                    Err(_) => {
                        self.accent_hex_input = text;
                        self.accent_hex_valid = false;
                    },
                }
                None
            },
            Message::AccentSpectrumChanged(accent) => {
                self.sync_accent_draft(accent);
                None
            },
            Message::AccentHueChanged(accent) => {
                self.sync_accent_draft(accent);
                None
            },
            Message::AccentPresetSelected(accent) => {
                self.sync_accent_draft(accent);
                None
            },
            Message::SubmitAccentEditor => {
                if !self.accent_hex_valid {
                    return None;
                }
                self.accent_editor_open = false;
                Some(Message::AccentColorPicked(self.accent_draft))
            },
            Message::ResetAccentEditor => {
                self.sync_accent_draft(AccentColor::default());
                Some(Message::ResetAccentColor)
            },
            _ => None,
        }
    }

    /// Handles `message` as `update` does, unless it is an edit of the hex
    /// field whose reading would cut the text off a character boundary: then
    /// the screen is left unchanged and `None` comes back.
    pub fn try_update(&mut self, message: Message) -> (r: Option<Option<Message>>)
        requires
            old(self).wf(),
        ensures
            final(self).wf(),
            accent_consistent(final(self)@),
            r is None <==> settings_step_panics(message),
            r is None ==> final(self)@ == old(self)@,
            r matches Some(out) ==> settings_step(old(self)@, message, final(self)@, out),
    {
        let panics = match &message {
            Message::AccentHexChanged(value) => {
                let text = normalize_hex_input(value.clone());
                AccentColor::from_str_would_panic(text.as_str())
            },
            _ => false,
        };
        if panics {
            None
        } else {
            Some(self.update(message))
        }
    }

    /// Whether the accent editor is open.
    pub fn accent_editor_open(&self) -> (r: bool)
        ensures
            r == self@.accent_editor_open,
    {
        self.accent_editor_open
    }

    /// The draft colour of the editor.
    pub fn accent_draft(&self) -> (r: AccentColor)
        ensures
            r == self@.accent_draft,
    {
        self.accent_draft
    }

    /// The text of the hex field.
    pub fn accent_hex_input(&self) -> (r: &String)
        ensures
            r@ == self@.accent_hex_input,
    {
        &self.accent_hex_input
    }

    /// Whether the hex field holds a colour.
    pub fn accent_hex_valid(&self) -> (r: bool)
        ensures
            r == self@.accent_hex_valid,
    {
        self.accent_hex_valid
    }

    /// Whether the teams of `email` are being fetched.
    pub fn is_loading_teams(&self, email: &String) -> (r: bool)
        ensures
            r == (self@.loading_teams == Some(email@)),
    {
        match &self.loading_teams {
            Some(e) => *e == *email,
            None => false,
        }
    }

    /// The teams loaded for `email`, or none.
    pub fn teams_for(&self, email: &String) -> (r: Vec<Team>)
        ensures
            r@ == (if self@.teams.contains_key(email@) {
                self@.teams[email@]
            } else {
                Seq::<Team>::empty()
            }),
    {
        match self.teams.get(email.as_str()) {
            Some(v) => copy_teams(v),
            None => Vec::new(),
        }
    }

    /// The colour the accent card shows: the draft while the editor is open,
    /// the applied accent otherwise.
    pub fn accent_preview(&self, accent_color: AccentColor) -> (r: AccentColor)
        ensures
            r == (if self@.accent_editor_open {
                self@.accent_draft
            } else {
                accent_color
            }),
    {
        if self.accent_editor_open {
            self.accent_draft
        } else {
            accent_color
        }
    }
}

} // verus!
