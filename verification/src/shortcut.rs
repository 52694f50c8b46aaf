//! The global capture shortcut and how each platform writes it.

use vstd::prelude::*;

use crate::text::push_char;

verus! {

broadcast use vstd::string::group_string_axioms;

/// Desktop platforms with a capture shortcut.
#[derive(Debug, Clone, Copy, PartialEq, Eq, Structural)]
pub enum ShortcutPlatform {
    MacOs,
    Windows,
}

/// A modifier key of the capture shortcut.
#[derive(Debug, Clone, Copy, PartialEq, Eq, Hash, Structural)]
pub enum ShortcutModifier {
    Control,
    Shift,
    Command,
}

/// The glyph (macOS) or word (Windows) for a modifier.
pub open spec fn spec_display_token(modifier: ShortcutModifier, platform: ShortcutPlatform) -> Seq<char> {
    match (modifier, platform) {
        (ShortcutModifier::Shift, ShortcutPlatform::MacOs) => "⇧"@,
        (ShortcutModifier::Shift, ShortcutPlatform::Windows) => "Shift"@,
        (ShortcutModifier::Command, _) => "⌘"@,
        (ShortcutModifier::Control, _) => "Ctrl"@,
    }
}

impl ShortcutModifier {
    /// How the modifier is written on `platform`.
    pub fn display_token(self, platform: ShortcutPlatform) -> (token: &'static str)
        ensures
            token@ == spec_display_token(self, platform),
    {
        match (self, platform) {
            (ShortcutModifier::Shift, ShortcutPlatform::MacOs) => "⇧",
            (ShortcutModifier::Shift, ShortcutPlatform::Windows) => "Shift",
            (ShortcutModifier::Command, _) => "⌘",
            (ShortcutModifier::Control, _) => "Ctrl",
        }
    }
}

/// A key with its modifiers, in display order.
#[derive(Debug, PartialEq, Eq)]
pub struct CaptureShortcut {
    pub key: char,
    pub modifiers: Vec<ShortcutModifier>,
}

/// The capture shortcut: Shift-Command-A on macOS, Shift-Control-A on Windows.
pub fn kiri_capture(platform: ShortcutPlatform) -> (shortcut: CaptureShortcut)
    ensures
        shortcut.key == 'a',
        shortcut.modifiers@ == kiri_capture_modifiers(platform),
{
    let last = match platform {
        ShortcutPlatform::MacOs => ShortcutModifier::Command,
        ShortcutPlatform::Windows => ShortcutModifier::Control,
    };
    let modifiers = vec![ShortcutModifier::Shift, last];
    assert(modifiers@ =~= seq![ShortcutModifier::Shift, last]);
    CaptureShortcut { key: 'a', modifiers }
}

/// Separator between the parts of a label: `+` on Windows, nothing on macOS.
pub open spec fn label_separator(platform: ShortcutPlatform) -> Seq<char> {
    match platform {
        ShortcutPlatform::MacOs => Seq::empty(),
        ShortcutPlatform::Windows => "+"@,
    }
}

/// The modifier tokens of `modifiers`, each followed by the separator.
pub open spec fn modifier_prefix(modifiers: Seq<ShortcutModifier>, platform: ShortcutPlatform) -> Seq<char>
    decreases modifiers.len(),
{
    if modifiers.len() == 0 {
        Seq::empty()
    } else {
        modifier_prefix(modifiers.drop_last(), platform) + spec_display_token(modifiers.last(), platform)
            + label_separator(platform)
    }
}

/// ASCII upper case of `c` (`char::to_ascii_uppercase`).
pub open spec fn ascii_upper(c: char) -> char {
    if 'a' <= c && c <= 'z' { ((c as u32) - 32) as char } else { c }
}

/// The label of a shortcut: the modifier tokens joined by the separator, the
/// separator again when there were modifiers, then the key in upper case.
pub open spec fn spec_display_label(key: char, modifiers: Seq<ShortcutModifier>, platform: ShortcutPlatform) -> Seq<char> {
    modifier_prefix(modifiers, platform).push(ascii_upper(key))
}

/// The modifiers of the capture shortcut on `platform`.
pub open spec fn kiri_capture_modifiers(platform: ShortcutPlatform) -> Seq<ShortcutModifier> {
    match platform {
        ShortcutPlatform::MacOs => seq![ShortcutModifier::Shift, ShortcutModifier::Command],
        ShortcutPlatform::Windows => seq![ShortcutModifier::Shift, ShortcutModifier::Control],
    }
}

impl CaptureShortcut {
    /// The shortcut as shown in menus and settings, e.g. "⇧⌘A" or "Shift+Ctrl+A".
    pub fn display_label(&self, platform: ShortcutPlatform) -> (label: String)
        ensures
            label@ == spec_display_label(self.key, self.modifiers@, platform),
    {
        let separator: &str = match platform {
            ShortcutPlatform::MacOs => "",
            ShortcutPlatform::Windows => "+",
        };
        proof {
            reveal_strlit("");
        }
        assert(separator@ == label_separator(platform));
        let mut label = String::new();
        let mut i: usize = 0;
        while i < self.modifiers.len()
            invariant
                i <= self.modifiers@.len(),
                separator@ == label_separator(platform),
                label@ == modifier_prefix(self.modifiers@.take(i as int), platform),
            decreases self.modifiers@.len() - i,
        {
            let token = self.modifiers[i].display_token(platform);
            label.append(token);
            label.append(separator);
            assert(self.modifiers@.take(i + 1).drop_last() =~= self.modifiers@.take(i as int));
            i = i + 1;
        }
        assert(self.modifiers@.take(i as int) =~= self.modifiers@);
        let key = self.key;
        let upper = if 'a' <= key && key <= 'z' { ((key as u8) - 32) as char } else { key };
        push_char(&mut label, upper);
        label
    }
}

/// Whether the operating system accepted the global shortcut.
#[derive(Debug, Clone, Copy, PartialEq, Eq, Structural)]
pub enum ShortcutRegistrationStatus {
    Enabled,
    Occupied,
}

impl ShortcutRegistrationStatus {
    /// The status as the settings window receives it.
    pub fn as_str(self) -> (name: &'static str)
        ensures
            name@ == (match self {
                ShortcutRegistrationStatus::Enabled => "enabled"@,
                ShortcutRegistrationStatus::Occupied => "occupied"@,
            }),
    {
        match self {
            ShortcutRegistrationStatus::Enabled => "enabled",
            ShortcutRegistrationStatus::Occupied => "occupied",
        }
    }
}

/// The shortcut as shown in settings, with its registration status.
#[derive(Debug, PartialEq, Eq)]
pub struct ShortcutStatusDto {
    pub label: String,
    pub status: ShortcutRegistrationStatus,
}

/// The settings view of the capture shortcut on `platform`.
pub fn shortcut_status(registered: bool, platform: ShortcutPlatform) -> (status: ShortcutStatusDto)
    ensures
        status.label@ == spec_display_label('a', kiri_capture_modifiers(platform), platform),
        status.status == if registered {
            ShortcutRegistrationStatus::Enabled
        } else {
            ShortcutRegistrationStatus::Occupied
        },
{
    let shortcut = kiri_capture(platform);
    let label = shortcut.display_label(platform);
    ShortcutStatusDto {
        label,
        status: if registered { ShortcutRegistrationStatus::Enabled } else { ShortcutRegistrationStatus::Occupied },
    }
}

} // verus!
