//! Settings of the booth.

use vstd::prelude::*;
use crate::text::same_text;

verus! {

/// One setting: a name and its value.
#[derive(Debug, Clone, PartialEq, Eq)]
pub struct Setting {
    pub name: String,
    pub value: String,
}

/// What a setting holds, as plain values.
pub struct SettingView {
    pub name: Seq<char>,
    pub value: Seq<char>,
}

impl View for Setting {
    type V = SettingView;

    open spec fn view(&self) -> SettingView {
        SettingView { name: self.name@, value: self.value@ }
    }
}

/// The settings that the booth knows.
#[derive(Debug, Clone, Copy, PartialEq, Eq, PartialOrd, Structural)]
pub enum SettingKey {
    AllowOrderCreation,
}

impl SettingKey {
    /// The name under which the setting is stored.
    pub open spec fn spec_name(self) -> Seq<char> {
        match self {
            SettingKey::AllowOrderCreation => "AllowOrderCreation"@,
        }
    }

    /// The name under which the setting is stored.
    pub fn name(self) -> (name: String)
        ensures
            name@ == self.spec_name(),
    {
        match self {
            SettingKey::AllowOrderCreation => String::from_str("AllowOrderCreation"),
        }
    }
}

/// The view of a setting that may be missing.
pub open spec fn setting_view(found: Option<Setting>) -> Option<SettingView> {
    match found {
        Some(setting) => Some(setting@),
        None => None,
    }
}

impl SettingView {
    /// A setting is switched on where its value is the text `1`.
    pub open spec fn is_true(self) -> bool {
        self.value == seq!['1']
    }
}

impl Setting {
    /// Whether the setting is switched on: its value is the text `1`.
    pub fn is_true(&self) -> (on: bool)
        ensures
            on == self@.is_true(),
    {
        proof {
            reveal_strlit("1");
            assert("1"@ =~= seq!['1']);
        }
        same_text(self.value.as_str(), "1")
    }

    /// A copy of this setting.
    pub fn copy(&self) -> (copy: Setting)
        ensures
            copy == *self,
    {
        Setting { name: self.name.clone(), value: self.value.clone() }
    }
}

} // verus!
