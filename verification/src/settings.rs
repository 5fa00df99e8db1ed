//! The settings view: its categories, and the decisions of its panels.

use vstd::prelude::*;
use vstd::string::*;
use crate::text::str_eq;
use crate::theme::TerminalThemeConfig;

verus! {

/// A page of the settings view.
#[derive(Debug, Clone, Copy, PartialEq, Eq, Structural)]
pub enum SettingsCategory {
    General,
    Personas,
    Memory,
    Terminal,
}

impl SettingsCategory {
    /// The pages, in the order they are listed.
    pub fn all() -> (v: Vec<SettingsCategory>)
        ensures
            v@ == seq![
                SettingsCategory::General,
                SettingsCategory::Personas,
                SettingsCategory::Memory,
                SettingsCategory::Terminal,
            ],
    {
        let mut v: Vec<SettingsCategory> = Vec::new();
        v.push(SettingsCategory::General);
        v.push(SettingsCategory::Personas);
        v.push(SettingsCategory::Memory);
        v.push(SettingsCategory::Terminal);
        proof {
            assert(v@ =~= seq![
                SettingsCategory::General,
                SettingsCategory::Personas,
                SettingsCategory::Memory,
                SettingsCategory::Terminal,
            ]);
        }
        v
    }

    /// The name the page is listed under.
    pub fn label(&self) -> (l: &'static str)
        ensures
            l@ == match *self {
                SettingsCategory::General => "General"@,
                SettingsCategory::Personas => "Personas"@,
                SettingsCategory::Memory => "Memory"@,
                SettingsCategory::Terminal => "Terminal"@,
            },
    {
        match self {
            SettingsCategory::General => "General",
            SettingsCategory::Personas => "Personas",
            SettingsCategory::Memory => "Memory",
            SettingsCategory::Terminal => "Terminal",
        }
    }
}

/// Whether a field was changed: it holds a value, and not the saved one.
pub fn is_dirty(current: Option<&str>, saved: &str) -> (dirty: bool)
    ensures
        dirty == match current {
            Some(c) => c@ != saved@,
            None => false,
        },
{
    match current {
        Some(c) => !str_eq(c, saved),
        None => false,
    }
}

/// The value to save for a field: what it holds, or the saved value where
/// it holds none.
pub fn saved_value(current: Option<&str>, saved: String) -> (value: String)
    ensures
        value@ == match current {
            Some(c) => c@,
            None => saved@,
        },
{
    match current {
        Some(c) => String::from_str(c),
        None => saved,
    }
}

/// The first position of `names` that holds `current`.
pub fn selection_index(names: &Vec<String>, current: &str) -> (r: Option<usize>)
    ensures
        match r {
            Some(i) => i < names@.len() && names@[i as int]@ == current@ && forall|j: int|
                0 <= j < i ==> names@[j]@ != current@,
            None => forall|j: int| 0 <= j < names@.len() ==> names@[j]@ != current@,
        },
{
    let mut i: usize = 0;
    while i < names.len()
        invariant
            i <= names@.len(),
            forall|j: int| 0 <= j < i ==> names@[j]@ != current@,
        decreases names@.len() - i,
    {
        if str_eq(names[i].as_str(), current) {
            return Some(i);
        }
        i += 1;
    }
    None
}

/// The built-in terminal themes that the settings offer, by name.
pub fn terminal_theme_names() -> (names: Vec<String>)
    ensures
        names@.len() == 3,
        names@[0]@ == "tokyo-night"@,
        names@[1]@ == "gruvbox"@,
        names@[2]@ == "catppuccin"@,
{
    let mut names: Vec<String> = Vec::new();
    names.push(String::from_str("tokyo-night"));
    names.push(String::from_str("gruvbox"));
    names.push(String::from_str("catppuccin"));
    names
}

/// The name that the settings compare the chosen terminal theme with: the
/// configured name, or nothing for colours given themselves.
pub fn configured_theme_name(config: &TerminalThemeConfig) -> (name: &str)
    ensures
        name@ == config@.selected_name(),
{
    match config {
        TerminalThemeConfig::Named(n) => n.as_str(),
        TerminalThemeConfig::Custom(_) => {
            proof {
                reveal_strlit("");
                assert(""@ =~= Seq::<char>::empty());
            }
            ""
        },
    }
}

} // verus!
