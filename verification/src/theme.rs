//! Icon themes: which rendering of an icon goes with which display theme.

use vstd::prelude::*;

verus! {

/// How the icons follow the display theme.
#[derive(Clone, Copy, PartialEq, Eq, Structural, Debug)]
pub enum IconTheme {
    /// Plain icons on a dark taskbar, inverted ones on a light taskbar.
    Auto,
    /// Plain icons always.
    Normal,
    /// Inverted icons always.
    Inverted,
}

/// One of the two renderings of an icon.
#[derive(Clone, Copy, PartialEq, Eq, Structural, Debug)]
pub enum Rendering {
    Plain,
    Inverted,
}

/// The theme that goes by `name`. Names are matched exactly.
pub open spec fn theme_named(name: Seq<char>) -> Option<IconTheme> {
    if name == "auto"@ {
        Some(IconTheme::Auto)
    } else if name == "normal"@ {
        Some(IconTheme::Normal)
    } else if name == "inverted"@ {
        Some(IconTheme::Inverted)
    } else {
        None
    }
}

/// The name of a theme.
pub open spec fn name_of(theme: IconTheme) -> Seq<char> {
    match theme {
        IconTheme::Auto => "auto"@,
        IconTheme::Normal => "normal"@,
        IconTheme::Inverted => "inverted"@,
    }
}

/// The renderings that a theme puts in the two slots: the first is shown
/// while the display asks for plain icons, the second while it asks for
/// inverted ones.
pub open spec fn slots(theme: IconTheme) -> (Rendering, Rendering) {
    match theme {
        IconTheme::Auto => (Rendering::Plain, Rendering::Inverted),
        IconTheme::Normal => (Rendering::Plain, Rendering::Plain),
        IconTheme::Inverted => (Rendering::Inverted, Rendering::Inverted),
    }
}

/// The theme of one icon. The user's choice goes first. Without one, an icon
/// that the user supplied is shown as it is, and a built-in one follows the
/// display.
pub open spec fn theme_for(chosen: Option<IconTheme>, custom: bool) -> IconTheme {
    match chosen {
        Some(theme) => theme,
        None => if custom {
            IconTheme::Normal
        } else {
            IconTheme::Auto
        },
    }
}

impl IconTheme {
    /// Reads a theme from its name: `auto`, `normal` or `inverted`.
    pub fn parse(name: &str) -> (theme: Option<IconTheme>)
        ensures
            theme == theme_named(name@),
    {
        let given = String::from_str(name);
        if given == String::from_str("auto") {
            Some(IconTheme::Auto)
        } else if given == String::from_str("normal") {
            Some(IconTheme::Normal)
        } else if given == String::from_str("inverted") {
            Some(IconTheme::Inverted)
        } else {
            None
        }
    }

    /// The name of the theme.
    pub fn name(&self) -> (name: &'static str)
        ensures
            name@ == name_of(*self),
    {
        match self {
            IconTheme::Auto => "auto",
            IconTheme::Normal => "normal",
            IconTheme::Inverted => "inverted",
        }
    }

    /// The renderings for the two slots of an icon under this theme.
    pub fn renderings(&self) -> (pair: (Rendering, Rendering))
        ensures
            pair == slots(*self),
    {
        match self {
            IconTheme::Auto => (Rendering::Plain, Rendering::Inverted),
            IconTheme::Normal => (Rendering::Plain, Rendering::Plain),
            IconTheme::Inverted => (Rendering::Inverted, Rendering::Inverted),
        }
    }

    /// The theme of one icon, given the user's choice and whether the icon is
    /// the user's own.
    pub fn for_icon(chosen: Option<IconTheme>, custom: bool) -> (theme: IconTheme)
        ensures
            theme == theme_for(chosen, custom),
    {
        match chosen {
            Some(theme) => theme,
            None => {
                if custom {
                    IconTheme::Normal
                } else {
                    IconTheme::Auto
                }
            },
        }
    }
}

/// Whether the display asks for the inverted icons, given the value of the
/// system's light-theme setting, or none where it could not be read. A
/// setting that could not be read asks for plain icons.
pub fn use_inverted_icon(light_theme: Option<u32>) -> (inverted: bool)
    ensures
        inverted == (light_theme is Some && light_theme->0 != 0),
{
    match light_theme {
        Some(value) => value != 0,
        None => false,
    }
}

/// Every theme is read back from its own name.
pub proof fn lemma_name_round_trip(theme: IconTheme)
    ensures
        theme_named(name_of(theme)) == Some(theme),
{
    reveal_strlit("auto");
    reveal_strlit("normal");
    reveal_strlit("inverted");
    assert("auto"@.len() == 4);
    assert("normal"@.len() == 6);
    assert("inverted"@.len() == 8);
}

} // verus!
