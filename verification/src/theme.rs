//! Theme selection. The palette itself — names and colours — lives with the
//! presentation layer; which entry of it the window gets, for a given window
//! appearance and settings, is decided and verified here.

use vstd::prelude::*;

verus! {

/// The window appearance the system reports.
#[derive(Clone, Copy, PartialEq, Eq, Structural, Debug)]
pub enum Appearance {
    Light,
    VibrantLight,
    Dark,
    VibrantDark,
}

/// The configured theme names, one for light windows and one for dark.
pub struct ThemeSettings {
    pub light: String,
    pub dark: String,
}

impl Default for ThemeSettings {
    /// The built-in defaults.
    fn default() -> (r: ThemeSettings)
        ensures
            r.light@ == "Catppuccin Latte"@,
            r.dark@ == "Catppuccin Macchiato"@,
    {
        ThemeSettings {
            light: "Catppuccin Latte".to_owned(),
            dark: "Catppuccin Macchiato".to_owned(),
        }
    }
}

/// The configured name for an appearance: dark variants take the dark
/// setting, light variants the light one.
pub open spec fn name_for(mode: Appearance, light: Seq<char>, dark: Seq<char>) -> Seq<char> {
    match mode {
        Appearance::Dark | Appearance::VibrantDark => dark,
        Appearance::Light | Appearance::VibrantLight => light,
    }
}

/// The configured theme name for a window appearance.
pub fn theme_name_for<'a>(mode: Appearance, settings: &'a ThemeSettings) -> (r: &'a String)
    ensures
        r@ == name_for(mode, settings.light@, settings.dark@),
{
    match mode {
        Appearance::Dark | Appearance::VibrantDark => &settings.dark,
        Appearance::Light | Appearance::VibrantLight => &settings.light,
    }
}

/// Some listed name reads `want`.
pub open spec fn contains_name(names: Seq<String>, want: Seq<char>) -> bool {
    exists|i: int| 0 <= i < names.len() && (#[trigger] names[i])@ == want
}

/// Which theme of the list the window gets: the first whose name is the
/// wanted one, and the first of the list when the wanted name is missing.
pub fn theme_index(names: &Vec<String>, want: &String) -> (r: usize)
    requires
        names@.len() > 0,
    ensures
        r < names@.len(),
        contains_name(names@, want@) ==> names@[r as int]@ == want@ && (forall|k: int|
            0 <= k < r ==> (#[trigger] names@[k])@ != want@),
        !contains_name(names@, want@) ==> r == 0,
{
    let n = names.len();
    let mut i: usize = 0;
    while i < n
        invariant
            n == names@.len(),
            0 <= i <= n,
            forall|k: int| 0 <= k < i ==> (#[trigger] names@[k])@ != want@,
        decreases n - i,
    {
        if names[i].eq(want) {
            return i;
        }
        i = i + 1;
    }
    0
}

} // verus!
