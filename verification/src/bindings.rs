//! The calls this library makes into `ravenlib` and into std where vstd gives
//! no specification.  Each function here is trusted: its contract is taken
//! from the called function's source or documentation, not proved.

use vstd::prelude::*;
use ravenlib::themes::ROption;
use crate::theme::ThemeOption;

verus! {

/// The description that `ravenlib` gives a theme that has none of its own.
pub open spec fn default_description() -> Seq<char> {
    "A raven theme."@
}

/// Calls `ravenlib::config::default_desc`, whose whole body is
/// `String::from("A raven theme.")`: the result holds exactly that text.
#[verifier::external_body]
pub(crate) fn default_desc() -> (desc: String)
    ensures
        desc@ == default_description(),
{
    ravenlib::config::default_desc()
}

/// Calls `ravenlib::config::default_screen`, whose whole body is
/// `String::new()`: the result is the empty text, which marks a theme without
/// a screenshot.
#[verifier::external_body]
pub(crate) fn default_screen() -> (screen: String)
    ensures
        screen@ == Seq::<char>::empty(),
{
    ravenlib::config::default_screen()
}

/// The name under which `ravenlib` serialises an option: the variant's name
/// in lower case, or the name its `#[serde(rename)]` gives it.
pub open spec fn option_name(option: ThemeOption) -> Seq<char> {
    match option {
        ThemeOption::Polybar => "poly"@,
        ThemeOption::OldI3 => "wm"@,
        ThemeOption::I3 => "i3"@,
        ThemeOption::Xres => "xres"@,
        ThemeOption::MergeXRes => "xres_m"@,
        ThemeOption::Pywal => "pywal"@,
        ThemeOption::Wall => "wall"@,
        ThemeOption::Ncmpcpp => "ncmpcpp"@,
        ThemeOption::Termite => "termite"@,
        ThemeOption::Script => "script"@,
        ThemeOption::Bspwm => "bspwm"@,
        ThemeOption::Rofi => "rofi"@,
        ThemeOption::Ranger => "ranger"@,
        ThemeOption::Lemonbar => "lemonbar"@,
        ThemeOption::Openbox => "openbox"@,
        ThemeOption::Dunst => "dunst"@,
        ThemeOption::VsCode => "vscode"@,
        ThemeOption::OldSublTheme => "st_subltheme"@,
        ThemeOption::OldScs => "st_scs"@,
        ThemeOption::OldTmTheme => "st_tmtheme"@,
    }
}

/// The text that `ravenlib::themes::ROption::to_string` gives for an option:
/// its JSON serialisation, the option's name in double quotes (no name holds
/// a character that JSON escapes).
pub open spec fn option_text(option: ThemeOption) -> Seq<char> {
    seq!['"'] + option_name(option) + seq!['"']
}

/// Calls `ravenlib::themes::ROption::to_string` on the `ravenlib` option that
/// `option` stands for.  That method is `serde_json::to_string(self).unwrap()`,
/// and a unit variant serialises as its serde name in double quotes, which
/// cannot fail.
#[verifier::external_body]
pub(crate) fn option_to_string(option: ThemeOption) -> (text: String)
    ensures
        text@ == option_text(option),
{
    let raven_option = match option {
        ThemeOption::Polybar => ROption::Polybar, ThemeOption::OldI3 => ROption::OldI3,
        ThemeOption::I3 => ROption::I3, ThemeOption::Xres => ROption::Xres,
        ThemeOption::MergeXRes => ROption::MergeXRes, ThemeOption::Pywal => ROption::Pywal,
        ThemeOption::Wall => ROption::Wall, ThemeOption::Ncmpcpp => ROption::Ncmpcpp,
        ThemeOption::Termite => ROption::Termite, ThemeOption::Script => ROption::Script,
        ThemeOption::Bspwm => ROption::Bspwm, ThemeOption::Rofi => ROption::Rofi,
        ThemeOption::Ranger => ROption::Ranger, ThemeOption::Lemonbar => ROption::Lemonbar,
        ThemeOption::Openbox => ROption::Openbox, ThemeOption::Dunst => ROption::Dunst,
        ThemeOption::VsCode => ROption::VsCode, ThemeOption::OldSublTheme => ROption::OldSublTheme,
        ThemeOption::OldScs => ROption::OldScs, ThemeOption::OldTmTheme => ROption::OldTmTheme,
    };
    raven_option.to_string()
}

/// Calls `String::push`, which std documents as appending the character to
/// the end of the string.
#[verifier::external_body]
pub(crate) fn push_char(text: &mut String, c: char)
    ensures
        final(text)@ == old(text)@.push(c),
{
    text.push(c);
}

} // verus!
