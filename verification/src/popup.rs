//! The popup that the window shows over the theme list, and the buttons of
//! the window as the handlers they call.

use vstd::prelude::*;

verus! {

/// The handler a button or list of the window calls when clicked.
#[derive(Clone, Copy, Debug, PartialEq, Eq, Structural)]
pub enum Handler {
    SelectTheme,
    DeleteTheme,
    LoadTheme,
    RefreshTheme,
    ViewOnline,
    ShowNewBox,
    ShowInstallBox,
    OpenFolder,
    Publish,
    HidePopup,
    CreateTheme,
    InstallTheme,
    Nothing,
}

/// Whether the window redraws itself after a handler ran.
#[derive(Clone, Copy, Debug, PartialEq, Eq, Structural)]
pub enum UpdateScreen {
    Redraw,
    DontRedraw,
}

/// The popups the window can show.  `New` and `Install` ask for a theme
/// name; the others report the outcome of an action.
#[derive(Clone, Copy, Debug, PartialEq, Eq, Structural)]
pub enum Popup {
    New,
    Install,
    Installed,
    DidNotExist,
    NotSignedIn,
    PublishedOnline,
    UpdatedOnline,
    NotSelected,
}

impl Popup {
    /// The text a popup shows: the label of its submit button for the popups
    /// that ask for a name, its message for the others.
    pub open spec fn label_text(self) -> Seq<char> {
        match self {
            Popup::New => "Create"@,
            Popup::Install => "Install"@,
            Popup::Installed => "Theme Installed"@,
            Popup::DidNotExist => "Theme Does Not Exist"@,
            Popup::NotSignedIn => "You are not logged into ThemeHub"@,
            Popup::PublishedOnline => "Published theme online"@,
            Popup::UpdatedOnline => "Updated theme online"@,
            Popup::NotSelected => "You don't have a theme selected"@,
        }
    }

    /// The handler the popup's submit button calls.
    pub open spec fn submit_handler(self) -> Handler {
        match self {
            Popup::New => Handler::CreateTheme,
            Popup::Install => Handler::InstallTheme,
            _ => Handler::Nothing,
        }
    }

    /// Whether the popup asks the user for a theme name.
    pub open spec fn asks_for_name(self) -> bool {
        match self {
            Popup::New | Popup::Install => true,
            _ => false,
        }
    }

    /// The text the popup shows.
    pub fn label(&self) -> (text: String)
        ensures
            text@ == self.label_text(),
    {
        let text = match self {
            Popup::New => "Create",
            Popup::Install => "Install",
            Popup::Installed => "Theme Installed",
            Popup::DidNotExist => "Theme Does Not Exist",
            Popup::NotSignedIn => "You are not logged into ThemeHub",
            Popup::PublishedOnline => "Published theme online",
            Popup::UpdatedOnline => "Updated theme online",
            Popup::NotSelected => "You don't have a theme selected",
        };
        String::from_str(text)
    }

    /// The handler the popup's submit button calls.
    pub fn callback(&self) -> (handler: Handler)
        ensures
            handler == self.submit_handler(),
    {
        match self {
            Popup::New => Handler::CreateTheme,
            Popup::Install => Handler::InstallTheme,
            _ => Handler::Nothing,
        }
    }

    /// Whether the popup asks the user for a theme name.
    pub fn is_input(&self) -> (b: bool)
        ensures
            b == self.asks_for_name(),
    {
        match self {
            Popup::Installed => false,
            Popup::DidNotExist => false,
            Popup::NotSignedIn => false,
            Popup::PublishedOnline => false,
            Popup::UpdatedOnline => false,
            Popup::NotSelected => false,
            _ => true,
        }
    }
}

/// A popup asks for a name exactly when its submit button does something:
/// the message popups are only dismissed.
pub proof fn lemma_input_popups_submit(popup: Popup)
    ensures
        popup.asks_for_name() <==> popup.submit_handler() != Handler::Nothing,
{
}

/// Exactly the new-theme and install popups ask for a name, and their
/// submit buttons create and install; every popup that reports an outcome
/// (installed, unknown theme, not signed in, published, updated, nothing
/// selected) only shows its message.
pub proof fn lemma_popup_kinds(popup: Popup)
    ensures
        popup.asks_for_name() <==> (popup == Popup::New || popup == Popup::Install),
        popup == Popup::New ==> popup.submit_handler() == Handler::CreateTheme,
        popup == Popup::Install ==> popup.submit_handler() == Handler::InstallTheme,
        (popup == Popup::Installed || popup == Popup::DidNotExist || popup == Popup::NotSignedIn
            || popup == Popup::PublishedOnline || popup == Popup::UpdatedOnline
            || popup == Popup::NotSelected) ==> !popup.asks_for_name() && popup.submit_handler()
            == Handler::Nothing,
{
}

/// The text each popup shows.
pub proof fn lemma_popup_texts()
    ensures
        Popup::New.label_text() == "Create"@,
        Popup::Install.label_text() == "Install"@,
        Popup::Installed.label_text() == "Theme Installed"@,
        Popup::DidNotExist.label_text() == "Theme Does Not Exist"@,
        Popup::NotSignedIn.label_text() == "You are not logged into ThemeHub"@,
        Popup::PublishedOnline.label_text() == "Published theme online"@,
        Popup::UpdatedOnline.label_text() == "Updated theme online"@,
        Popup::NotSelected.label_text() == "You don't have a theme selected"@,
{
}

} // verus!
