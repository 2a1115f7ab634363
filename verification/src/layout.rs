//! What the window shows for a given state: the theme list, the panel of the
//! selected theme, the button bar and the popup.  Drawing it is left to the
//! caller.

use vstd::prelude::*;
use crate::bindings::default_screen;
use crate::model::{DataModel, ModelView};
use crate::popup::{Handler, Popup};

verus! {

/// An entry of the theme list.
pub struct ThemeItem {
    /// The theme's name.
    pub label: String,
    /// Whether the entry is marked as selected.
    pub selected: bool,
}

/// The panel beside the list.
pub enum CurrentTheme<T> {
    /// A theme is selected: its name, whether its screenshot (stored under
    /// its name) is shown when one was loaded, and its summary text.
    Selected { name: String, shows_screenshot: bool, text: T },
    /// Nothing is selected: a message says so.
    NoneSelected { message: String },
}

/// A button of the bar under the panel.
pub struct ButtonSpec {
    pub label: String,
    pub handler: Handler,
}

/// The content of the popup, besides its close button.
pub enum PopupBox {
    /// A field for a theme name and a submit button.
    Input { submit_label: String, submit: Handler },
    /// A message and an OK button that hides the popup.
    Message { label: String },
}

/// Everything the window shows.
pub struct ScreenLayout<T> {
    pub theme_items: Vec<ThemeItem>,
    pub current: CurrentTheme<T>,
    pub buttons: Vec<ButtonSpec>,
    pub popup: Option<PopupBox>,
}

/// The buttons of the bar, in order: label and handler.
pub open spec fn bottom_bar() -> Seq<(Seq<char>, Handler)> {
    seq![
        ("View on ThemeHub"@, Handler::ViewOnline),
        ("View in File Manager"@, Handler::OpenFolder),
        ("Refresh Last Theme"@, Handler::RefreshTheme),
        ("Load Theme"@, Handler::LoadTheme),
        ("Delete Theme"@, Handler::DeleteTheme),
        ("New Theme"@, Handler::ShowNewBox),
        ("Install Theme"@, Handler::ShowInstallBox),
        ("Publish on ThemeHub"@, Handler::Publish),
    ]
}

impl<T> ModelView<T> {
    /// The selection points at a theme of the list.
    pub open spec fn has_valid_selection(self) -> bool {
        self.selected_theme matches Some(i) && i < self.themes.len()
    }

    /// A selected theme has its summary text, which the panel shows.
    pub open spec fn selection_has_text(self) -> bool {
        self.has_valid_selection() ==> self.selected_theme.unwrap() < self.text.len()
    }
}

/// The list shows one entry per theme, named after it, and marks the
/// selected one.
pub open spec fn items_match<T>(items: Seq<ThemeItem>, state: ModelView<T>) -> bool {
    &&& items.len() == state.themes.len()
    &&& forall|i: int|
        0 <= i < items.len() ==> {
            &&& (#[trigger] items[i]).label@ == state.themes[i].name@
            &&& items[i].selected == (state.selected_theme == Some(i as usize))
        }
}

/// The panel shows the selected theme, its screenshot when its address is
/// not empty, and its summary; else the message that nothing is selected.
pub open spec fn current_matches<T>(current: CurrentTheme<T>, state: ModelView<T>) -> bool {
    if state.has_valid_selection() {
        let i = state.selected_theme.unwrap() as int;
        current matches CurrentTheme::Selected { name, shows_screenshot, text }
            && name@ == state.themes[i].name@
            && shows_screenshot == (state.themes[i].screenshot@.len() > 0)
            && text == state.text[i]
    } else {
        current matches CurrentTheme::NoneSelected { message } && message@ == "No Theme selected."@
    }
}

/// The bar holds the buttons of [`bottom_bar`].
pub open spec fn buttons_match(buttons: Seq<ButtonSpec>) -> bool {
    &&& buttons.len() == bottom_bar().len()
    &&& forall|i: int|
        0 <= i < buttons.len() ==> ((#[trigger] buttons[i]).label@, buttons[i].handler)
            == bottom_bar()[i]
}

/// A shown popup asks for a name or shows its message.
pub open spec fn popup_matches(popup: Option<PopupBox>, shown: bool, current: Popup) -> bool {
    if !shown {
        popup is None
    } else if current.asks_for_name() {
        popup matches Some(PopupBox::Input { submit_label, submit })
            && submit_label@ == current.label_text()
            && submit == current.submit_handler()
    } else {
        popup matches Some(PopupBox::Message { label }) && label@ == current.label_text()
    }
}

fn button(label: &str, handler: Handler) -> (b: ButtonSpec)
    ensures
        b.label@ == label@,
        b.handler == handler,
{
    ButtonSpec { label: String::from_str(label), handler }
}

impl<T: Copy> DataModel<T> {
    /// What the window shows in this state.
    pub fn layout(&self) -> (screen: ScreenLayout<T>)
        requires
            self@.selection_has_text(),
        ensures
            items_match(screen.theme_items@, self@),
            current_matches(screen.current, self@),
            buttons_match(screen.buttons@),
            popup_matches(screen.popup, self.popup_shown, self.popup_current),
    {
        let mut theme_items: Vec<ThemeItem> = Vec::new();
        let mut i: usize = 0;
        while i < self.themes.len()
            invariant
                i <= self.themes@.len(),
                theme_items@.len() == i,
                forall|k: int|
                    0 <= k < i ==> {
                        &&& (#[trigger] theme_items@[k]).label@ == self.themes@[k].name@
                        &&& theme_items@[k].selected == (self.selected_theme == Some(k as usize))
                    },
            decreases self.themes@.len() - i,
        {
            let item = ThemeItem {
                label: self.themes[i].name.clone(),
                selected: self.selected_theme == Some(i),
            };
            theme_items.push(item);
            i = i + 1;
        }
        let current = match self.selected_theme {
            Some(sel) if sel < self.themes.len() => {
                let theme = &self.themes[sel];
                let shows_screenshot = theme.screenshot != default_screen()
                    && !theme.screenshot.as_str().is_empty();
                CurrentTheme::Selected {
                    name: theme.name.clone(),
                    shows_screenshot,
                    text: self.text[sel],
                }
            },
            _ => CurrentTheme::NoneSelected { message: String::from_str("No Theme selected.") },
        };
        let mut buttons: Vec<ButtonSpec> = Vec::new();
        buttons.push(button("View on ThemeHub", Handler::ViewOnline));
        buttons.push(button("View in File Manager", Handler::OpenFolder));
        buttons.push(button("Refresh Last Theme", Handler::RefreshTheme));
        buttons.push(button("Load Theme", Handler::LoadTheme));
        buttons.push(button("Delete Theme", Handler::DeleteTheme));
        buttons.push(button("New Theme", Handler::ShowNewBox));
        buttons.push(button("Install Theme", Handler::ShowInstallBox));
        buttons.push(button("Publish on ThemeHub", Handler::Publish));
        let popup = if self.popup_shown {
            if self.popup_current.is_input() {
                Some(PopupBox::Input {
                    submit_label: self.popup_current.label(),
                    submit: self.popup_current.callback(),
                })
            } else {
                Some(PopupBox::Message { label: self.popup_current.label() })
            }
        } else {
            None
        };
        ScreenLayout { theme_items, current, buttons, popup }
    }
}

/// The list marks at most one entry, and marks the selected theme's entry
/// whenever the selection points into the list.
pub proof fn lemma_one_entry_marked<T>(items: Seq<ThemeItem>, state: ModelView<T>)
    requires
        items_match(items, state),
        state.themes.len() <= usize::MAX,
    ensures
        forall|i: int, j: int|
            0 <= i < items.len() && 0 <= j < items.len() && (#[trigger] items[i]).selected
                && (#[trigger] items[j]).selected ==> i == j,
        state.has_valid_selection() ==> items[state.selected_theme.unwrap() as int].selected,
{
    assert forall|i: int, j: int|
        0 <= i < items.len() && 0 <= j < items.len() && (#[trigger] items[i]).selected
            && (#[trigger] items[j]).selected implies i == j by {
        assert(state.selected_theme == Some(i as usize));
        assert(state.selected_theme == Some(j as usize));
    }
}

/// A shown popup that asks for a name is laid out as a name field with its
/// submit button; every other shown popup as its message with an OK button;
/// a hidden popup is not laid out.
pub proof fn lemma_popup_layout(popup: Option<PopupBox>, shown: bool, current: Popup)
    requires
        popup_matches(popup, shown, current),
    ensures
        !shown ==> popup is None,
        shown && (current == Popup::New || current == Popup::Install) ==> popup matches Some(
            PopupBox::Input { .. },
        ),
        shown && !(current == Popup::New || current == Popup::Install) ==> popup matches Some(
            PopupBox::Message { .. },
        ),
        shown && current == Popup::DidNotExist ==> (popup matches Some(PopupBox::Message { label })
            && label@ == "Theme Does Not Exist"@),
{
}

/// The panel shows the selected theme (its name, its screenshot when its
/// address is not empty, its summary text), or the message "No Theme
/// selected." when the selection points at no theme.
pub proof fn lemma_panel<T>(current: CurrentTheme<T>, state: ModelView<T>)
    requires
        current_matches(current, state),
    ensures
        state.selected_theme is Some && state.selected_theme.unwrap() < state.themes.len() ==> ({
            let i = state.selected_theme.unwrap() as int;
            current matches CurrentTheme::Selected { name, shows_screenshot, text }
                && name@ == state.themes[i].name@
                && shows_screenshot == (state.themes[i].screenshot@.len() > 0)
                && text == state.text[i]
        }),
        !(state.selected_theme is Some && state.selected_theme.unwrap() < state.themes.len()) ==> (current matches CurrentTheme::NoneSelected { message }
            && message@ == "No Theme selected."@),
{
}

/// The bar holds eight buttons, in this order: view on ThemeHub, open the
/// folder, refresh the last theme, load, delete, new theme, install, publish.
pub proof fn lemma_button_bar(buttons: Seq<ButtonSpec>)
    requires
        buttons_match(buttons),
    ensures
        buttons.len() == 8,
        buttons[0].label@ == "View on ThemeHub"@ && buttons[0].handler == Handler::ViewOnline,
        buttons[1].label@ == "View in File Manager"@ && buttons[1].handler == Handler::OpenFolder,
        buttons[2].label@ == "Refresh Last Theme"@ && buttons[2].handler == Handler::RefreshTheme,
        buttons[3].label@ == "Load Theme"@ && buttons[3].handler == Handler::LoadTheme,
        buttons[4].label@ == "Delete Theme"@ && buttons[4].handler == Handler::DeleteTheme,
        buttons[5].label@ == "New Theme"@ && buttons[5].handler == Handler::ShowNewBox,
        buttons[6].label@ == "Install Theme"@ && buttons[6].handler == Handler::ShowInstallBox,
        buttons[7].label@ == "Publish on ThemeHub"@ && buttons[7].handler == Handler::Publish,
{
    assert(buttons[0].label@ == bottom_bar()[0].0);
    assert(buttons[1].label@ == bottom_bar()[1].0);
    assert(buttons[2].label@ == bottom_bar()[2].0);
    assert(buttons[3].label@ == bottom_bar()[3].0);
    assert(buttons[4].label@ == bottom_bar()[4].0);
    assert(buttons[5].label@ == bottom_bar()[5].0);
    assert(buttons[6].label@ == bottom_bar()[6].0);
    assert(buttons[7].label@ == bottom_bar()[7].0);
}

} // verus!
