//! The state of the window and the way each handler changes it.
//!
//! Every handler is split where it needs outside work (a theme operation of
//! `ravenlib`, a process, the network): the library changes the state and
//! answers with a [`Reaction`] that names the work to do and whether to
//! redraw; where the outcome of that work matters, the caller hands it back
//! to a second function.

use vstd::prelude::*;
use crate::popup::{Popup, UpdateScreen};
use crate::theme::{names_screenshot, screenshot_path, stripped_address, summary_of, theme_text, ConfigInfo, ThemeInfo};

verus! {

/// The state of the window.  `T` is the handle of a text resource that holds
/// a theme's summary.
pub struct DataModel<T> {
    /// The settings read from raven's configuration.
    pub config: ConfigInfo,
    /// The themes in the list, in display order.
    pub themes: Vec<ThemeInfo>,
    /// The index of the selected theme, if one was picked.
    pub selected_theme: Option<usize>,
    /// The summary texts, one per theme in the order they were added.
    pub text: Vec<T>,
    /// For each theme index, the name its screenshot is stored under, if any.
    pub screenshots: Vec<Option<String>>,
    /// The text typed into the popup's input field.
    pub popup_input: String,
    /// Whether the popup is shown.
    pub popup_shown: bool,
    /// Which popup is shown, or shown last.
    pub popup_current: Popup,
}

/// The state of the window, with texts as character sequences.
#[verifier::ext_equal]
pub struct ModelView<T> {
    pub host: Seq<char>,
    pub last: Seq<char>,
    pub themes: Seq<ThemeInfo>,
    pub selected_theme: Option<usize>,
    pub text: Seq<T>,
    pub screenshots: Seq<Option<Seq<char>>>,
    pub popup_input: Seq<char>,
    pub popup_shown: bool,
    pub popup_current: Popup,
}

/// An optional text as an optional character sequence.
pub open spec fn text_view(text: Option<String>) -> Option<Seq<char>> {
    match text {
        Some(s) => Some(s@),
        None => None,
    }
}

impl<T> View for DataModel<T> {
    type V = ModelView<T>;

    open spec fn view(&self) -> ModelView<T> {
        ModelView {
            host: self.config.host@,
            last: self.config.last@,
            themes: self.themes@,
            selected_theme: self.selected_theme,
            text: self.text@,
            screenshots: self.screenshots@.map_values(|s: Option<String>| text_view(s)),
            popup_input: self.popup_input@,
            popup_shown: self.popup_shown,
            popup_current: self.popup_current,
        }
    }
}

/// What came of publishing a theme on ThemeHub.
#[derive(Clone, Copy, Debug, PartialEq, Eq, Structural)]
pub enum UploadOutcome {
    /// The theme was published for the first time.
    Created,
    /// An earlier upload of the theme was replaced.
    Updated,
    /// No user is logged in.
    NotLoggedIn,
    /// Any other error.
    Failed,
}

/// What came of asking ThemeHub for a theme's metadata.
#[derive(Clone, Copy, Debug, PartialEq, Eq, Structural)]
pub enum MetadataLookup {
    /// The theme exists online.
    Found,
    /// The server does not know the theme.
    Missing,
    /// Any other error.
    Failed,
}

/// The answer of a handler: the outside work to carry out, if any, and
/// whether the window redraws afterwards.
pub struct Reaction<R> {
    pub request: Option<R>,
    pub update: UpdateScreen,
}

impl<T> ModelView<T> {
    /// The selection, when there is one, points into the theme list.
    pub open spec fn selection_in_range(self) -> bool {
        match self.selected_theme {
            Some(i) => i < self.themes.len(),
            None => true,
        }
    }

    /// Every theme has its summary text (the texts of deleted themes stay).
    pub open spec fn texts_cover_themes(self) -> bool {
        self.themes.len() <= self.text.len()
    }

    /// Every theme's key-value options have distinct keys in key order.
    pub open spec fn themes_well_formed(self) -> bool {
        forall|i: int| 0 <= i < self.themes.len() ==> (#[trigger] self.themes[i]).well_formed()
    }

    /// The state with the summary text `text` added.
    pub open spec fn with_text(self, text: T) -> Self {
        ModelView { text: self.text.push(text), ..self }
    }

    /// The state after the theme at `index` was set up at start: its
    /// screenshot is recorded under its name when it names one and the
    /// screenshot was `fetched`.
    pub open spec fn after_startup(self, index: int, fetched: bool) -> Self {
        if names_screenshot(self.themes[index]) && fetched {
            self.with_screenshot(index as nat, self.themes[index].name@)
        } else {
            self
        }
    }

    /// The summary to store for the theme at `index` at start: none when its
    /// screenshot could not be fetched, which leaves the theme without text.
    pub open spec fn startup_summary(self, index: int, fetched: bool) -> Option<Seq<char>> {
        if names_screenshot(self.themes[index]) && !fetched {
            None
        } else {
            Some(summary_of(self.themes[index]))
        }
    }

    /// The name of the selected theme.
    pub open spec fn selected_name(self) -> Option<Seq<char>> {
        match self.selected_theme {
            Some(i) => Some(self.themes[i as int].name@),
            None => None,
        }
    }

    /// The state with the message popup `popup` shown.
    pub open spec fn showing(self, popup: Popup) -> Self {
        ModelView { popup_shown: true, popup_current: popup, ..self }
    }

    /// The state after an action that needs a selected theme: unchanged when
    /// one is selected, else the popup says that none is.
    pub open spec fn or_not_selected(self) -> Self {
        if self.selected_theme is Some {
            self
        } else {
            self.showing(Popup::NotSelected)
        }
    }

    /// Whether clicking the list entry `picked` changes the selection.
    pub open spec fn picks_new(self, picked: Option<usize>) -> bool {
        picked is Some && picked != self.selected_theme
    }

    /// The state after the user clicked the list entry `picked`.
    pub open spec fn after_select(self, picked: Option<usize>) -> Self {
        if self.picks_new(picked) {
            ModelView { selected_theme: picked, ..self }
        } else {
            self
        }
    }

    /// The state after an upload of the selected theme ended with `outcome`.
    pub open spec fn after_upload(self, outcome: UploadOutcome) -> Self {
        match outcome {
            UploadOutcome::Created => self.showing(Popup::PublishedOnline),
            UploadOutcome::Updated => self.showing(Popup::UpdatedOnline),
            UploadOutcome::NotLoggedIn => self.showing(Popup::NotSignedIn),
            UploadOutcome::Failed => self,
        }
    }

    /// The state after the metadata lookup of an install ended with `lookup`.
    pub open spec fn after_lookup(self, lookup: MetadataLookup) -> Self {
        match lookup {
            MetadataLookup::Missing => ModelView { popup_current: Popup::DidNotExist, ..self },
            _ => self,
        }
    }

    /// The state after `theme` was installed: it joins the list.
    pub open spec fn after_install(self, theme: ThemeInfo) -> Self {
        ModelView { themes: self.themes.push(theme), ..self }
    }

    /// The state after the summary of the installed theme was stored as
    /// `text`: the popup reports the install.
    pub open spec fn after_install_text(self, text: T) -> Self {
        ModelView { text: self.text.push(text), popup_current: Popup::Installed, ..self }
    }

    /// The state after `theme` was created: it joins the list and the popup
    /// closes.
    pub open spec fn after_create(self, theme: ThemeInfo) -> Self {
        ModelView { themes: self.themes.push(theme), popup_shown: false, ..self }
    }

    /// The state after the user asked to delete the selected theme: it leaves
    /// the list and the first entry becomes selected.
    pub open spec fn after_delete(self) -> Self {
        match self.selected_theme {
            Some(i) => ModelView {
                themes: self.themes.remove(i as int),
                selected_theme: Some(0),
                ..self
            },
            None => self.showing(Popup::NotSelected),
        }
    }

    /// The state with the popup `popup` asking for a name, its field empty.
    pub open spec fn asking(self, popup: Popup) -> Self {
        ModelView { popup_current: popup, popup_shown: true, popup_input: Seq::empty(), ..self }
    }

    /// The state with the popup closed.
    pub open spec fn hidden(self) -> Self {
        ModelView { popup_shown: false, ..self }
    }

    /// The screenshot list resized to `index + 1` entries, new entries holding
    /// the empty name, then entry `index` set to `name`.
    pub open spec fn with_screenshot(self, index: nat, name: Seq<char>) -> Self {
        let n = index + 1;
        let resized = if self.screenshots.len() >= n {
            self.screenshots.subrange(0, n as int)
        } else {
            self.screenshots + Seq::new(
                (n - self.screenshots.len()) as nat,
                |k: int| Some(Seq::<char>::empty()),
            )
        };
        ModelView { screenshots: resized.update(index as int, Some(name)), ..self }
    }
}

/// The state the window starts in: the loaded themes, nothing selected, no
/// texts or screenshots yet, the popup hidden.
pub open spec fn initial_view<T>(config: ConfigInfo, themes: Seq<ThemeInfo>) -> ModelView<T> {
    ModelView {
        host: config.host@,
        last: config.last@,
        themes: themes,
        selected_theme: None,
        text: Seq::empty(),
        screenshots: Seq::empty(),
        popup_input: Seq::empty(),
        popup_shown: false,
        popup_current: Popup::New,
    }
}

/// `<base><middle><name>`, the form of the paths and addresses built here.
pub open spec fn joined(base: Seq<char>, middle: Seq<char>, name: Option<Seq<char>>) -> Option<Seq<char>> {
    match name {
        Some(n) => Some(base + middle + n),
        None => None,
    }
}

impl<T> DataModel<T> {
    /// The state the window starts in.
    pub fn new(config: ConfigInfo, themes: Vec<ThemeInfo>) -> (model: Self)
        requires
            forall|i: int| 0 <= i < themes@.len() ==> (#[trigger] themes@[i]).well_formed(),
        ensures
            model@ == initial_view::<T>(config, themes@),
    {
        let model = DataModel {
            config,
            themes,
            selected_theme: None,
            text: Vec::new(),
            screenshots: Vec::new(),
            popup_input: String::new(),
            popup_shown: false,
            popup_current: Popup::New,
        };
        assert(model@.screenshots =~= Seq::<Option<Seq<char>>>::empty());
        model
    }

    /// The name of the selected theme, which must point into the list.
    fn selected_name(&self) -> (name: Option<String>)
        requires
            self@.selection_in_range(),
        ensures
            text_view(name) == self@.selected_name(),
    {
        match self.selected_theme {
            Some(i) => Some(self.themes[i].name.clone()),
            None => None,
        }
    }

    /// Shows that no theme is selected when none is.
    fn report_no_selection(&mut self)
        ensures
            final(self)@ == old(self)@.or_not_selected(),
    {
        if self.selected_theme.is_none() {
            self.popup_shown = true;
            self.popup_current = Popup::NotSelected;
        }
    }

    /// The user clicked the entry `picked` of the theme list (`None` when the
    /// click hit no entry): a different entry becomes the selection, and the
    /// window redraws only then.
    pub fn select_theme(&mut self, picked: Option<usize>) -> (update: UpdateScreen)
        ensures
            final(self)@ == old(self)@.after_select(picked),
            update == (if old(self)@.picks_new(picked) {
                UpdateScreen::Redraw
            } else {
                UpdateScreen::DontRedraw
            }),
    {
        if picked.is_some() && picked != self.selected_theme {
            self.selected_theme = picked;
            UpdateScreen::Redraw
        } else {
            UpdateScreen::DontRedraw
        }
    }

    /// "Publish on ThemeHub": asks to upload the selected theme, whose name is
    /// the request; with nothing selected the popup says so.  The window
    /// redraws either way.
    pub fn publish_callback(&mut self) -> (reaction: Reaction<String>)
        requires
            old(self)@.selection_in_range(),
        ensures
            final(self)@ == old(self)@.or_not_selected(),
            text_view(reaction.request) == old(self)@.selected_name(),
            reaction.update == UpdateScreen::Redraw,
    {
        let request = self.selected_name();
        self.report_no_selection();
        Reaction { request, update: UpdateScreen::Redraw }
    }

    /// The upload asked for by [`Self::publish_callback`] ended with `outcome`:
    /// the popup reports a first upload, an update or a missing login; other
    /// errors change nothing.
    pub fn publish_finished(&mut self, outcome: UploadOutcome)
        ensures
            final(self)@ == old(self)@.after_upload(outcome),
    {
        match outcome {
            UploadOutcome::Created => {
                self.popup_shown = true;
                self.popup_current = Popup::PublishedOnline;
            },
            UploadOutcome::Updated => {
                self.popup_shown = true;
                self.popup_current = Popup::UpdatedOnline;
            },
            UploadOutcome::NotLoggedIn => {
                self.popup_shown = true;
                self.popup_current = Popup::NotSignedIn;
            },
            UploadOutcome::Failed => {},
        }
    }

    /// The install popup's button: asks to look up the typed name on
    /// ThemeHub.  The window redraws when the install is over.
    pub fn install_callback(&self) -> (reaction: Reaction<String>)
        ensures
            text_view(reaction.request) == Some(self@.popup_input),
            reaction.update == UpdateScreen::Redraw,
    {
        Reaction { request: Some(self.popup_input.clone()), update: UpdateScreen::Redraw }
    }

    /// The lookup asked for by [`Self::install_callback`] ended with `lookup`:
    /// a theme found online is to be downloaded and loaded (the request names
    /// it); an unknown one is reported; other errors end the install.
    pub fn install_lookup(&mut self, lookup: MetadataLookup) -> (download: Option<String>)
        ensures
            final(self)@ == old(self)@.after_lookup(lookup),
            text_view(download) == (if lookup == MetadataLookup::Found {
                Some(old(self)@.popup_input)
            } else {
                None
            }),
    {
        match lookup {
            MetadataLookup::Found => Some(self.popup_input.clone()),
            MetadataLookup::Missing => {
                self.popup_current = Popup::DidNotExist;
                None
            },
            MetadataLookup::Failed => None,
        }
    }

    /// The theme asked for by [`Self::install_lookup`] was downloaded and
    /// loaded as `theme`: it joins the list, and the answer is its summary,
    /// to be stored as a text and handed to [`Self::install_text`].
    pub fn install_finished(&mut self, theme: ThemeInfo) -> (summary: String)
        requires
            theme.well_formed(),
        ensures
            final(self)@ == old(self)@.after_install(theme),
            summary@ == summary_of(theme),
            summary@.len() > 0,
    {
        let summary = theme_text(&theme);
        self.themes.push(theme);
        summary
    }

    /// The summary of the theme installed by [`Self::install_finished`] was
    /// stored as `text` (the summary is never empty, so this always follows):
    /// the text is added and the popup reports the install.
    pub fn install_text(&mut self, text: T)
        ensures
            final(self)@ == old(self)@.after_install_text(text),
    {
        self.text.push(text);
        self.popup_current = Popup::Installed;
    }

    /// "Install Theme": opens the install popup with an empty field.
    pub fn show_install_box(&mut self) -> (update: UpdateScreen)
        ensures
            final(self)@ == old(self)@.asking(Popup::Install),
            update == UpdateScreen::Redraw,
    {
        self.popup_current = Popup::Install;
        self.popup_shown = true;
        self.popup_input = String::new();
        UpdateScreen::Redraw
    }

    /// The popup's close and OK buttons: hides the popup.
    pub fn hide_popup(&mut self) -> (update: UpdateScreen)
        ensures
            final(self)@ == old(self)@.hidden(),
            update == UpdateScreen::Redraw,
    {
        self.popup_shown = false;
        UpdateScreen::Redraw
    }

    /// The new-theme popup's button: asks to create a theme of the typed
    /// name and load it.  The window redraws afterwards.
    pub fn create_callback(&self) -> (reaction: Reaction<String>)
        ensures
            text_view(reaction.request) == Some(self@.popup_input),
            reaction.update == UpdateScreen::Redraw,
    {
        Reaction { request: Some(self.popup_input.clone()), update: UpdateScreen::Redraw }
    }

    /// The theme asked for by [`Self::create_callback`] was created and
    /// loaded as `theme`: it joins the list, the popup closes, and the answer
    /// is its summary, to be stored as a text and handed to
    /// [`Self::push_text`].
    pub fn create_finished(&mut self, theme: ThemeInfo) -> (summary: String)
        requires
            theme.well_formed(),
        ensures
            final(self)@ == old(self)@.after_create(theme),
            summary@ == summary_of(theme),
    {
        self.popup_shown = false;
        let summary = theme_text(&theme);
        self.themes.push(theme);
        summary
    }

    /// "New Theme": opens the new-theme popup with an empty field.
    pub fn show_new_box(&mut self) -> (update: UpdateScreen)
        ensures
            final(self)@ == old(self)@.asking(Popup::New),
            update == UpdateScreen::Redraw,
    {
        self.popup_current = Popup::New;
        self.popup_shown = true;
        self.popup_input = String::new();
        UpdateScreen::Redraw
    }

    /// "Load Theme": asks to run the selected theme (the request is its
    /// index) and redraw; with nothing selected the popup says so and the
    /// window does not redraw.
    pub fn load_callback(&mut self) -> (reaction: Reaction<usize>)
        requires
            old(self)@.selection_in_range(),
        ensures
            final(self)@ == old(self)@.or_not_selected(),
            reaction.request == old(self).selected_theme,
            reaction.update == (if old(self).selected_theme is Some {
                UpdateScreen::Redraw
            } else {
                UpdateScreen::DontRedraw
            }),
    {
        let request = self.selected_theme;
        self.report_no_selection();
        let update = if request.is_some() {
            UpdateScreen::Redraw
        } else {
            UpdateScreen::DontRedraw
        };
        Reaction { request, update }
    }

    /// "View in File Manager": asks to open the selected theme's directory
    /// under `home`; with nothing selected the popup says so.  No redraw.
    pub fn open_callback(&mut self, home: &String) -> (reaction: Reaction<String>)
        requires
            old(self)@.selection_in_range(),
        ensures
            final(self)@ == old(self)@.or_not_selected(),
            text_view(reaction.request) == joined(
                home@,
                "/.config/raven/themes/"@,
                old(self)@.selected_name(),
            ),
            reaction.update == UpdateScreen::DontRedraw,
    {
        let request = match self.selected_name() {
            Some(name) => {
                let mut path = home.clone();
                path.append("/.config/raven/themes/");
                path.append(name.as_str());
                Some(path)
            },
            None => None,
        };
        self.report_no_selection();
        Reaction { request, update: UpdateScreen::DontRedraw }
    }

    /// "Delete Theme": the selected theme leaves the list, the first entry
    /// becomes selected, and the request names the theme whose files are to
    /// be deleted; the window redraws.  With nothing selected the popup says
    /// so and the window does not redraw.  The summary texts stay as they are.
    pub fn delete_callback(&mut self) -> (reaction: Reaction<String>)
        requires
            old(self)@.selection_in_range(),
        ensures
            final(self)@ == old(self)@.after_delete(),
            text_view(reaction.request) == old(self)@.selected_name(),
            reaction.update == (if old(self).selected_theme is Some {
                UpdateScreen::Redraw
            } else {
                UpdateScreen::DontRedraw
            }),
    {
        match self.selected_theme {
            Some(i) => {
                let removed = self.themes.remove(i);
                self.selected_theme = Some(0);
                Reaction { request: Some(removed.name), update: UpdateScreen::Redraw }
            },
            None => {
                self.popup_shown = true;
                self.popup_current = Popup::NotSelected;
                Reaction { request: None, update: UpdateScreen::DontRedraw }
            },
        }
    }

    /// "Refresh Last Theme": asks to run again the theme loaded last, named
    /// in the configuration.  No redraw.
    pub fn refresh_callback(&self) -> (reaction: Reaction<String>)
        ensures
            text_view(reaction.request) == Some(self@.last),
            reaction.update == UpdateScreen::DontRedraw,
    {
        Reaction { request: Some(self.config.last.clone()), update: UpdateScreen::DontRedraw }
    }

    /// "View on ThemeHub": asks to open the selected theme's page on the
    /// configured server; with nothing selected the popup says so.  No redraw.
    pub fn online_callback(&mut self) -> (reaction: Reaction<String>)
        requires
            old(self)@.selection_in_range(),
        ensures
            final(self)@ == old(self)@.or_not_selected(),
            text_view(reaction.request) == joined(
                old(self)@.host,
                "/themes/view/"@,
                old(self)@.selected_name(),
            ),
            reaction.update == UpdateScreen::DontRedraw,
    {
        let request = match self.selected_name() {
            Some(name) => {
                let mut uri = self.config.host.clone();
                uri.append("/themes/view/");
                uri.append(name.as_str());
                Some(uri)
            },
            None => None,
        };
        self.report_no_selection();
        Reaction { request, update: UpdateScreen::DontRedraw }
    }

    /// Records that the screenshot of the theme at `index` is stored under
    /// `name`: the list is resized to `index + 1` entries, new entries naming
    /// the empty name, and entry `index` is set.
    pub fn record_screenshot(&mut self, index: usize, name: String)
        requires
            index < usize::MAX,
        ensures
            final(self)@ == old(self)@.with_screenshot(index as nat, name@),
    {
        let n: usize = index + 1;
        let ghost before = self.screenshots@;
        self.screenshots.truncate(n);
        while self.screenshots.len() < n
            invariant
                n == index + 1,
                self.config == old(self).config,
                self.themes == old(self).themes,
                self.text == old(self).text,
                self.selected_theme == old(self).selected_theme,
                self.popup_input == old(self).popup_input,
                self.popup_shown == old(self).popup_shown,
                self.popup_current == old(self).popup_current,
                self.screenshots@.len() <= n,
                before.len() >= n ==> self.screenshots@ == before.subrange(0, n as int),
                before.len() < n ==> {
                    &&& before.len() <= self.screenshots@.len()
                    &&& self.screenshots@.subrange(0, before.len() as int) == before
                    &&& forall|k: int|
                        before.len() <= k < self.screenshots@.len() ==> text_view(
                            #[trigger] self.screenshots@[k],
                        ) == Some(Seq::<char>::empty())
                },
            decreases n - self.screenshots@.len(),
        {
            self.screenshots.push(Some(String::new()));
        }
        let ghost resized = self.screenshots@;
        self.screenshots.set(index, Some(name));
        proof {
            let old_view = before.map_values(|s: Option<String>| text_view(s));
            let expected = if old_view.len() >= n {
                old_view.subrange(0, n as int)
            } else {
                old_view + Seq::new(
                    (n - old_view.len()) as nat,
                    |k: int| Some(Seq::<char>::empty()),
                )
            };
            assert(resized.map_values(|s: Option<String>| text_view(s)) =~= expected);
            assert(self@.screenshots =~= expected.update(index as int, Some(name@)));
            let target = old(self)@.with_screenshot(index as nat, name@);
            assert(self@.screenshots =~= target.screenshots);
            assert(self@ =~= target);
        }
    }

    /// The file the screenshot of the theme at `index` is kept in under
    /// `home`, when the theme names a screenshot.
    pub fn screenshot_file(&self, index: usize, home: &String) -> (path: Option<String>)
        requires
            index < self.themes@.len(),
        ensures
            text_view(path) == (if names_screenshot(self.themes@[index as int]) {
                Some(home@ + "/.config/raven/screenshots/"@ + stripped_address(
                    self.themes@[index as int].screenshot@,
                ))
            } else {
                None
            }),
    {
        let theme = &self.themes[index];
        if theme.has_screenshot() {
            Some(screenshot_path(home, &theme.screenshot))
        } else {
            None
        }
    }

    /// Sets up the theme at `index` at start, once its screenshot, if it
    /// names one, was `fetched` or not: a fetched screenshot is recorded under
    /// the theme's name, and the answer is the summary to store as the
    /// theme's text, or nothing when the screenshot could not be fetched.
    pub fn startup_theme(&mut self, index: usize, fetched: bool) -> (summary: Option<String>)
        requires
            index < old(self).themes@.len(),
        ensures
            final(self)@ == old(self)@.after_startup(index as int, fetched),
            text_view(summary) == old(self)@.startup_summary(index as int, fetched),
    {
        let count = self.themes.len();
        assert(index < count);
        if self.themes[index].has_screenshot() {
            if !fetched {
                return None;
            }
            let name = self.themes[index].name.clone();
            self.record_screenshot(index, name);
        }
        Some(theme_text(&self.themes[index]))
    }

    /// Stores `text` as the summary text of the next theme.
    pub fn push_text(&mut self, text: T)
        ensures
            final(self)@ == old(self)@.with_text(text),
    {
        self.text.push(text);
    }
}

/// Every handler keeps the key-value options of every theme in key order,
/// given that the themes it adds have theirs in order.
pub proof fn lemma_steps_keep_key_order<T>(
    state: ModelView<T>,
    picked: Option<usize>,
    outcome: UploadOutcome,
    lookup: MetadataLookup,
    theme: ThemeInfo,
    text: T,
    popup: Popup,
    index: int,
    fetched: bool,
    name: Seq<char>,
)
    requires
        state.themes_well_formed(),
        state.selection_in_range(),
        theme.well_formed(),
    ensures
        state.after_select(picked).themes_well_formed(),
        state.or_not_selected().themes_well_formed(),
        state.after_upload(outcome).themes_well_formed(),
        state.after_lookup(lookup).themes_well_formed(),
        state.after_install(theme).themes_well_formed(),
        state.after_install_text(text).themes_well_formed(),
        state.after_create(theme).themes_well_formed(),
        state.after_delete().themes_well_formed(),
        state.asking(popup).themes_well_formed(),
        state.hidden().themes_well_formed(),
        state.with_text(text).themes_well_formed(),
        state.with_screenshot(index as nat, name).themes_well_formed(),
{
    if let Some(i) = state.selected_theme {
        let after = state.after_delete();
        assert forall|k: int| 0 <= k < after.themes.len() implies (#[trigger] after.themes[k]).well_formed() by {
            if k < i {
                assert(after.themes[k] == state.themes[k]);
            } else {
                assert(after.themes[k] == state.themes[k + 1]);
            }
        }
    }
    let installed = state.after_install(theme);
    assert forall|k: int| 0 <= k < installed.themes.len() implies (#[trigger] installed.themes[k]).well_formed() by {
        if k < state.themes.len() {
            assert(installed.themes[k] == state.themes[k]);
        }
    }
    let created = state.after_create(theme);
    assert forall|k: int| 0 <= k < created.themes.len() implies (#[trigger] created.themes[k]).well_formed() by {
        if k < state.themes.len() {
            assert(created.themes[k] == state.themes[k]);
        }
    }
}

/// Deleting the selected theme at `i` removes just that theme: the themes
/// before it keep their places, the ones after it move up by one in their
/// order, the first entry becomes selected, the texts and the popup stay, and
/// the request names the deleted theme.  With nothing selected, nothing but
/// the popup changes: it says that no theme is selected.
pub proof fn lemma_delete_removes_selected<T>(state: ModelView<T>)
    requires
        state.selection_in_range(),
    ensures
        ({
            let after = state.after_delete();
            match state.selected_theme {
                Some(i) => {
                    &&& after.themes.len() == state.themes.len() - 1
                    &&& forall|k: int| 0 <= k < i ==> #[trigger] after.themes[k] == state.themes[k]
                    &&& forall|k: int|
                        i <= k < after.themes.len() ==> #[trigger] after.themes[k] == state.themes[k
                            + 1]
                    &&& after.selected_theme == Some(0usize)
                    &&& after.text == state.text
                    &&& after.popup_shown == state.popup_shown
                    &&& after.popup_current == state.popup_current
                    &&& state.selected_name() == Some(state.themes[i as int].name@)
                },
                None => {
                    &&& after.themes == state.themes
                    &&& after.selected_theme == state.selected_theme
                    &&& after.popup_shown
                    &&& after.popup_current == Popup::NotSelected
                },
            }
        }),
{
}

/// Creating a theme puts it at the end of the list: every theme before keeps
/// its place, so the selection and the texts still belong to the same themes;
/// the popup closes.
pub proof fn lemma_create_appends<T>(state: ModelView<T>, theme: ThemeInfo)
    ensures
        ({
            let after = state.after_create(theme);
            &&& after.themes.len() == state.themes.len() + 1
            &&& after.themes[state.themes.len() as int] == theme
            &&& forall|k: int| 0 <= k < state.themes.len() ==> #[trigger] after.themes[k] == state.themes[k]
            &&& after.selected_theme == state.selected_theme
            &&& after.text == state.text
            &&& !after.popup_shown
            &&& after.popup_current == state.popup_current
        }),
{
}

/// Installing a theme puts it at the end of the list, keeping every other
/// theme in place; storing its summary text then adds that text at the end
/// and shows the popup that reports the install.
pub proof fn lemma_install_appends<T>(state: ModelView<T>, theme: ThemeInfo, text: T)
    ensures
        ({
            let installed = state.after_install(theme);
            let after = installed.after_install_text(text);
            &&& installed.themes.len() == state.themes.len() + 1
            &&& installed.themes[state.themes.len() as int] == theme
            &&& forall|k: int|
                0 <= k < state.themes.len() ==> #[trigger] installed.themes[k] == state.themes[k]
            &&& installed.text == state.text
            &&& installed.selected_theme == state.selected_theme
            &&& installed.popup_current == state.popup_current
            &&& installed.popup_shown == state.popup_shown
            &&& after.themes == installed.themes
            &&& after.text.len() == state.text.len() + 1
            &&& after.text[state.text.len() as int] == text
            &&& forall|k: int| 0 <= k < state.text.len() ==> #[trigger] after.text[k] == state.text[k]
            &&& after.popup_current == Popup::Installed
            &&& after.popup_shown == state.popup_shown
        }),
{
}

/// Storing a summary text adds it at the end and changes nothing else.
pub proof fn lemma_push_text_appends<T>(state: ModelView<T>, text: T)
    ensures
        ({
            let after = state.with_text(text);
            &&& after.text.len() == state.text.len() + 1
            &&& after.text[state.text.len() as int] == text
            &&& forall|k: int| 0 <= k < state.text.len() ==> #[trigger] after.text[k] == state.text[k]
            &&& after.themes == state.themes
            &&& after.selected_theme == state.selected_theme
            &&& after.popup_shown == state.popup_shown
            &&& after.popup_current == state.popup_current
        }),
{
}

/// Every upload outcome that is reported shows its popup: a first upload
/// shows "published", an update "updated", a missing login "not logged
/// in"; any other error changes nothing.  The list and the selection stay.
pub proof fn lemma_upload_reports<T>(state: ModelView<T>, outcome: UploadOutcome)
    ensures
        ({
            let after = state.after_upload(outcome);
            &&& outcome == UploadOutcome::Created ==> after.popup_shown && after.popup_current
                == Popup::PublishedOnline
            &&& outcome == UploadOutcome::Updated ==> after.popup_shown && after.popup_current
                == Popup::UpdatedOnline
            &&& outcome == UploadOutcome::NotLoggedIn ==> after.popup_shown && after.popup_current
                == Popup::NotSignedIn
            &&& outcome == UploadOutcome::Failed ==> after == state
            &&& after.themes == state.themes
            &&& after.selected_theme == state.selected_theme
            &&& after.text == state.text
        }),
{
}

/// A theme unknown to ThemeHub is reported by the "does not exist" popup,
/// which stays shown; a found theme or another error changes nothing.
pub proof fn lemma_lookup_reports<T>(state: ModelView<T>, lookup: MetadataLookup)
    ensures
        ({
            let after = state.after_lookup(lookup);
            &&& lookup == MetadataLookup::Missing ==> after.popup_current == Popup::DidNotExist
                && after.popup_shown == state.popup_shown && after.themes == state.themes
            &&& lookup != MetadataLookup::Missing ==> after == state
        }),
{
}

/// An action that needs a selection, with nothing selected, shows the "no
/// theme selected" popup and changes nothing else; with a selection it
/// changes nothing.
pub proof fn lemma_missing_selection_reported<T>(state: ModelView<T>)
    ensures
        ({
            let after = state.or_not_selected();
            &&& state.selected_theme is None ==> after.popup_shown && after.popup_current
                == Popup::NotSelected
            &&& state.selected_theme is Some ==> after == state
            &&& after.themes == state.themes
            &&& after.selected_theme == state.selected_theme
            &&& after.text == state.text
        }),
{
}

/// Clicking a list entry selects it; a click that hits no entry changes
/// nothing.  Opening a popup shows it with an empty field; closing it only
/// hides it.
pub proof fn lemma_select_and_popups<T>(state: ModelView<T>, picked: usize, popup: Popup)
    ensures
        state.after_select(Some(picked)).selected_theme == Some(picked),
        state.after_select(Some(picked)).themes == state.themes,
        state.after_select(None) == state,
        state.selected_theme != Some(picked) <==> state.picks_new(Some(picked)),
        !state.picks_new(None),
        state.asking(popup).popup_shown,
        state.asking(popup).popup_current == popup,
        state.asking(popup).popup_input.len() == 0,
        state.asking(popup).themes == state.themes,
        !state.hidden().popup_shown,
        state.hidden().popup_current == state.popup_current,
        state.hidden().themes == state.themes,
{
}

/// Recording a screenshot at `index` leaves `index + 1` entries: entry
/// `index` holds the name, the entries before it keep their names where
/// they existed and are empty names where the list grew.
pub proof fn lemma_screenshot_recorded<T>(state: ModelView<T>, index: nat, name: Seq<char>)
    ensures
        ({
            let after = state.with_screenshot(index, name).screenshots;
            &&& after.len() == index + 1
            &&& after[index as int] == Some(name)
            &&& forall|k: int|
                0 <= k < index && k < state.screenshots.len() ==> #[trigger] after[k]
                    == state.screenshots[k]
            &&& forall|k: int|
                state.screenshots.len() <= k < index ==> #[trigger] after[k] == Some(
                    Seq::<char>::empty(),
                )
        }),
{
}

/// The request of open and of view-online is the base, the middle part and
/// the selected theme's name put together; with no theme there is none.  The
/// selected name is the name of the theme the selection points at.
pub proof fn lemma_places_of_selected<T>(state: ModelView<T>, base: Seq<char>, middle: Seq<char>)
    ensures
        (state.selected_theme matches Some(i)) ==> state.selected_name() == Some(
            state.themes[state.selected_theme.unwrap() as int].name@,
        ) && joined(base, middle, state.selected_name()) == Some(
            base + middle + state.themes[state.selected_theme.unwrap() as int].name@,
        ),
        state.selected_theme is None ==> state.selected_name() is None && joined(
            base,
            middle,
            state.selected_name(),
        ) is None,
{
}

/// At start, a theme whose screenshot could not be fetched gets no summary
/// and no screenshot entry; any other theme gets its summary, and its
/// screenshot is recorded under its name when it names one.
pub proof fn lemma_startup<T>(state: ModelView<T>, index: int, fetched: bool)
    requires
        0 <= index < state.themes.len(),
    ensures
        (names_screenshot(state.themes[index]) && !fetched) ==> state.startup_summary(index, fetched)
            is None && state.after_startup(index, fetched) == state,
        !(names_screenshot(state.themes[index]) && !fetched) ==> state.startup_summary(index, fetched)
            == Some(summary_of(state.themes[index])),
        (names_screenshot(state.themes[index]) && fetched) ==> state.after_startup(
            index,
            fetched,
        ).screenshots[index] == Some(state.themes[index].name@),
        !names_screenshot(state.themes[index]) ==> state.after_startup(index, fetched) == state,
        state.after_startup(index, fetched).themes == state.themes,
{
    if names_screenshot(state.themes[index]) && fetched {
        lemma_screenshot_recorded(state, index as nat, state.themes[index].name@);
    }
}

/// The window starts with the loaded themes and the configuration, nothing
/// selected, no texts or screenshots, and the popup hidden.
pub proof fn lemma_initial_state<T>(config: ConfigInfo, themes: Seq<ThemeInfo>)
    ensures
        ({
            let state = initial_view::<T>(config, themes);
            &&& state.themes == themes
            &&& state.host == config.host@
            &&& state.last == config.last@
            &&& state.selected_theme is None
            &&& state.text.len() == 0
            &&& state.screenshots.len() == 0
            &&& state.popup_input.len() == 0
            &&& !state.popup_shown
            &&& state.popup_current == Popup::New
        }),
{
}

/// Clicking the same entry twice changes nothing the second time and asks
/// for no redraw.
pub proof fn lemma_select_settles<T>(state: ModelView<T>, picked: Option<usize>)
    ensures
        state.after_select(picked).after_select(picked) == state.after_select(picked),
        !state.after_select(picked).picks_new(picked),
{
}

/// Every handler keeps a summary text for each theme in the list: a theme
/// that is installed or created gets its text in the step that follows, and
/// delete removes only the theme.
pub proof fn lemma_steps_keep_texts<T>(
    state: ModelView<T>,
    picked: Option<usize>,
    outcome: UploadOutcome,
    lookup: MetadataLookup,
    theme: ThemeInfo,
    text: T,
    popup: Popup,
)
    requires
        state.texts_cover_themes(),
        state.selection_in_range(),
    ensures
        state.after_select(picked).texts_cover_themes(),
        state.or_not_selected().texts_cover_themes(),
        state.after_upload(outcome).texts_cover_themes(),
        state.after_lookup(lookup).texts_cover_themes(),
        state.after_install(theme).after_install_text(text).texts_cover_themes(),
        state.after_create(theme).with_text(text).texts_cover_themes(),
        state.with_text(text).texts_cover_themes(),
        state.after_delete().texts_cover_themes(),
        state.asking(popup).texts_cover_themes(),
        state.hidden().texts_cover_themes(),
{
}

/// Every handler keeps the selection inside the theme list, given that a
/// clicked entry lies in the list, except that deleting the only theme
/// leaves the first entry of an empty list selected.
pub proof fn lemma_steps_keep_selection<T>(
    state: ModelView<T>,
    picked: Option<usize>,
    outcome: UploadOutcome,
    lookup: MetadataLookup,
    theme: ThemeInfo,
    text: T,
    popup: Popup,
)
    requires
        state.selection_in_range(),
        picked matches Some(p) ==> p < state.themes.len(),
    ensures
        state.after_select(picked).selection_in_range(),
        state.or_not_selected().selection_in_range(),
        state.after_upload(outcome).selection_in_range(),
        state.after_lookup(lookup).selection_in_range(),
        state.after_install(theme).selection_in_range(),
        state.after_install_text(text).selection_in_range(),
        state.after_create(theme).selection_in_range(),
        state.with_text(text).selection_in_range(),
        state.asking(popup).selection_in_range(),
        state.hidden().selection_in_range(),
        state.themes.len() != 1 ==> state.after_delete().selection_in_range(),
{
}

} // verus!
