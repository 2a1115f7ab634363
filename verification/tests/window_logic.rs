use graven::layout::{CurrentTheme, PopupBox};
use graven::model::{DataModel, MetadataLookup, UploadOutcome};
use graven::popup::{Handler, Popup, UpdateScreen};
use graven::theme::{key_precedes, screenshot_path, summary_text, theme_text, ConfigInfo, ThemeInfo, ThemeOption};

fn theme(name: &str) -> ThemeInfo {
    ThemeInfo {
        name: name.to_string(),
        options: vec![],
        kv: vec![],
        screenshot: String::new(),
        description: "A raven theme.".to_string(),
    }
}

fn model(names: &[&str]) -> DataModel<u32> {
    let config = ConfigInfo {
        host: "https://demenses.net".to_string(),
        last: "night".to_string(),
    };
    let themes = names.iter().map(|n| theme(n)).collect();
    let mut m = DataModel::new(config, themes);
    for i in 0..names.len() {
        m.text.push(100 + i as u32);
    }
    m
}

#[test]
fn summary_lists_description_options_and_key_values() {
    let t = ThemeInfo {
        name: "dark".to_string(),
        options: vec![ThemeOption::Polybar, ThemeOption::VsCode],
        kv: vec![("st_tmtheme".to_string(), "\"Monokai\"".to_string())],
        screenshot: String::new(),
        description: "My theme".to_string(),
    };
    assert_eq!(
        theme_text(&t),
        "Description:\n\nMy theme\n\nOptions Added: \n\n- \"poly\"\n- \"vscode\"\nKey-Value Options: \n\n- st_tmtheme : \"Monokai\"\n"
    );
}

#[test]
fn summary_leaves_out_default_description() {
    let t = theme("plain");
    assert_eq!(theme_text(&t), "Options Added: \n\nKey-Value Options: \n\n");
}

#[test]
fn summary_leaves_out_empty_description() {
    let mut t = theme("plain");
    t.description = String::new();
    t.options = vec![ThemeOption::I3];
    assert_eq!(theme_text(&t), "Options Added: \n\n- \"i3\"\nKey-Value Options: \n\n");
}

#[test]
fn summary_is_never_empty() {
    let mut t = theme("x");
    t.description = String::new();
    assert!(!theme_text(&t).is_empty());
}

#[test]
fn option_names_follow_their_serialised_form() {
    let mut t = theme("x");
    t.options = vec![
        ThemeOption::MergeXRes,
        ThemeOption::OldI3,
        ThemeOption::OldSublTheme,
        ThemeOption::OldScs,
        ThemeOption::OldTmTheme,
        ThemeOption::Xres,
    ];
    assert_eq!(
        theme_text(&t),
        "Options Added: \n\n- \"xres_m\"\n- \"wm\"\n- \"st_subltheme\"\n- \"st_scs\"\n- \"st_tmtheme\"\n- \"xres\"\nKey-Value Options: \n\n"
    );
}

#[test]
fn screenshot_file_name_drops_slashes_and_colons() {
    let path = screenshot_path(&"/home/u".to_string(), &"https://i.imgur.com/a/b.png".to_string());
    assert_eq!(path, "/home/u/.config/raven/screenshots/httpsi.imgur.comab.png");
    let file = &path["/home/u/.config/raven/screenshots/".len()..];
    assert!(!file.contains('/') && !file.contains(':'));
}

#[test]
fn screenshot_presence_follows_address() {
    let mut t = theme("x");
    assert!(!t.has_screenshot());
    t.screenshot = "https://i.imgur.com/x.png".to_string();
    assert!(t.has_screenshot());
}

#[test]
fn popup_labels_handlers_and_inputs() {
    assert_eq!(Popup::New.label(), "Create");
    assert_eq!(Popup::Install.label(), "Install");
    assert_eq!(Popup::Installed.label(), "Theme Installed");
    assert_eq!(Popup::DidNotExist.label(), "Theme Does Not Exist");
    assert_eq!(Popup::NotSignedIn.label(), "You are not logged into ThemeHub");
    assert_eq!(Popup::PublishedOnline.label(), "Published theme online");
    assert_eq!(Popup::UpdatedOnline.label(), "Updated theme online");
    assert_eq!(Popup::NotSelected.label(), "You don't have a theme selected");
    assert_eq!(Popup::New.callback(), Handler::CreateTheme);
    assert_eq!(Popup::Install.callback(), Handler::InstallTheme);
    assert_eq!(Popup::Installed.callback(), Handler::Nothing);
    assert!(Popup::New.is_input());
    assert!(Popup::Install.is_input());
    assert!(!Popup::NotSelected.is_input());
    assert!(!Popup::UpdatedOnline.is_input());
}

#[test]
fn input_popups_are_those_with_a_submit_handler() {
    let all = [
        Popup::New,
        Popup::Install,
        Popup::Installed,
        Popup::DidNotExist,
        Popup::NotSignedIn,
        Popup::PublishedOnline,
        Popup::UpdatedOnline,
        Popup::NotSelected,
    ];
    for p in all.iter() {
        assert_eq!(p.is_input(), p.callback() != Handler::Nothing);
    }
}

#[test]
fn selecting_a_new_entry_redraws_once() {
    let mut m = model(&["a", "b"]);
    assert_eq!(m.select_theme(Some(1)), UpdateScreen::Redraw);
    assert_eq!(m.selected_theme, Some(1));
    assert_eq!(m.select_theme(Some(1)), UpdateScreen::DontRedraw);
    assert_eq!(m.select_theme(None), UpdateScreen::DontRedraw);
    assert_eq!(m.selected_theme, Some(1));
}

#[test]
fn publishing_without_selection_reports_it() {
    let mut m = model(&["a"]);
    let r = m.publish_callback();
    assert!(r.request.is_none());
    assert_eq!(r.update, UpdateScreen::Redraw);
    assert!(m.popup_shown);
    assert_eq!(m.popup_current, Popup::NotSelected);
}

#[test]
fn publishing_reports_each_outcome() {
    let mut m = model(&["a", "b"]);
    m.select_theme(Some(1));
    let r = m.publish_callback();
    assert_eq!(r.request, Some("b".to_string()));
    assert!(!m.popup_shown);
    m.publish_finished(UploadOutcome::Created);
    assert!(m.popup_shown);
    assert_eq!(m.popup_current, Popup::PublishedOnline);
    m.publish_finished(UploadOutcome::Updated);
    assert_eq!(m.popup_current, Popup::UpdatedOnline);
    m.publish_finished(UploadOutcome::NotLoggedIn);
    assert_eq!(m.popup_current, Popup::NotSignedIn);
    m.hide_popup();
    m.publish_finished(UploadOutcome::Failed);
    assert!(!m.popup_shown);
    assert_eq!(m.popup_current, Popup::NotSignedIn);
}

#[test]
fn install_of_unknown_theme_is_reported() {
    let mut m = model(&[]);
    assert_eq!(m.show_install_box(), UpdateScreen::Redraw);
    assert_eq!(m.popup_current, Popup::Install);
    assert!(m.popup_shown);
    m.popup_input = "ghost".to_string();
    let r = m.install_callback();
    assert_eq!(r.request, Some("ghost".to_string()));
    assert_eq!(m.install_lookup(MetadataLookup::Missing), None);
    assert_eq!(m.popup_current, Popup::DidNotExist);
    assert!(m.popup_shown);
}

#[test]
fn install_failure_changes_nothing() {
    let mut m = model(&[]);
    m.show_install_box();
    m.popup_input = "x".to_string();
    assert_eq!(m.install_lookup(MetadataLookup::Failed), None);
    assert_eq!(m.popup_current, Popup::Install);
}

#[test]
fn install_of_found_theme_adds_it() {
    let mut m = model(&["a"]);
    m.show_install_box();
    m.popup_input = "sky".to_string();
    assert_eq!(m.install_lookup(MetadataLookup::Found), Some("sky".to_string()));
    let summary = m.install_finished(theme("sky"));
    assert_eq!(summary, "Options Added: \n\nKey-Value Options: \n\n");
    assert_eq!(m.popup_current, Popup::Install);
    m.install_text(7);
    assert_eq!(m.themes.len(), 2);
    assert_eq!(m.themes[1].name, "sky");
    assert_eq!(m.text, vec![100, 7]);
    assert_eq!(m.popup_current, Popup::Installed);
    assert!(m.popup_shown);
}

#[test]
fn create_adds_theme_and_closes_popup() {
    let mut m = model(&[]);
    m.show_new_box();
    assert_eq!(m.popup_current, Popup::New);
    m.popup_input = "fresh".to_string();
    assert_eq!(m.create_callback().request, Some("fresh".to_string()));
    let summary = m.create_finished(theme("fresh"));
    assert_eq!(summary, "Options Added: \n\nKey-Value Options: \n\n");
    m.push_text(3);
    assert!(!m.popup_shown);
    assert_eq!(m.themes[0].name, "fresh");
    assert_eq!(m.text, vec![3]);
}

#[test]
fn show_boxes_clear_the_field() {
    let mut m = model(&[]);
    m.popup_input = "old".to_string();
    m.show_new_box();
    assert_eq!(m.popup_input, "");
}

#[test]
fn load_runs_the_selected_theme() {
    let mut m = model(&["a", "b"]);
    let r = m.load_callback();
    assert_eq!(r.request, None);
    assert_eq!(r.update, UpdateScreen::DontRedraw);
    assert_eq!(m.popup_current, Popup::NotSelected);
    m.hide_popup();
    m.select_theme(Some(0));
    let r = m.load_callback();
    assert_eq!(r.request, Some(0));
    assert_eq!(r.update, UpdateScreen::Redraw);
    assert!(!m.popup_shown);
}

#[test]
fn open_and_online_build_the_places_to_show() {
    let mut m = model(&["a", "b"]);
    m.select_theme(Some(1));
    let r = m.open_callback(&"/home/u".to_string());
    assert_eq!(r.request, Some("/home/u/.config/raven/themes/b".to_string()));
    assert_eq!(r.update, UpdateScreen::DontRedraw);
    let r = m.online_callback();
    assert_eq!(r.request, Some("https://demenses.net/themes/view/b".to_string()));
    assert_eq!(r.update, UpdateScreen::DontRedraw);
    assert!(!m.popup_shown);
}

#[test]
fn open_and_online_without_selection_report_it() {
    let mut m = model(&["a"]);
    assert_eq!(m.open_callback(&"/h".to_string()).request, None);
    assert_eq!(m.popup_current, Popup::NotSelected);
    m.hide_popup();
    assert_eq!(m.online_callback().request, None);
    assert!(m.popup_shown);
}

#[test]
fn refresh_names_the_last_theme() {
    let m = model(&[]);
    let r = m.refresh_callback();
    assert_eq!(r.request, Some("night".to_string()));
    assert_eq!(r.update, UpdateScreen::DontRedraw);
}

#[test]
fn delete_removes_selected_and_selects_first() {
    let mut m = model(&["a", "b", "c"]);
    m.select_theme(Some(1));
    let r = m.delete_callback();
    assert_eq!(r.request, Some("b".to_string()));
    assert_eq!(r.update, UpdateScreen::Redraw);
    let names: Vec<&str> = m.themes.iter().map(|t| t.name.as_str()).collect();
    assert_eq!(names, vec!["a", "c"]);
    assert_eq!(m.selected_theme, Some(0));
    assert_eq!(m.text, vec![100, 101, 102]);
}

#[test]
fn delete_without_selection_reports_it() {
    let mut m = model(&["a"]);
    let r = m.delete_callback();
    assert_eq!(r.request, None);
    assert_eq!(r.update, UpdateScreen::DontRedraw);
    assert_eq!(m.themes.len(), 1);
    assert_eq!(m.popup_current, Popup::NotSelected);
}

#[test]
fn deleting_the_only_theme_leaves_nothing_to_show() {
    let mut m = model(&["a"]);
    m.select_theme(Some(0));
    m.delete_callback();
    assert_eq!(m.selected_theme, Some(0));
    assert!(m.themes.is_empty());
    let screen = m.layout();
    assert!(matches!(screen.current, CurrentTheme::NoneSelected { .. }));
}

#[test]
fn screenshot_records_grow_and_shrink() {
    let mut m = model(&[]);
    m.record_screenshot(2, "c".to_string());
    assert_eq!(m.screenshots, vec![Some(String::new()), Some(String::new()), Some("c".to_string())]);
    m.record_screenshot(0, "a".to_string());
    assert_eq!(m.screenshots, vec![Some("a".to_string())]);
}

#[test]
fn layout_shows_list_panel_bar_and_popup() {
    let mut m = model(&["a", "b"]);
    m.themes[1].screenshot = "https://x/y.png".to_string();
    m.select_theme(Some(1));
    m.show_new_box();
    let screen = m.layout();
    let labels: Vec<&str> = screen.theme_items.iter().map(|i| i.label.as_str()).collect();
    assert_eq!(labels, vec!["a", "b"]);
    assert!(!screen.theme_items[0].selected);
    assert!(screen.theme_items[1].selected);
    match screen.current {
        CurrentTheme::Selected { name, shows_screenshot, text } => {
            assert_eq!(name, "b");
            assert!(shows_screenshot);
            assert_eq!(text, 101);
        }
        _ => panic!("a theme is selected"),
    }
    let bar: Vec<(&str, Handler)> = screen.buttons.iter().map(|b| (b.label.as_str(), b.handler)).collect();
    assert_eq!(
        bar,
        vec![
            ("View on ThemeHub", Handler::ViewOnline),
            ("View in File Manager", Handler::OpenFolder),
            ("Refresh Last Theme", Handler::RefreshTheme),
            ("Load Theme", Handler::LoadTheme),
            ("Delete Theme", Handler::DeleteTheme),
            ("New Theme", Handler::ShowNewBox),
            ("Install Theme", Handler::ShowInstallBox),
            ("Publish on ThemeHub", Handler::Publish),
        ]
    );
    match screen.popup {
        Some(PopupBox::Input { submit_label, submit }) => {
            assert_eq!(submit_label, "Create");
            assert_eq!(submit, Handler::CreateTheme);
        }
        _ => panic!("the new-theme popup asks for a name"),
    }
}

#[test]
fn layout_without_selection_or_popup() {
    let mut m = model(&["a"]);
    let screen = m.layout();
    assert!(!screen.theme_items[0].selected);
    match screen.current {
        CurrentTheme::NoneSelected { message } => assert_eq!(message, "No Theme selected."),
        _ => panic!("nothing is selected"),
    }
    assert!(screen.popup.is_none());
    m.publish_callback();
    match m.layout().popup {
        Some(PopupBox::Message { label }) => assert_eq!(label, "You don't have a theme selected"),
        _ => panic!("a message popup is shown"),
    }
}

#[test]
fn layout_hides_screenshot_of_theme_without_one() {
    let mut m = model(&["a"]);
    m.select_theme(Some(0));
    match m.layout().current {
        CurrentTheme::Selected { shows_screenshot, .. } => assert!(!shows_screenshot),
        _ => panic!("a theme is selected"),
    }
}

#[test]
fn summary_from_given_option_names() {
    let mut t = theme("x");
    t.description = "Warm colours".to_string();
    t.kv = vec![("vscode".to_string(), "\"Solarized\"".to_string())];
    let names = vec!["one".to_string(), "two".to_string()];
    assert_eq!(
        summary_text(&t, &names),
        "Description:\n\nWarm colours\n\nOptions Added: \n\n- one\n- two\nKey-Value Options: \n\n- vscode : \"Solarized\"\n"
    );
}

#[test]
fn every_option_has_its_serialised_name() {
    let all = [
        (ThemeOption::Polybar, "poly"),
        (ThemeOption::OldI3, "wm"),
        (ThemeOption::I3, "i3"),
        (ThemeOption::Xres, "xres"),
        (ThemeOption::MergeXRes, "xres_m"),
        (ThemeOption::Pywal, "pywal"),
        (ThemeOption::Wall, "wall"),
        (ThemeOption::Ncmpcpp, "ncmpcpp"),
        (ThemeOption::Termite, "termite"),
        (ThemeOption::Script, "script"),
        (ThemeOption::Bspwm, "bspwm"),
        (ThemeOption::Rofi, "rofi"),
        (ThemeOption::Ranger, "ranger"),
        (ThemeOption::Lemonbar, "lemonbar"),
        (ThemeOption::Openbox, "openbox"),
        (ThemeOption::Dunst, "dunst"),
        (ThemeOption::VsCode, "vscode"),
        (ThemeOption::OldSublTheme, "st_subltheme"),
        (ThemeOption::OldScs, "st_scs"),
        (ThemeOption::OldTmTheme, "st_tmtheme"),
    ];
    for (option, name) in all.iter() {
        let mut t = theme("x");
        t.options = vec![*option];
        assert_eq!(
            theme_text(&t),
            format!("Options Added: \n\n- \"{}\"\nKey-Value Options: \n\n", name)
        );
    }
}

#[test]
fn keys_compare_as_strings_do() {
    let words = ["", "a", "ab", "b", "st_scs", "st_tmtheme", "vscode", "\u{e9}", "Z"];
    for a in words.iter() {
        for b in words.iter() {
            assert_eq!(key_precedes(&a.to_string(), &b.to_string()), a < b);
        }
    }
}

#[test]
fn key_order_of_theme_options() {
    let mut t = theme("x");
    assert!(t.has_keys_in_order());
    t.kv = vec![
        ("st_scs".to_string(), "1".to_string()),
        ("st_tmtheme".to_string(), "2".to_string()),
        ("vscode".to_string(), "3".to_string()),
    ];
    assert!(t.has_keys_in_order());
    t.kv.swap(0, 2);
    assert!(!t.has_keys_in_order());
    t.kv = vec![("a".to_string(), "1".to_string()), ("a".to_string(), "2".to_string())];
    assert!(!t.has_keys_in_order());
}

#[test]
fn startup_keeps_texts_of_fetched_screenshots() {
    let mut m = model(&[]);
    let mut a = theme("a");
    a.screenshot = "https://x.io/a.png".to_string();
    let b = theme("b");
    let mut c = theme("c");
    c.screenshot = "https://x.io/c.png".to_string();
    m.themes = vec![a, b, c];
    assert_eq!(
        m.screenshot_file(0, &"/h".to_string()),
        Some("/h/.config/raven/screenshots/httpsx.ioa.png".to_string())
    );
    assert_eq!(m.screenshot_file(1, &"/h".to_string()), None);
    assert_eq!(
        m.startup_theme(0, true),
        Some("Options Added: \n\nKey-Value Options: \n\n".to_string())
    );
    assert_eq!(m.screenshots, vec![Some("a".to_string())]);
    assert!(m.startup_theme(1, false).is_some());
    assert_eq!(m.startup_theme(2, false), None);
    assert_eq!(m.screenshots, vec![Some("a".to_string())]);
    m.push_text(5);
    assert_eq!(m.text, vec![5]);
}
