# graven

The decision logic of graven, a window for the raven theme manager, as a
verified library.

- `src/theme.rs`: what the window reads of a theme, the summary text shown
  beside the list, and the file name a screenshot is kept under.
- `src/popup.rs`: the popups, their texts and the handler of their buttons.
- `src/model.rs`: the window's state and, for every button, how it changes
  and which theme operation the caller has to carry out.
- `src/layout.rs`: what the window shows for a state.
- `src/bindings.rs`: the trusted calls into `ravenlib` and std.
- `app/main.rs`: the azul window and the ravenlib operations around the
  library.
