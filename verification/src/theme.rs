//! What the front end reads of a theme, and the texts it derives from it:
//! the option summary shown beside the theme list and the file a downloaded
//! screenshot is kept in.

use vstd::prelude::*;
use vstd::utf8::encode_utf8;
use crate::bindings::{default_desc, default_description, default_screen, option_text, option_to_string, push_char};

verus! {

/// One option a theme can set, as `ravenlib` knows them.
#[derive(Clone, Copy, Debug, PartialEq, Eq, Structural)]
pub enum ThemeOption {
    Polybar,
    OldI3,
    I3,
    Xres,
    MergeXRes,
    Pywal,
    Wall,
    Ncmpcpp,
    Termite,
    Script,
    Bspwm,
    Rofi,
    Ranger,
    Lemonbar,
    Openbox,
    Dunst,
    VsCode,
    OldSublTheme,
    OldScs,
    OldTmTheme,
}

/// A loaded theme, as far as the front end reads it.
pub struct ThemeInfo {
    /// The theme's name, which is also its directory name.
    pub name: String,
    /// The options the theme sets, in the theme's order.
    pub options: Vec<ThemeOption>,
    /// The key-value options of the theme's JSON map, which keeps its keys
    /// distinct and in the order of `String` (see [`ThemeInfo::well_formed`]);
    /// each value is the JSON text of the stored value.
    pub kv: Vec<(String, String)>,
    /// The address of the theme's screenshot, empty when it has none.
    pub screenshot: String,
    /// The theme's description.
    pub description: String,
}

/// The settings of raven's configuration that the front end reads.
pub struct ConfigInfo {
    /// The ThemeHub server, such as `https://demenses.net`.
    pub host: String,
    /// The name of the theme loaded last.
    pub last: String,
}

/// `a` comes strictly before `b` in byte-wise lexicographic order, the order
/// in which std compares strings (by their UTF-8 bytes).
pub open spec fn bytes_before(a: Seq<u8>, b: Seq<u8>) -> bool
    decreases a.len(),
{
    if b.len() == 0 {
        false
    } else if a.len() == 0 {
        true
    } else if a[0] != b[0] {
        a[0] < b[0]
    } else {
        bytes_before(a.drop_first(), b.drop_first())
    }
}

/// The key `a` comes strictly before the key `b` in the order of `String`.
pub open spec fn key_before(a: Seq<char>, b: Seq<char>) -> bool {
    bytes_before(encode_utf8(a), encode_utf8(b))
}

/// The keys of a key-value list come in strictly increasing order, as in the
/// sorted JSON map a theme stores them in.
pub open spec fn kv_in_key_order(kv: Seq<(String, String)>) -> bool {
    forall|i: int, j: int| 0 <= i < j < kv.len() ==> key_before(#[trigger] kv[i].0@, #[trigger] kv[j].0@)
}

impl ThemeInfo {
    /// The theme's key-value options have distinct keys in key order.
    pub open spec fn well_formed(self) -> bool {
        kv_in_key_order(self.kv@)
    }
}

/// No sequence comes before itself.
proof fn lemma_bytes_before_irreflexive(a: Seq<u8>)
    ensures
        !bytes_before(a, a),
    decreases a.len(),
{
    if a.len() > 0 {
        lemma_bytes_before_irreflexive(a.drop_first());
    }
}

/// The byte order is transitive.
proof fn lemma_bytes_before_transitive(a: Seq<u8>, b: Seq<u8>, c: Seq<u8>)
    requires
        bytes_before(a, b),
        bytes_before(b, c),
    ensures
        bytes_before(a, c),
    decreases a.len(),
{
    if a.len() > 0 && b.len() > 0 && c.len() > 0 && a[0] == b[0] && b[0] == c[0] {
        lemma_bytes_before_transitive(a.drop_first(), b.drop_first(), c.drop_first());
    }
}

/// The byte order puts a sequence before every longer sequence that starts
/// with it, and otherwise decides by the first byte where two sequences
/// differ.
pub proof fn lemma_byte_order(a: Seq<u8>, b: Seq<u8>, k: int)
    ensures
        k == a.len() && k < b.len() && a == b.take(k) ==> bytes_before(a, b),
        0 <= k < a.len() && k < b.len() && a.take(k) == b.take(k) && a[k] < b[k] ==> bytes_before(a, b),
        0 <= k < a.len() && k < b.len() && a.take(k) == b.take(k) && a[k] > b[k] ==> !bytes_before(a, b),
    decreases a.len(),
{
    if k == a.len() {
        assert(a.take(k) =~= a);
    }
    if 0 < k && k <= a.len() && k < b.len() && a.take(k) == b.take(k) {
        assert(a[0] == a.take(k)[0]);
        assert(b[0] == b.take(k)[0]);
        assert(a.drop_first().take(k - 1) =~= a.take(k).drop_first());
        assert(b.drop_first().take(k - 1) =~= b.take(k).drop_first());
        lemma_byte_order(a.drop_first(), b.drop_first(), k - 1);
        if k == a.len() {
            assert(a.drop_first() =~= a.take(k).drop_first());
            assert(a.drop_first() =~= b.drop_first().take(k - 1));
        }
    }
}

/// A key list in key order never holds a key twice.
pub proof fn lemma_keys_distinct(kv: Seq<(String, String)>)
    requires
        kv_in_key_order(kv),
    ensures
        forall|i: int, j: int| 0 <= i < j < kv.len() ==> (#[trigger] kv[i]).0@ != (#[trigger] kv[j]).0@,
{
    assert forall|i: int, j: int| 0 <= i < j < kv.len() implies (#[trigger] kv[i]).0@ != (#[trigger] kv[j]).0@ by {
        assert(key_before(kv[i].0@, kv[j].0@));
        lemma_bytes_before_irreflexive(encode_utf8(kv[i].0@));
    }
}

/// Whether `a` comes strictly before `b`, compared byte by byte.
fn bytes_precede(a: &[u8], b: &[u8]) -> (before: bool)
    ensures
        before == bytes_before(a@, b@),
{
    let mut i: usize = 0;
    assert(a@.skip(0) =~= a@);
    assert(b@.skip(0) =~= b@);
    while i < a.len() && i < b.len() && a[i] == b[i]
        invariant
            i <= a@.len(),
            i <= b@.len(),
            bytes_before(a@, b@) == bytes_before(a@.skip(i as int), b@.skip(i as int)),
        decreases a@.len() - i,
    {
        proof {
            assert(a@.skip(i as int).drop_first() =~= a@.skip(i + 1));
            assert(b@.skip(i as int).drop_first() =~= b@.skip(i + 1));
        }
        i = i + 1;
    }
    if i == b.len() {
        false
    } else if i == a.len() {
        true
    } else {
        a[i] < b[i]
    }
}

/// Whether the key `a` comes strictly before the key `b` in the order of
/// `String`.
pub fn key_precedes(a: &String, b: &String) -> (before: bool)
    ensures
        before == key_before(a@, b@),
{
    bytes_precede(a.as_str().as_bytes(), b.as_str().as_bytes())
}

impl ThemeInfo {
    /// Whether the theme's key-value options have distinct keys in key order,
    /// as a theme loaded by `ravenlib` always has.
    pub fn has_keys_in_order(&self) -> (ordered: bool)
        ensures
            ordered == self.well_formed(),
    {
        let n = self.kv.len();
        if n == 0 {
            return true;
        }
        let mut k: usize = 1;
        while k < n
            invariant
                n == self.kv@.len(),
                1 <= k <= n,
                forall|i: int, j: int|
                    0 <= i < j < k ==> key_before(#[trigger] self.kv@[i].0@, #[trigger] self.kv@[j].0@),
            decreases n - k,
        {
            if !key_precedes(&self.kv[k - 1].0, &self.kv[k].0) {
                return false;
            }
            proof {
                assert forall|i: int, j: int|
                    0 <= i < j < k + 1 implies key_before(#[trigger] self.kv@[i].0@, #[trigger] self.kv@[j].0@) by {
                    if j == k && i < k - 1 {
                        lemma_bytes_before_transitive(
                            encode_utf8(self.kv@[i].0@),
                            encode_utf8(self.kv@[k - 1].0@),
                            encode_utf8(self.kv@[j].0@),
                        );
                    }
                }
            }
            k = k + 1;
        }
        true
    }
}

/// The description part of the summary: shown only for a description of the
/// theme's own that is not empty.
pub open spec fn description_section(description: Seq<char>) -> Seq<char> {
    if description != default_description() && description.len() > 0 {
        "Description:\n\n"@ + description + "\n\n"@
    } else {
        Seq::empty()
    }
}

/// One line `- <option>` for each option, in order.
pub open spec fn option_lines(options: Seq<ThemeOption>) -> Seq<char>
    decreases options.len(),
{
    if options.len() == 0 {
        Seq::empty()
    } else {
        option_lines(options.drop_last()) + "- "@ + option_text(options.last()) + "\n"@
    }
}

/// One line `- <key> : <value>` for each key-value option, in order.
pub open spec fn kv_lines(kv: Seq<(String, String)>) -> Seq<char>
    decreases kv.len(),
{
    if kv.len() == 0 {
        Seq::empty()
    } else {
        kv_lines(kv.drop_last()) + "- "@ + kv.last().0@ + " : "@ + kv.last().1@ + "\n"@
    }
}

/// One line `- <name>` for each option name, in order.
pub open spec fn name_lines(names: Seq<String>) -> Seq<char>
    decreases names.len(),
{
    if names.len() == 0 {
        Seq::empty()
    } else {
        name_lines(names.drop_last()) + "- "@ + names.last()@ + "\n"@
    }
}

/// The summary of a theme whose options are named `names`.
pub open spec fn summary_with(theme: ThemeInfo, names: Seq<String>) -> Seq<char> {
    description_section(theme.description@) + "Options Added: \n\n"@ + name_lines(names)
        + "Key-Value Options: \n\n"@ + kv_lines(theme.kv@)
}

/// The summary of a theme shown beside the theme list.
pub open spec fn summary_of(theme: ThemeInfo) -> Seq<char> {
    description_section(theme.description@) + "Options Added: \n\n"@ + option_lines(theme.options@)
        + "Key-Value Options: \n\n"@ + kv_lines(theme.kv@)
}

/// Adding a key-value option at the end of a theme's list adds exactly its
/// line `- <key> : <value>` at the end of the summary.
pub proof fn lemma_summary_appends_kv_line(before: ThemeInfo, after: ThemeInfo, key: String, value: String)
    requires
        after.description@ == before.description@,
        after.options@ == before.options@,
        after.kv@ == before.kv@.push((key, value)),
    ensures
        summary_of(after) == summary_of(before) + "- "@ + key@ + " : "@ + value@ + "\n"@,
{
    assert(after.kv@.drop_last() =~= before.kv@);
    let head = description_section(before.description@) + "Options Added: \n\n"@ + option_lines(
        before.options@,
    ) + "Key-Value Options: \n\n"@;
    let line = "- "@ + key@ + " : "@ + value@ + "\n"@;
    assert(kv_lines(after.kv@) =~= kv_lines(before.kv@) + line);
    assert(summary_of(after) =~= head + (kv_lines(before.kv@) + line));
    assert(summary_of(before) + line =~= head + (kv_lines(before.kv@) + line));
}

/// A theme without key-value options has a summary that ends with the
/// key-value heading.
pub proof fn lemma_summary_ends_with_kv_heading(theme: ThemeInfo)
    requires
        theme.kv@.len() == 0,
    ensures
        summary_of(theme).len() >= ("Key-Value Options: \n\n"@).len(),
        summary_of(theme).subrange(
            summary_of(theme).len() - ("Key-Value Options: \n\n"@).len(),
            summary_of(theme).len() as int,
        ) == "Key-Value Options: \n\n"@,
{
    let heading = "Key-Value Options: \n\n"@;
    let head = description_section(theme.description@) + "Options Added: \n\n"@ + option_lines(
        theme.options@,
    );
    assert(summary_of(theme) =~= head + heading);
    assert(summary_of(theme).subrange(head.len() as int, summary_of(theme).len() as int) =~= heading);
}

/// Adding an option at the end of a theme without key-value options adds
/// its line `- <option>` just before the key-value heading, the option
/// written as ravenlib writes it.
pub proof fn lemma_summary_appends_option_line(before: ThemeInfo, after: ThemeInfo, option: ThemeOption)
    requires
        after.description@ == before.description@,
        before.kv@.len() == 0,
        after.kv@.len() == 0,
        after.options@ == before.options@.push(option),
    ensures
        summary_of(after) == summary_of(before).subrange(
            0,
            summary_of(before).len() - ("Key-Value Options: \n\n"@).len(),
        ) + "- "@ + option_text(option) + "\n"@ + "Key-Value Options: \n\n"@,
{
    let heading = "Key-Value Options: \n\n"@;
    assert(after.options@.drop_last() =~= before.options@);
    let head = description_section(before.description@) + "Options Added: \n\n"@ + option_lines(
        before.options@,
    );
    let line = "- "@ + option_text(option) + "\n"@;
    assert(kv_lines(after.kv@) == Seq::<char>::empty());
    assert(kv_lines(before.kv@) == Seq::<char>::empty());
    assert(summary_of(before) =~= head + heading);
    assert(summary_of(before).subrange(0, head.len() as int) =~= head);
    assert(option_lines(after.options@) =~= option_lines(before.options@) + line);
    assert(summary_of(after) =~= head + line + heading);
}

/// The summary starts with the description block `Description:` followed by
/// the description, unless the description is ravenlib's default or empty;
/// then, or else right after that block, comes the options heading.
pub proof fn lemma_summary_starts_with_description(theme: ThemeInfo)
    ensures
        ({
            let options_heading = "Options Added: \n\n"@;
            let block = if theme.description@ == "A raven theme."@ || theme.description@.len() == 0 {
                Seq::<char>::empty()
            } else {
                "Description:\n\n"@ + theme.description@ + "\n\n"@
            };
            summary_of(theme).len() >= block.len() + options_heading.len()
                && summary_of(theme).subrange(0, (block.len() + options_heading.len()) as int) == block
                + options_heading
        }),
{
    let options_heading = "Options Added: \n\n"@;
    let block = description_section(theme.description@);
    let rest = option_lines(theme.options@) + "Key-Value Options: \n\n"@ + kv_lines(theme.kv@);
    assert(summary_of(theme) =~= block + options_heading + rest);
    assert(summary_of(theme).subrange(0, (block.len() + options_heading.len()) as int) =~= block + options_heading);
}

/// Names that are the texts of the options, one for one, give the option lines.
proof fn lemma_name_lines(names: Seq<String>, options: Seq<ThemeOption>)
    requires
        names.len() == options.len(),
        forall|k: int| 0 <= k < names.len() ==> (#[trigger] names[k])@ == option_text(options[k]),
    ensures
        name_lines(names) == option_lines(options),
    decreases names.len(),
{
    if names.len() > 0 {
        lemma_name_lines(names.drop_last(), options.drop_last());
    }
}

/// The summary of `theme` with its options written as `option_names`: its
/// description (when it has one of its own), one line per option name, and
/// its key-value options.
pub fn summary_text(theme: &ThemeInfo, option_names: &Vec<String>) -> (text: String)
    ensures
        text@ == summary_with(*theme, option_names@),
        text@.len() > 0,
{
    let mut text = String::new();
    let default = default_desc();
    if theme.description != default && !theme.description.as_str().is_empty() {
        text.append("Description:\n\n");
        text.append(theme.description.as_str());
        text.append("\n\n");
    }
    assert(text@ == description_section(theme.description@));
    text.append("Options Added: \n\n");
    let ghost head = text@;
    let mut i: usize = 0;
    while i < option_names.len()
        invariant
            i <= option_names@.len(),
            text@ == head + name_lines(option_names@.subrange(0, i as int)),
        decreases option_names@.len() - i,
    {
        text.append("- ");
        text.append(option_names[i].as_str());
        text.append("\n");
        proof {
            let done = option_names@.subrange(0, i + 1);
            assert(done.drop_last() =~= option_names@.subrange(0, i as int));
            assert(done.last() == option_names@[i as int]);
        }
        i = i + 1;
    }
    assert(option_names@.subrange(0, option_names@.len() as int) =~= option_names@);
    text.append("Key-Value Options: \n\n");
    let ghost middle = text@;
    let mut j: usize = 0;
    while j < theme.kv.len()
        invariant
            j <= theme.kv@.len(),
            text@ == middle + kv_lines(theme.kv@.subrange(0, j as int)),
        decreases theme.kv@.len() - j,
    {
        let pair = &theme.kv[j];
        text.append("- ");
        text.append(pair.0.as_str());
        text.append(" : ");
        text.append(pair.1.as_str());
        text.append("\n");
        proof {
            let done = theme.kv@.subrange(0, j + 1);
            assert(done.drop_last() =~= theme.kv@.subrange(0, j as int));
            assert(done.last() == theme.kv@[j as int]);
        }
        j = j + 1;
    }
    assert(theme.kv@.subrange(0, theme.kv@.len() as int) =~= theme.kv@);
    proof {
        reveal_strlit("Options Added: \n\n");
    }
    text
}

/// The summary of a theme: its description (when it has one of its own), the
/// options it sets, written as `ravenlib` writes them, and its key-value
/// options.  It is never empty.
pub fn theme_text(theme: &ThemeInfo) -> (text: String)
    ensures
        text@ == summary_of(*theme),
        text@.len() > 0,
{
    let mut names: Vec<String> = Vec::new();
    let mut i: usize = 0;
    while i < theme.options.len()
        invariant
            i <= theme.options@.len(),
            names@.len() == i,
            forall|k: int| 0 <= k < i ==> (#[trigger] names@[k])@ == option_text(theme.options@[k]),
        decreases theme.options@.len() - i,
    {
        names.push(option_to_string(theme.options[i]));
        i = i + 1;
    }
    proof {
        lemma_name_lines(names@, theme.options@);
    }
    summary_text(theme, &names)
}

/// Whether a theme names a screenshot: its address differs from the one
/// `ravenlib` gives a theme without one.
pub open spec fn names_screenshot(theme: ThemeInfo) -> bool {
    theme.screenshot@ != Seq::<char>::empty()
}

impl ThemeInfo {
    /// Whether the theme has a screenshot address to fetch.
    pub fn has_screenshot(&self) -> (b: bool)
        ensures
            b == names_screenshot(*self),
    {
        self.screenshot != default_screen()
    }
}

/// A theme names a screenshot exactly when its screenshot address is not
/// empty, the address ravenlib gives a theme without one.
pub proof fn lemma_screenshot_named(theme: ThemeInfo)
    ensures
        names_screenshot(theme) <==> theme.screenshot@.len() > 0,
{
    if theme.screenshot@.len() == 0 {
        assert(theme.screenshot@ =~= Seq::<char>::empty());
    }
}

/// An address with every `/` and `:` taken out, which makes it a file name.
pub open spec fn stripped_address(address: Seq<char>) -> Seq<char>
    decreases address.len(),
{
    if address.len() == 0 {
        Seq::empty()
    } else {
        let rest = stripped_address(address.drop_last());
        let c = address.last();
        if c == '/' || c == ':' {
            rest
        } else {
            rest.push(c)
        }
    }
}

/// The file, under `home`, that the screenshot at `address` is kept in:
/// `<home>/.config/raven/screenshots/` followed by the address without its
/// `/` and `:` characters.
pub fn screenshot_path(home: &String, address: &String) -> (path: String)
    ensures
        path@ == home@ + "/.config/raven/screenshots/"@ + stripped_address(address@),
{
    let mut path = home.clone();
    path.append("/.config/raven/screenshots/");
    let ghost head = path@;
    let ghost seen: Seq<char> = Seq::empty();
    for c in it: address.as_str().chars()
        invariant
            it.seq() == address@,
            seen == address@.subrange(0, it.index() as int),
            path@ == head + stripped_address(seen),
    {
        proof {
            let done = address@.subrange(0, it.index() + 1);
            assert(done.drop_last() =~= seen);
            assert(done.last() == c);
        }
        if c != '/' && c != ':' {
            push_char(&mut path, c);
        }
        proof {
            seen = address@.subrange(0, it.index() + 1);
        }
    }
    assert(seen =~= address@);
    path
}

/// The summary made from option names that are the options' texts, one for
/// one, is the theme's summary: `summary_text` then agrees with `theme_text`.
pub proof fn lemma_summary_text_agrees(theme: ThemeInfo, names: Seq<String>)
    requires
        names.len() == theme.options@.len(),
        forall|k: int| 0 <= k < names.len() ==> (#[trigger] names[k])@ == option_text(theme.options@[k]),
    ensures
        summary_with(theme, names) == summary_of(theme),
{
    lemma_name_lines(names, theme.options@);
}

/// Stripping an address keeps every character but `/` and `:`, in order:
/// it strips each part of a split address on its own, and a single
/// character is kept exactly when it is no separator.
pub proof fn lemma_stripped_address_keeps_others(first: Seq<char>, second: Seq<char>, c: char)
    ensures
        stripped_address(first + second) == stripped_address(first) + stripped_address(second),
        stripped_address(seq![c]) == (if c == '/' || c == ':' {
            Seq::<char>::empty()
        } else {
            seq![c]
        }),
    decreases second.len(),
{
    assert(seq![c].drop_last() =~= Seq::<char>::empty());
    assert(seq![c].last() == c);
    assert(Seq::<char>::empty().push(c) =~= seq![c]);
    assert(stripped_address(Seq::<char>::empty()) == Seq::<char>::empty());
    assert(stripped_address(seq![c].drop_last()) == Seq::<char>::empty());
    assert(seq![c].len() == 1);
    assert(stripped_address(seq![c]) == (if c == '/' || c == ':' {
        Seq::<char>::empty()
    } else {
        seq![c]
    }));
    if second.len() == 0 {
        assert(first + second =~= first);
        assert(stripped_address(first) + stripped_address(second) =~= stripped_address(first));
    } else {
        lemma_stripped_address_keeps_others(first, second.drop_last(), c);
        assert((first + second).drop_last() =~= first + second.drop_last());
        assert((first + second).last() == second.last());
        let last = second.last();
        if last == '/' || last == ':' {
        } else {
            assert(stripped_address(first + second) =~= stripped_address(first) + stripped_address(second));
        }
    }
}

/// A stripped address holds no `/` and no `:`, so the screenshot file lies
/// directly in the screenshot directory.
pub proof fn lemma_stripped_address_has_no_separator(address: Seq<char>)
    ensures
        !stripped_address(address).contains('/'),
        !stripped_address(address).contains(':'),
    decreases address.len(),
{
    if address.len() > 0 {
        lemma_stripped_address_has_no_separator(address.drop_last());
        let rest = stripped_address(address.drop_last());
        let c = address.last();
        if !(c == '/' || c == ':') {
            assert forall|k: int| 0 <= k < rest.push(c).len() implies rest.push(c)[k] != '/' && rest.push(c)[k] != ':' by {
                if k < rest.len() {
                    assert(rest[k] == rest.push(c)[k]);
                    assert(rest.contains(rest[k]));
                }
            }
        }
    }
}

} // verus!
