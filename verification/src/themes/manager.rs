use vstd::prelude::*;
use crate::text::{append_str, lowercase, replace_spaces, spaces_to_underscores, to_lowercase};
use crate::themes::defaults::{is_blaze_dark, is_blaze_light, is_blaze_vscode_dark, is_blaze_vscode_light};
use crate::themes::defaults::migrated;
use crate::themes::structs::{NewTheme, Theme, ThemeDefault};

verus! {

/// The name of the file a theme is stored in: its name in lowercase, with
/// spaces turned into underscores, followed by `.json`.
pub open spec fn theme_file_name_spec(name: Seq<char>) -> Seq<char> {
    spaces_to_underscores(lowercase(name)) + ".json"@
}

/// Computes the file name of a theme called `name`.
pub fn theme_file_name(name: &str) -> (r: String)
    ensures
        r@ == theme_file_name_spec(name@),
{
    let lower = to_lowercase(name);
    let mut r = replace_spaces(lower.as_str());
    append_str(&mut r, ".json");
    r
}

/// The index of the first theme called `name`, if any.
pub open spec fn name_index(s: Seq<NewTheme>, name: Seq<char>) -> Option<int>
    decreases s.len(),
{
    if s.len() == 0 {
        None
    } else {
        match name_index(s.drop_last(), name) {
            Some(i) => Some(i),
            None => if s.last().name@ == name {
                Some(s.len() - 1)
            } else {
                None
            },
        }
    }
}

/// The names of a list of themes, in order.
pub open spec fn theme_names(s: Seq<NewTheme>) -> Seq<Seq<char>> {
    s.map_values(|t: NewTheme| t.name@)
}

proof fn lemma_name_index_bounds(s: Seq<NewTheme>, name: Seq<char>)
    ensures
        name_index(s, name) matches Some(i) ==> 0 <= i < s.len() && s[i].name@ == name
            && forall|j: int| 0 <= j < i ==> s[j].name@ != name,
        name_index(s, name) is None ==> forall|j: int| 0 <= j < s.len() ==> s[j].name@ != name,
    decreases s.len(),
{
    if s.len() > 0 {
        lemma_name_index_bounds(s.drop_last(), name);
        assert forall|j: int| 0 <= j < s.len() - 1 implies s.drop_last()[j] == s[j] by {}
    }
}

proof fn lemma_name_index_prefix(s: Seq<NewTheme>, name: Seq<char>, k: int)
    requires
        0 <= k <= s.len(),
        name_index(s.take(k), name) is Some,
    ensures
        name_index(s, name) == name_index(s.take(k), name),
    decreases s.len() - k,
{
    if k < s.len() {
        assert(s.take(k + 1).drop_last() =~= s.take(k));
        lemma_name_index_prefix(s, name, k + 1);
    } else {
        assert(s.take(k) =~= s);
    }
}

/// The result of `name_index` pins the theme: it is the first theme with
/// that name, and no theme has the name when it is `None`.
pub proof fn lemma_name_index_is_first(s: Seq<NewTheme>, name: Seq<char>)
    ensures
        name_index(s, name) matches Some(i) ==> 0 <= i < s.len() && s[i].name@ == name
            && forall|j: int| 0 <= j < i ==> s[j].name@ != name,
        name_index(s, name) is None <==> forall|j: int| 0 <= j < s.len() ==> s[j].name@ != name,
{
    lemma_name_index_bounds(s, name);
}

/// A theme's file name never holds a space and always ends in `.json`.
pub proof fn law_theme_file_name_shape(name: Seq<char>)
    ensures
        ({
            let f = theme_file_name_spec(name);
            &&& f.len() >= 5
            &&& f.subrange(f.len() - 5, f.len() as int) == ".json"@
            &&& forall|i: int| 0 <= i < f.len() - 5 ==> f[i] != ' '
        }),
{
    let f = theme_file_name_spec(name);
    let body = spaces_to_underscores(lowercase(name));
    reveal_strlit(".json");
    assert(f.subrange(f.len() - 5, f.len() as int) =~= ".json"@);
    assert forall|i: int| 0 <= i < f.len() - 5 implies f[i] != ' ' by {
        assert(f[i] == body[i]);
    }
}

/// Choosing a theme by a name that some theme has makes a theme of that
/// name active: the first one listed.
pub proof fn law_set_theme_selects_named(themes: Seq<NewTheme>, name: Seq<char>, j: int)
    requires
        0 <= j < themes.len(),
        themes[j].name@ == name,
    ensures
        name_index(themes, name) matches Some(i) && i <= j && themes[i].name@ == name,
{
    lemma_name_index_bounds(themes, name);
}

/// Finds the first theme called `name`.
fn find_theme(themes: &Vec<NewTheme>, name: &str) -> (r: Option<usize>)
    ensures
        match r {
            Some(i) => name_index(themes@, name@) == Some(i as int),
            None => name_index(themes@, name@) is None,
        },
{
    let target = name.to_owned();
    let mut i: usize = 0;
    while i < themes.len()
        invariant
            i <= themes@.len(),
            target@ == name@,
            name_index(themes@.take(i as int), name@) is None,
        decreases themes@.len() - i,
    {
        assert(themes@.take(i + 1).drop_last() =~= themes@.take(i as int));
        if themes[i].name == target {
            proof {
                lemma_name_index_prefix(themes@, name@, i + 1);
            }
            return Some(i);
        }
        i = i + 1;
    }
    assert(themes@.take(i as int) =~= themes@);
    None
}

/// Copies the names of a list of themes.
fn collect_names(themes: &Vec<NewTheme>) -> (r: Vec<String>)
    ensures
        r@.len() == themes@.len(),
        forall|i: int| 0 <= i < r@.len() ==> r@[i] == themes@[i].name,
{
    let mut r: Vec<String> = Vec::new();
    let mut i: usize = 0;
    while i < themes.len()
        invariant
            i <= themes@.len(),
            r@.len() == i,
            forall|j: int| 0 <= j < i ==> r@[j] == themes@[j].name,
        decreases themes@.len() - i,
    {
        r.push(themes[i].name.clone());
        i = i + 1;
    }
    r
}

/// A theme to be written to disk, under `file_name` in the themes folder.
pub struct ThemeFile {
    pub file_name: String,
    pub theme: NewTheme,
}

/// The four built-in themes, each under its file name: what is written to
/// the themes folder where its file is missing.
pub fn default_theme_files() -> (r: Vec<ThemeFile>)
    ensures
        r@.len() == 4,
        is_blaze_dark(r@[0].theme),
        is_blaze_light(r@[1].theme),
        is_blaze_vscode_dark(r@[2].theme),
        is_blaze_vscode_light(r@[3].theme),
        forall|i: int| 0 <= i < 4 ==> (#[trigger] r@[i]).file_name@ == theme_file_name_spec(r@[i].theme.name@),
{
    let mut r: Vec<ThemeFile> = Vec::new();
    let d = NewTheme::default_dark();
    r.push(ThemeFile { file_name: theme_file_name(d.name.as_str()), theme: d });
    let l = NewTheme::default_light();
    r.push(ThemeFile { file_name: theme_file_name(l.name.as_str()), theme: l });
    let vd = NewTheme::default_vscode_dark();
    r.push(ThemeFile { file_name: theme_file_name(vd.name.as_str()), theme: vd });
    let vl = NewTheme::default_vscode_light();
    r.push(ThemeFile { file_name: theme_file_name(vl.name.as_str()), theme: vl });
    r
}

/// A file of the themes folder that is read as a theme: one whose
/// extension is `json`, that is whose name ends in `.json` after at least
/// one other character (a name that is only `.json` has no extension).
pub open spec fn is_theme_file_spec(name: Seq<char>) -> bool {
    name.len() > 5 && name.subrange(name.len() - 5, name.len() as int) == ".json"@
}

/// Whether a file of the themes folder is read as a theme.
pub fn is_theme_file(name: &str) -> (b: bool)
    ensures
        b == is_theme_file_spec(name@),
{
    let n = name.unicode_len();
    if n > 5 {
        let tail = name.substring_char(n - 5, n);
        crate::text::str_equal(tail, ".json")
    } else {
        false
    }
}

/// Every name followed by `.json` is a theme file when the name is not
/// empty; `.json` alone is not, nor a name shorter than six characters, nor
/// one that does not end in `.json`.
pub proof fn law_theme_files(stem: Seq<char>, name: Seq<char>)
    ensures
        stem.len() > 0 ==> is_theme_file_spec(stem + ".json"@),
        !is_theme_file_spec(".json"@),
        name.len() <= 5 ==> !is_theme_file_spec(name),
        is_theme_file_spec(name) ==> name == name.subrange(0, name.len() - 5) + ".json"@,
{
    reveal_strlit(".json");
    let f = stem + ".json"@;
    assert(f.subrange(f.len() - 5, f.len() as int) =~= ".json"@);
    if is_theme_file_spec(name) {
        assert(name =~= name.subrange(0, name.len() - 5) + name.subrange(name.len() - 5, name.len() as int));
    }
}

/// A theme read from a file of the themes folder.
pub enum ScannedTheme {
    /// The file holds a theme of the current format.
    Current(NewTheme),
    /// The file holds a theme of the flat format, turned into the current
    /// one; the file is then rewritten with it.
    Migrated(NewTheme),
}

/// Chooses what a theme file yields from the two readings the caller
/// tried: as the current format, else as the flat format (migrated), else
/// nothing (the file is skipped).
pub fn theme_from_contents(current: Option<NewTheme>, legacy: Option<Theme>) -> (r: Option<ScannedTheme>)
    ensures
        match current {
            Some(t) => r == Some(ScannedTheme::Current(t)),
            None => match legacy {
                Some(old) => r matches Some(ScannedTheme::Migrated(t)) && migrated(old, t),
                None => r is None,
            },
        },
{
    match current {
        Some(t) => Some(ScannedTheme::Current(t)),
        None => match legacy {
            Some(old) => Some(ScannedTheme::Migrated(old.migrate_to_new())),
            None => None,
        },
    }
}

/// The built-in theme that `reset_to_default` brings back for a theme name:
/// the theme of that name, or Blaze Dark for any other name.
pub open spec fn is_default_for(name: Seq<char>, t: NewTheme) -> bool {
    if name == "Blaze Dark"@ {
        is_blaze_dark(t)
    } else if name == "Blaze Light"@ {
        is_blaze_light(t)
    } else if name == "VS Code Dark"@ {
        is_blaze_vscode_dark(t)
    } else if name == "VS Code Light"@ {
        is_blaze_vscode_light(t)
    } else {
        is_blaze_dark(t)
    }
}

/// Resetting a built-in theme brings back the theme of the same name, so the
/// reset theme is saved over its own file; resetting any other theme brings
/// back Blaze Dark.
pub proof fn law_reset_theme_name(name: Seq<char>, t: NewTheme)
    requires
        is_default_for(name, t),
    ensures
        (name == "Blaze Dark"@ || name == "Blaze Light"@ || name == "VS Code Dark"@ || name
            == "VS Code Light"@) ==> t.name@ == name,
        !(name == "Blaze Dark"@ || name == "Blaze Light"@ || name == "VS Code Dark"@ || name
            == "VS Code Light"@) ==> t.name@ == "Blaze Dark"@,
{
}

/// The themes known to the explorer and the one in use.
///
/// The list of themes comes from the themes folder (read by the caller);
/// the active theme is one of them or a built-in one.
pub struct ThemeManager {
    active_theme: NewTheme,
    available_themes_names: Vec<String>,
    available_themes: Vec<NewTheme>,
}

impl ThemeManager {
    #[verifier::type_invariant]
    spec fn names_match(self) -> bool {
        &&& self.available_themes_names@.len() == self.available_themes@.len()
        &&& forall|i: int|
            0 <= i < self.available_themes@.len() ==> #[trigger] self.available_themes_names@[i]
                == self.available_themes@[i].name
    }

    /// The theme in use.
    pub closed spec fn active(self) -> NewTheme {
        self.active_theme
    }

    /// The themes that can be chosen, in the order they were found.
    pub closed spec fn themes(self) -> Seq<NewTheme> {
        self.available_themes@
    }

    /// A manager with the Blaze Dark theme active and no theme found yet.
    pub fn new() -> (m: Self)
        ensures
            is_blaze_dark(m.active()),
            m.themes().len() == 0,
    {
        ThemeManager {
            active_theme: NewTheme::default_dark(),
            available_themes_names: Vec::new(),
            available_themes: Vec::new(),
        }
    }

    /// The theme in use.
    pub fn current(&self) -> (t: &NewTheme)
        ensures
            *t == self.active(),
    {
        &self.active_theme
    }

    /// The names of the themes that can be chosen, in order.
    pub fn get_available_themes_names(&self) -> (r: Vec<String>)
        ensures
            r@.len() == self.themes().len(),
            forall|i: int| 0 <= i < r@.len() ==> r@[i]@ == self.themes()[i].name@,
    {
        proof {
            use_type_invariant(self);
        }
        let mut r: Vec<String> = Vec::new();
        let mut i: usize = 0;
        while i < self.available_themes_names.len()
            invariant
                i <= self.available_themes_names@.len(),
                self.available_themes_names@.len() == self.available_themes@.len(),
                forall|k: int|
                    0 <= k < self.available_themes@.len() ==> #[trigger] self.available_themes_names@[k]
                        == self.available_themes@[k].name,
                r@.len() == i,
                forall|j: int| 0 <= j < i ==> r@[j]@ == self.available_themes@[j].name@,
            decreases self.available_themes_names@.len() - i,
        {
            r.push(self.available_themes_names[i].clone());
            i = i + 1;
        }
        r
    }

    /// Makes the first theme called `name` the active one; nothing changes
    /// when no theme has that name.
    pub fn set_theme(&mut self, name: &str)
        ensures
            final(self).themes() == old(self).themes(),
            match name_index(old(self).themes(), name@) {
                Some(i) => final(self).active() == old(self).themes()[i],
                None => final(self).active() == old(self).active(),
            },
    {
        proof {
            use_type_invariant(&*self);
        }
        match find_theme(&self.available_themes, name) {
            Some(i) => {
                proof {
                    lemma_name_index_bounds(self.available_themes@, name@);
                }
                let t = self.available_themes[i].duplicate();
                self.active_theme = t;
            },
            None => {},
        }
    }

    /// Replaces the active theme, as an edit of one of its colors does.
    pub fn replace_active(&mut self, theme: NewTheme)
        ensures
            final(self).active() == theme,
            final(self).themes() == old(self).themes(),
    {
        proof {
            use_type_invariant(&*self);
        }
        self.active_theme = theme;
    }

    fn set_available(&mut self, themes: Vec<NewTheme>)
        ensures
            final(self).themes() == themes@,
            final(self).active() == old(self).active(),
    {
        let names = collect_names(&themes);
        let active = self.active_theme.duplicate();
        *self = ThemeManager {
            active_theme: active,
            available_themes_names: names,
            available_themes: themes,
        };
    }

    /// Takes the themes found in the themes folder and chooses the active
    /// one: the theme called `configured` (the name the settings hold), else
    /// the first theme found, else the active theme stays.
    pub fn load(&mut self, scanned: Vec<NewTheme>, configured: &str)
        ensures
            final(self).themes() == scanned@,
            match name_index(scanned@, configured@) {
                Some(i) => final(self).active() == scanned@[i],
                None => if scanned@.len() > 0 {
                    final(self).active() == scanned@[0]
                } else {
                    final(self).active() == old(self).active()
                },
            },
    {
        self.set_available(scanned);
        proof {
            use_type_invariant(&*self);
        }
        match find_theme(&self.available_themes, configured) {
            Some(i) => {
                proof {
                    lemma_name_index_bounds(self.available_themes@, configured@);
                }
                let t = self.available_themes[i].duplicate();
                self.active_theme = t;
            },
            None => {
                if self.available_themes.len() > 0 {
                    let t = self.available_themes[0].duplicate();
                    self.active_theme = t;
                }
            },
        }
    }

    /// Takes a fresh list of the themes found in the themes folder and
    /// makes the theme with the active theme's name active again (with the
    /// content found on disk); the active theme stays when none has its name.
    pub fn reload(&mut self, scanned: Vec<NewTheme>)
        ensures
            final(self).themes() == scanned@,
            match name_index(scanned@, old(self).active().name@) {
                Some(i) => final(self).active() == scanned@[i],
                None => final(self).active() == old(self).active(),
            },
    {
        self.set_available(scanned);
        proof {
            use_type_invariant(&*self);
        }
        let current_name = self.active_theme.name.clone();
        match find_theme(&self.available_themes, current_name.as_str()) {
            Some(i) => {
                proof {
                    lemma_name_index_bounds(self.available_themes@, current_name@);
                }
                let t = self.available_themes[i].duplicate();
                self.active_theme = t;
            },
            None => {},
        }
    }

    /// What saving the active theme writes: the theme, under the file name
    /// made from its name.
    pub fn save(&self) -> (f: ThemeFile)
        ensures
            f.theme == self.active(),
            f.file_name@ == theme_file_name_spec(self.active().name@),
    {
        ThemeFile {
            file_name: theme_file_name(self.active_theme.name.as_str()),
            theme: self.active_theme.duplicate(),
        }
    }

    /// Brings back the built-in content of the active theme (Blaze Dark for a
    /// theme that is not built in) and returns what is then saved.
    pub fn reset_to_default(&mut self) -> (f: ThemeFile)
        ensures
            is_default_for(old(self).active().name@, final(self).active()),
            final(self).themes() == old(self).themes(),
            f.theme == final(self).active(),
            f.file_name@ == theme_file_name_spec(final(self).active().name@),
    {
        proof {
            use_type_invariant(&*self);
        }
        let name = self.active_theme.name.clone();
        let t = if name == "Blaze Dark".to_owned() {
            NewTheme::default_dark()
        } else if name == "Blaze Light".to_owned() {
            NewTheme::default_light()
        } else if name == "VS Code Dark".to_owned() {
            NewTheme::default_vscode_dark()
        } else if name == "VS Code Light".to_owned() {
            NewTheme::default_vscode_light()
        } else {
            NewTheme::default_dark()
        };
        self.active_theme = t;
        self.save()
    }

    /// What saving the active theme as a custom theme called `new_name`
    /// writes: a copy named `new_name`, by "CustomUser", version "1.0.0".
    /// The caller then reloads the themes and makes `new_name` active.
    pub fn save_as_custom_theme(&self, new_name: &str) -> (f: ThemeFile)
        ensures
            f.theme.name@ == new_name@,
            f.theme.autor@ == "CustomUser"@,
            f.theme.version@ == "1.0.0"@,
            f.theme.luminance_bits == self.active().luminance_bits,
            f.theme.semantic == self.active().semantic,
            f.theme.components == self.active().components,
            f.theme.file_theme == self.active().file_theme,
            f.file_name@ == theme_file_name_spec(new_name@),
    {
        let mut custom = self.active_theme.duplicate();
        custom.name = new_name.to_owned();
        custom.autor = "CustomUser".to_owned();
        custom.version = "1.0.0".to_owned();
        ThemeFile { file_name: theme_file_name(new_name), theme: custom }
    }
}

} // verus!
