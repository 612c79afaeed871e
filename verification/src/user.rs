use std::path::Path;
use vstd::prelude::*;
use vstd::string::StrSliceExecFns;
use vstd::string::StringExecFns;

verus! {

broadcast use vstd::string::group_string_axioms;

// ---------------------------------------------------------------------------
// Full names

/// The first comma-separated field of `s`: all of it up to its first `,`.
pub open spec fn first_field(s: Seq<char>) -> Seq<char>
    decreases s.len(),
{
    if s.len() == 0 || s[0] == ',' {
        Seq::empty()
    } else {
        seq![s[0]] + first_field(s.drop_first())
    }
}

/// The first field of `s` ends at `k` when no `,` comes before `k` and `k` is the
/// end of `s` or a `,`.
proof fn lemma_first_field_ends_at(s: Seq<char>, k: int)
    requires
        0 <= k <= s.len(),
        forall|j: int| 0 <= j < k ==> s[j] != ',',
        k < s.len() ==> s[k] == ',',
    ensures
        first_field(s) == s.take(k),
    decreases k,
{
    if k > 0 {
        lemma_first_field_ends_at(s.drop_first(), k - 1);
        assert(s.take(k) =~= seq![s[0]] + s.drop_first().take(k - 1));
    }
}

/// The index (in characters) of the first `,` in `s`, or its length when it has none.
fn first_comma(s: &str) -> (k: usize)
    ensures
        k <= s@.len(),
        forall|j: int| 0 <= j < k ==> s@[j] != ',',
        k < s@.len() ==> s@[k as int] == ',',
{
    let len = s.unicode_len();
    let mut k: usize = 0;
    let mut found = false;
    for c in it: s.chars()
        invariant
            it.seq() == s@,
            len == s@.len(),
            k <= it.index(),
            it.index() <= s@.len(),
            forall|j: int| 0 <= j < k ==> s@[j] != ',',
            found ==> k < s@.len() && s@[k as int] == ',',
            !found ==> k == it.index(),
    {
        if !found {
            if c == ',' {
                found = true;
            } else {
                k = k + 1;
            }
        }
    }
    k
}

/// The full name of a user: the first field of the GECOS entry, or the login name
/// when that field is missing or empty.
pub open spec fn full_name_for(gecos: Option<Seq<char>>, name: Seq<char>) -> Seq<char> {
    let field = match gecos {
        Some(g) => first_field(g),
        None => Seq::empty(),
    };
    if field.len() == 0 {
        name
    } else {
        field
    }
}

/// The full name of a user with GECOS entry `gecos` and login name `name`.
pub fn full_name_from_gecos(gecos: Option<&str>, name: &str) -> (full_name: String)
    ensures
        full_name@ == full_name_for(
            match gecos {
                Some(g) => Some(g@),
                None => None,
            },
            name@,
        ),
{
    let field: &str = match gecos {
        Some(g) => {
            let k = first_comma(g);
            proof {
                lemma_first_field_ends_at(g@, k as int);
            }
            g.substring_char(0, k)
        },
        None => "",
    };
    proof {
        reveal_strlit("");
    }
    if field.is_empty() {
        String::from_str(name)
    } else {
        String::from_str(field)
    }
}


// ---------------------------------------------------------------------------
// Paths

/// `path` adjoined to `base` as `std::path::Path::join` does it on Unix: an absolute
/// `path` (one that starts at the root `/`) replaces `base`; otherwise `base`, then a
/// `/` unless `base` is empty or already ends in one, then `path`.
pub open spec fn joined_path(base: Seq<char>, path: Seq<char>) -> Seq<char> {
    if path.len() > 0 && path[0] == '/' {
        path
    } else if base.len() == 0 || base.last() == '/' {
        base + path
    } else {
        base + seq!['/'] + path
    }
}

/// Calls `std::path::Path::join`, which adjoins `path` to `base` as `PathBuf::push` does.
/// Trusted: on Unix the result is `joined_path` of the two paths (std adds no other
/// separator and normalises nothing); joining two UTF-8 paths gives UTF-8, so the
/// conversion to `String` loses nothing.
#[verifier::external_body]
fn join_path(base: &str, path: &str) -> (joined: String)
    ensures
        joined@ == joined_path(base@, path@),
{
    Path::new(base).join(path).to_string_lossy().into_owned()
}

/// Where AccountsService keeps the users' icons.
pub const ACCOUNTS_ICON_DIR: &'static str = "/var/lib/AccountsService/icons";

/// The outputs file of cosmic-comp, below the state directory.
pub const OUTPUTS_CONFIG_FILE: &'static str = "cosmic-comp/outputs.ron";

/// The path of the outputs file in the state directory `state_home`, if there is one.
pub fn output_config_path(state_home: Option<String>) -> (path: Option<String>)
    ensures
        path is Some <==> state_home is Some,
        path matches Some(p) ==> p@ == joined_path(state_home->0@, OUTPUTS_CONFIG_FILE@),
{
    match state_home {
        Some(home) => Some(join_path(home.as_str(), OUTPUTS_CONFIG_FILE)),
        None => None,
    }
}

// ---------------------------------------------------------------------------
// User data

/// The text of an optional string.
pub open spec fn text_of(s: Option<String>) -> Option<Seq<char>> {
    match s {
        Some(s) => Some(s@),
        None => None,
    }
}

/// An entry of the user database, as `getpwnam` gives it.
pub struct Passwd {
    pub name: String,
    pub passwd: Option<String>,
    pub uid: u32,
    pub gid: u32,
    pub gecos: Option<String>,
    pub dir: String,
    pub shell: String,
}

/// The types of the configuration entries that a user's data holds.
pub trait UserConfig {
    type Theme;
    type ThemeBuilder;
    type XkbConfig;
    type TimeAppletConfig: Default;
    type ZoomConfig: Default;
    type ShaderSource: Clone;
    type ImagePath;
    type Color;
    /// A background entry's settings besides its source.
    type BackgroundSettings;
}

/// What a background shows.
pub enum BackgroundSource<C: UserConfig> {
    Path(C::ImagePath),
    Color(C::Color),
    Shader(C::ShaderSource),
}

/// A background entry: what it shows, and its other settings.
pub struct BackgroundEntry<C: UserConfig> {
    pub source: BackgroundSource<C>,
    pub settings: C::BackgroundSettings,
}

/// `b` is `a` or what cloning `a` gave.
pub open spec fn is_clone_of<T: Clone>(a: T, b: T) -> bool {
    cloned(a, b)
}

/// The shader that a background shows: a clone of the source's shader if it is one.
pub open spec fn shows_shader<C: UserConfig>(
    source: BackgroundSource<C>,
    shader: Option<C::ShaderSource>,
) -> bool {
    match source {
        BackgroundSource::Shader(s) => shader matches Some(c) && is_clone_of(s, c),
        _ => shader is None,
    }
}

/// The shader that `source` shows, if it shows one.
pub fn shader_of<C: UserConfig>(source: &BackgroundSource<C>) -> (shader: Option<C::ShaderSource>)
    ensures
        shows_shader(*source, shader),
{
    match source {
        BackgroundSource::Shader(s) => Some(s.clone()),
        _ => None,
    }
}

/// What the greeter knows of a user: identity, icon and the user's own configuration.
pub struct UserData<C: UserConfig> {
    pub uid: u32,
    pub name: String,
    pub full_name: String,
    pub home_dir: String,
    pub icon_opt: Option<Vec<u8>>,
    pub theme_opt: Option<C::Theme>,
    pub theme_builder_opt: Option<C::ThemeBuilder>,
    pub xkb_config_opt: Option<C::XkbConfig>,
    pub time_applet_config: C::TimeAppletConfig,
    pub accessibility_zoom: C::ZoomConfig,
    /// Path to the user's outputs.ron config file
    pub output_config_path: Option<String>,
    pub shader_source: Option<C::ShaderSource>,
    pub background_entry: Option<BackgroundEntry<C>>,
}

impl<C: UserConfig> UserData<C> {
    /// `self` is the data that `from_passwd` builds from `user`: uid, login name, full
    /// name and home directory from the entry, nothing loaded, the time applet's and zoom
    /// configs at their defaults.
    pub open spec fn built_from_passwd(self, user: Passwd) -> bool {
        &&& self.uid == user.uid
        &&& self.name@ == user.name@
        &&& self.full_name@ == full_name_for(text_of(user.gecos), user.name@)
        &&& self.home_dir@ == user.dir@
        &&& self.icon_opt is None
        &&& self.theme_opt is None
        &&& self.theme_builder_opt is None
        &&& self.xkb_config_opt is None
        &&& call_ensures(C::TimeAppletConfig::default, (), self.time_applet_config)
        &&& call_ensures(C::ZoomConfig::default, (), self.accessibility_zoom)
        &&& self.output_config_path is None
        &&& self.shader_source is None
        &&& self.background_entry is None
    }

    /// Builds a user's data from a user-database entry: uid, login name, full name
    /// and home directory; nothing loaded yet.
    pub fn from_passwd(user: Passwd) -> (data: Self)
        ensures
            data.built_from_passwd(user),
            data.uid == user.uid,
            data.name@ == user.name@,
            data.home_dir@ == user.dir@,
    {
        let full_name = match &user.gecos {
            Some(g) => full_name_from_gecos(Some(g.as_str()), user.name.as_str()),
            None => full_name_from_gecos(None, user.name.as_str()),
        };
        UserData {
            uid: user.uid,
            name: user.name,
            full_name,
            home_dir: user.dir,
            icon_opt: None,
            theme_opt: None,
            theme_builder_opt: None,
            xkb_config_opt: None,
            time_applet_config: C::TimeAppletConfig::default(),
            accessibility_zoom: C::ZoomConfig::default(),
            output_config_path: None,
            shader_source: None,
            background_entry: None,
        }
    }
}


// ---------------------------------------------------------------------------
// Loading a user's configuration

/// A configuration entry as a config helper reads it: the entry, or the errors met
/// and the entry that stands in for it.
pub open spec fn entry_value<T, E>(entry: Result<T, (E, T)>) -> T {
    match entry {
        Ok(value) => value,
        Err((_, fallback)) => fallback,
    }
}

/// The entry to use: the one read, or the one that stands in for it.
pub fn entry_or_fallback<T, E>(entry: Result<T, (E, T)>) -> (value: T)
    ensures
        value == entry_value(entry),
        entry matches Ok(v) ==> value == v,
        entry matches Err((_, v)) ==> value == v,
{
    match entry {
        Ok(value) => value,
        Err((_, fallback)) => fallback,
    }
}

/// Whether the user's theme is dark, from the `is_dark` of the theme mode entry; dark
/// when the theme mode's config helper could not be made.
pub open spec fn theme_is_dark_spec<E>(mode: Option<Result<bool, (E, bool)>>) -> bool {
    match mode {
        Some(entry) => entry_value(entry),
        None => true,
    }
}

/// Chooses between the dark and the light theme config: `mode` is `None` when the
/// theme mode's config helper could not be made, else its `is_dark` entry.
pub fn theme_is_dark<E>(mode: Option<Result<bool, (E, bool)>>) -> (is_dark: bool)
    ensures
        is_dark == theme_is_dark_spec(mode),
        mode is None ==> is_dark,
        mode matches Some(Ok(b)) ==> is_dark == b,
        mode matches Some(Err((_, b))) ==> is_dark == b,
{
    match mode {
        Some(entry) => entry_or_fallback(entry),
        None => true,
    }
}

/// An optional entry: `None` when the config helper could not be made.
pub open spec fn loaded_value<T, E>(loaded: Option<Result<T, (E, T)>>) -> Option<T> {
    match loaded {
        Some(entry) => Some(entry_value(entry)),
        None => None,
    }
}

fn loaded_or_none<T, E>(loaded: Option<Result<T, (E, T)>>) -> (value: Option<T>)
    ensures
        value == loaded_value(loaded),
{
    match loaded {
        Some(entry) => Some(entry_or_fallback(entry)),
        None => None,
    }
}

/// What reading a user's configuration gave, source by source. For an entry read
/// through a config helper, `None` means that the helper could not be made, and
/// `Some(Err((errors, fallback)))` that the entry was read with errors.
pub struct LoadedConfig<C: UserConfig, E> {
    /// The bytes of the user's icon, when it is a file that could be read.
    pub icon: Option<Vec<u8>>,
    /// The theme entry (the dark or the light one, as `theme_is_dark` chose).
    pub theme: Option<Result<C::Theme, (E, C::Theme)>>,
    /// The theme builder entry (the dark or the light one).
    pub theme_builder: Option<Result<C::ThemeBuilder, (E, C::ThemeBuilder)>>,
    /// The keyboard and zoom settings of the compositor's config.
    pub comp: Option<Result<(C::XkbConfig, C::ZoomConfig), (E, (C::XkbConfig, C::ZoomConfig))>>,
    /// The user's state directory, if there is one.
    pub state_home: Option<String>,
    /// The time applet's config.
    pub time_applet: Option<Result<C::TimeAppletConfig, (E, C::TimeAppletConfig)>>,
    /// The default background entry; `None` when the background config could not be read.
    pub background: Option<BackgroundEntry<C>>,
}

impl<C: UserConfig> UserData<C> {
    /// The path of the user's icon in the AccountsService directory.
    pub fn icon_path(&self) -> (path: String)
        ensures
            path@ == joined_path(ACCOUNTS_ICON_DIR@, self.name@),
    {
        join_path(ACCOUNTS_ICON_DIR, self.name.as_str())
    }

    /// `self` is what `load_config_as_user` leaves of `before` for the outcomes `loaded`:
    /// the identity (uid, names, home) stays; every loaded entry replaces the old one, an
    /// entry whose helper could not be made leaves `None`; the zoom setting stays unless the
    /// compositor's config was read; the time applet's config falls back to its default;
    /// the shader is the one the background entry shows.
    pub open spec fn loaded_from<E>(self, before: Self, loaded: LoadedConfig<C, E>) -> bool {
        &&& self.uid == before.uid
        &&& self.name == before.name
        &&& self.full_name == before.full_name
        &&& self.home_dir == before.home_dir
        &&& self.icon_opt == loaded.icon
        &&& self.theme_opt == loaded_value(loaded.theme)
        &&& self.theme_builder_opt == loaded_value(loaded.theme_builder)
        &&& self.xkb_config_opt == match loaded_value(loaded.comp) {
            Some((xkb, _)) => Some(xkb),
            None => None,
        }
        &&& self.accessibility_zoom == match loaded_value(loaded.comp) {
            Some((_, zoom)) => zoom,
            None => before.accessibility_zoom,
        }
        &&& match loaded_value(loaded.time_applet) {
            Some(config) => self.time_applet_config == config,
            None => call_ensures(C::TimeAppletConfig::default, (), self.time_applet_config),
        }
        &&& (self.output_config_path is Some <==> loaded.state_home is Some)
        &&& (self.output_config_path matches Some(p) ==> p@ == joined_path(
            loaded.state_home->0@,
            OUTPUTS_CONFIG_FILE@,
        ))
        &&& match loaded.background {
            Some(entry) => shows_shader(entry.source, self.shader_source),
            None => self.shader_source is None,
        }
        &&& self.background_entry == loaded.background
    }

    /// Replaces what was loaded of the user's configuration with what `loaded` holds.
    pub fn load_config_as_user<E>(&mut self, loaded: LoadedConfig<C, E>)
        ensures
            final(self).loaded_from(*old(self), loaded),
            loaded.comp matches Some(Ok((xkb, zoom))) ==> final(self).xkb_config_opt == Some(xkb)
                && final(self).accessibility_zoom == zoom,
            loaded.comp matches Some(Err((_, (xkb, zoom)))) ==> final(self).xkb_config_opt == Some(
                xkb,
            ) && final(self).accessibility_zoom == zoom,
            loaded.comp is None ==> final(self).xkb_config_opt is None
                && final(self).accessibility_zoom == old(self).accessibility_zoom,
    {
        self.icon_opt = loaded.icon;
        self.theme_opt = loaded_or_none(loaded.theme);
        self.theme_builder_opt = loaded_or_none(loaded.theme_builder);
        match loaded_or_none(loaded.comp) {
            Some((xkb, zoom)) => {
                self.xkb_config_opt = Some(xkb);
                self.accessibility_zoom = zoom;
            },
            None => {
                self.xkb_config_opt = None;
            },
        }
        self.output_config_path = output_config_path(loaded.state_home);
        self.time_applet_config = match loaded_or_none(loaded.time_applet) {
            Some(config) => config,
            None => C::TimeAppletConfig::default(),
        };
        self.shader_source = match &loaded.background {
            Some(entry) => shader_of(&entry.source),
            None => None,
        };
        self.background_entry = loaded.background;
    }
}


// ---------------------------------------------------------------------------
// Laws

/// The first field of a string is a prefix of it, holds no `,`, and is all of it or
/// stops at a `,`.
pub proof fn law_first_field_is_comma_free_prefix(s: Seq<char>)
    ensures
        first_field(s).len() <= s.len(),
        first_field(s) == s.take(first_field(s).len() as int),
        !first_field(s).contains(','),
        first_field(s).len() < s.len() ==> s[first_field(s).len() as int] == ',',
    decreases s.len(),
{
    if s.len() > 0 && s[0] != ',' {
        let rest = s.drop_first();
        law_first_field_is_comma_free_prefix(rest);
        let f = first_field(rest);
        assert(first_field(s) == seq![s[0]] + f);
        assert(s.take(f.len() + 1 as int) =~= seq![s[0]] + rest.take(f.len() as int));
        assert forall|i: int| 0 <= i < first_field(s).len() implies first_field(s)[i] != ',' by {
            if i > 0 {
                assert(first_field(s)[i] == f[i - 1]);
                assert(!f.contains(','));
                assert(f[i - 1] != ',');
            }
        }
        if first_field(s).len() < s.len() {
            assert(s[first_field(s).len() as int] == rest[f.len() as int]);
        }
    } else {
        assert(first_field(s) =~= s.take(0));
    }
}

/// A user with a login name always has a full name.
pub proof fn law_full_name_never_empty(gecos: Option<Seq<char>>, name: Seq<char>)
    requires
        name.len() > 0,
    ensures
        full_name_for(gecos, name).len() > 0,
{
}

/// The full name is the first GECOS field when that field is not empty: a prefix of the
/// GECOS entry without a `,`; otherwise it is the login name.
pub proof fn law_full_name_from_first_gecos_field(gecos: Seq<char>, name: Seq<char>)
    ensures
        first_field(gecos).len() > 0 ==> {
            &&& full_name_for(Some(gecos), name) == first_field(gecos)
            &&& gecos.take(full_name_for(Some(gecos), name).len() as int) == full_name_for(
                Some(gecos),
                name,
            )
            &&& !full_name_for(Some(gecos), name).contains(',')
        },
        first_field(gecos).len() == 0 ==> full_name_for(Some(gecos), name) == name,
        full_name_for(None, name) == name,
{
    law_first_field_is_comma_free_prefix(gecos);
}


/// `default()` of `T` always gives the same value.
pub open spec fn default_is_deterministic<T: Default>() -> bool {
    forall|a: T, b: T|
        #![trigger call_ensures(T::default, (), a), call_ensures(T::default, (), b)]
        call_ensures(T::default, (), a) && call_ensures(T::default, (), b) ==> a == b
}

/// Cloning a `T` gives a value equal to the original.
pub open spec fn clone_is_exact<T: Clone>() -> bool {
    forall|a: T, b: T| #[trigger] cloned(a, b) ==> a == b
}

impl<C: UserConfig> UserData<C> {
    /// The two user data are equal field by field, strings compared by their text.
    pub open spec fn same_as(self, other: Self) -> bool {
        &&& self.uid == other.uid
        &&& self.name@ == other.name@
        &&& self.full_name@ == other.full_name@
        &&& self.home_dir@ == other.home_dir@
        &&& self.icon_opt == other.icon_opt
        &&& self.theme_opt == other.theme_opt
        &&& self.theme_builder_opt == other.theme_builder_opt
        &&& self.xkb_config_opt == other.xkb_config_opt
        &&& self.time_applet_config == other.time_applet_config
        &&& self.accessibility_zoom == other.accessibility_zoom
        &&& text_of(self.output_config_path) == text_of(other.output_config_path)
        &&& self.shader_source == other.shader_source
        &&& self.background_entry == other.background_entry
    }
}

/// User data built from two user-database entries with the same uid, login name, GECOS
/// field and home directory are the same: nothing else of the entry (password, group,
/// shell) reaches the data. This holds where the time applet's and zoom configs have a
/// deterministic `default()`.
pub proof fn law_from_passwd_depends_on_identity_only<C: UserConfig>(
    first_user: Passwd,
    second_user: Passwd,
    first: UserData<C>,
    second: UserData<C>,
)
    requires
        first.built_from_passwd(first_user),
        second.built_from_passwd(second_user),
        first_user.uid == second_user.uid,
        first_user.name@ == second_user.name@,
        text_of(first_user.gecos) == text_of(second_user.gecos),
        first_user.dir@ == second_user.dir@,
        default_is_deterministic::<C::TimeAppletConfig>(),
        default_is_deterministic::<C::ZoomConfig>(),
    ensures
        first.same_as(second),
{
}

/// Loading the configuration again from unchanged outcomes changes nothing. This holds
/// where the time applet's config has a deterministic `default()` and a shader source's
/// clone equals it.
pub proof fn law_reload_changes_nothing<C: UserConfig, E>(
    before: UserData<C>,
    first: UserData<C>,
    second: UserData<C>,
    loaded: LoadedConfig<C, E>,
)
    requires
        first.loaded_from(before, loaded),
        second.loaded_from(first, loaded),
        default_is_deterministic::<C::TimeAppletConfig>(),
        clone_is_exact::<C::ShaderSource>(),
    ensures
        second.same_as(first),
{
    match loaded.background {
        Some(entry) => match entry.source {
            BackgroundSource::Shader(s) => {
                assert(cloned(s, first.shader_source->0));
                assert(cloned(s, second.shader_source->0));
            },
            _ => {},
        },
        None => {},
    }
}

/// After a load, the stored shader is the one the stored background entry shows: a
/// clone of its source when that is a shader, and none otherwise.
pub proof fn law_stored_shader_is_entry_source<C: UserConfig, E>(
    before: UserData<C>,
    after: UserData<C>,
    loaded: LoadedConfig<C, E>,
)
    requires
        after.loaded_from(before, loaded),
    ensures
        match after.background_entry {
            Some(entry) => shows_shader(entry.source, after.shader_source),
            None => after.shader_source is None,
        },
{
}

/// The icon of a user whose login name is a relative path lies in the AccountsService
/// icon directory: the directory, a `/`, then the name.
pub proof fn law_icon_path_in_accounts_dir(name: Seq<char>)
    requires
        name.len() > 0,
        name[0] != '/',
    ensures
        joined_path(ACCOUNTS_ICON_DIR@, name) == ACCOUNTS_ICON_DIR@ + seq!['/'] + name,
{
    reveal_strlit("/var/lib/AccountsService/icons");
    assert(ACCOUNTS_ICON_DIR@ == "/var/lib/AccountsService/icons"@);
}


/// An entry read with errors counts as its fallback, exactly as an entry read cleanly
/// counts as itself.
pub proof fn law_fallback_entry_is_used<T, E>(errors: E, value: T)
    ensures
        entry_value(Err::<T, (E, T)>((errors, value))) == value,
        entry_value(Ok::<T, (E, T)>(value)) == value,
        loaded_value(Some(Err::<T, (E, T)>((errors, value)))) == Some(value),
        loaded_value(Some(Ok::<T, (E, T)>(value))) == Some(value),
        loaded_value(None::<Result<T, (E, T)>>) is None,
{
}

/// The theme is dark exactly when the theme-mode entry says so, whether it was read
/// cleanly or with errors (then its fallback's `is_dark` decides); without a theme-mode
/// helper it is dark.
pub proof fn law_theme_mode_decides_darkness<E>(errors: E, is_dark: bool)
    ensures
        theme_is_dark_spec(Some(Err::<bool, (E, bool)>((errors, is_dark)))) == is_dark,
        theme_is_dark_spec(Some(Ok::<bool, (E, bool)>(is_dark))) == is_dark,
        theme_is_dark_spec(None::<Result<bool, (E, bool)>>),
{
}

/// Data built from a user-database entry carries the entry's uid, login name and home
/// directory, whatever the other fields hold.
pub proof fn law_from_passwd_keeps_identity<C: UserConfig>(user: Passwd, data: UserData<C>)
    requires
        data.built_from_passwd(user),
    ensures
        data.uid == user.uid,
        data.name@ == user.name@,
        data.home_dir@ == user.dir@,
        user.gecos is None ==> data.full_name@ == user.name@,
{
}

/// A compositor config read with errors is stored as cleanly read one is: its keyboard
/// settings and zoom, from the fallback, replace the old ones; only a config that could
/// not be read at all keeps the old zoom and clears the keyboard settings.
pub proof fn law_compositor_config_with_errors_is_used<C: UserConfig, E>(
    before: UserData<C>,
    after: UserData<C>,
    loaded: LoadedConfig<C, E>,
)
    requires
        after.loaded_from(before, loaded),
    ensures
        loaded.comp matches Some(Ok((xkb, zoom))) ==> after.xkb_config_opt == Some(xkb)
            && after.accessibility_zoom == zoom,
        loaded.comp matches Some(Err((_, (xkb, zoom)))) ==> after.xkb_config_opt == Some(xkb)
            && after.accessibility_zoom == zoom,
        loaded.comp is None ==> after.xkb_config_opt is None && after.accessibility_zoom
            == before.accessibility_zoom,
{
}

} // verus!
