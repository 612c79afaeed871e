use cosmic_greeter::user::{
    entry_or_fallback, full_name_from_gecos, output_config_path, shader_of, theme_is_dark,
    BackgroundEntry, BackgroundSource, LoadedConfig, Passwd, UserConfig, UserData,
};

struct Plain;

impl UserConfig for Plain {
    type Theme = &'static str;
    type ThemeBuilder = u8;
    type XkbConfig = &'static str;
    type TimeAppletConfig = u32;
    type ZoomConfig = u16;
    type ShaderSource = String;
    type ImagePath = String;
    type Color = u32;
    type BackgroundSettings = &'static str;
}

fn entry(source: BackgroundSource<Plain>) -> BackgroundEntry<Plain> {
    BackgroundEntry { source, settings: "all" }
}

fn passwd(name: &str, gecos: Option<&str>) -> Passwd {
    Passwd {
        name: name.to_string(),
        passwd: Some("x".to_string()),
        uid: 1000,
        gid: 1000,
        gecos: gecos.map(|g| g.to_string()),
        dir: format!("/home/{}", name),
        shell: "/bin/bash".to_string(),
    }
}

#[test]
fn full_name_is_first_gecos_field() {
    assert_eq!(full_name_from_gecos(Some("Alice Liddell,Room 1,555-1234,,"), "alice"), "Alice Liddell");
    assert_eq!(full_name_from_gecos(Some("Bob"), "bob"), "Bob");
    assert_eq!(full_name_from_gecos(Some("Ünïcødé Nàme,x"), "u"), "Ünïcødé Nàme");
}

#[test]
fn empty_full_name_falls_back_to_login() {
    assert_eq!(full_name_from_gecos(Some(",Room 1"), "carol"), "carol");
    assert_eq!(full_name_from_gecos(Some(""), "dave"), "dave");
    assert_eq!(full_name_from_gecos(None, "erin"), "erin");
}

#[test]
fn user_data_from_passwd() {
    let data: UserData<Plain> = UserData::from_passwd(passwd("alice", Some("Alice Liddell,,,")));
    assert_eq!(data.uid, 1000);
    assert_eq!(data.name, "alice");
    assert_eq!(data.full_name, "Alice Liddell");
    assert_eq!(data.home_dir, "/home/alice");
    assert!(data.icon_opt.is_none());
    assert!(data.theme_opt.is_none());
    assert_eq!(data.time_applet_config, 0);
    assert_eq!(data.accessibility_zoom, 0);
    assert!(data.output_config_path.is_none());
    assert!(data.background_entry.is_none());
    let data: UserData<Plain> = UserData::from_passwd(passwd("root", None));
    assert_eq!(data.full_name, "root");
}

#[test]
fn icon_lives_in_accounts_service() {
    let data: UserData<Plain> = UserData::from_passwd(passwd("alice", None));
    assert_eq!(data.icon_path(), "/var/lib/AccountsService/icons/alice");
}

#[test]
fn outputs_file_in_state_home() {
    assert_eq!(
        output_config_path(Some("/home/alice/.local/state".to_string())),
        Some("/home/alice/.local/state/cosmic-comp/outputs.ron".to_string())
    );
    assert_eq!(output_config_path(None), None);
}

#[test]
fn entries_and_fallbacks() {
    assert_eq!(entry_or_fallback::<u8, ()>(Ok(3)), 3);
    assert_eq!(entry_or_fallback::<u8, &str>(Err(("broken", 7))), 7);
    assert!(theme_is_dark::<()>(None));
    assert!(!theme_is_dark::<()>(Some(Ok(false))));
    assert!(!theme_is_dark(Some(Err(("bad", false)))));
    assert!(theme_is_dark::<()>(Some(Ok(true))));
}

fn nothing_loaded() -> LoadedConfig<Plain, String> {
    LoadedConfig {
        icon: None,
        theme: None,
        theme_builder: None,
        comp: None,
        state_home: None,
        time_applet: None,
        background: None,
    }
}

#[test]
fn load_replaces_entries() {
    let mut data: UserData<Plain> = UserData::from_passwd(passwd("alice", Some("Alice")));
    data.accessibility_zoom = 5;
    let loaded = LoadedConfig {
        icon: Some(vec![1, 2, 3]),
        theme: Some(Ok("dark")),
        theme_builder: Some(Err(("errors".to_string(), 9))),
        comp: Some(Ok(("us", 150))),
        state_home: Some("/state".to_string()),
        time_applet: Some(Err(("errors".to_string(), 24))),
        background: Some(entry(BackgroundSource::Shader("shader".to_string()))),
    };
    data.load_config_as_user(loaded);
    assert_eq!(data.icon_opt, Some(vec![1, 2, 3]));
    assert_eq!(data.theme_opt, Some("dark"));
    assert_eq!(data.theme_builder_opt, Some(9));
    assert_eq!(data.xkb_config_opt, Some("us"));
    assert_eq!(data.accessibility_zoom, 150);
    assert_eq!(data.time_applet_config, 24);
    assert_eq!(data.output_config_path, Some("/state/cosmic-comp/outputs.ron".to_string()));
    assert_eq!(data.shader_source, Some("shader".to_string()));
    let stored = data.background_entry.as_ref().unwrap();
    assert_eq!(stored.settings, "all");
    assert!(matches!(&stored.source, BackgroundSource::Shader(s) if s == "shader"));
    assert_eq!(data.full_name, "Alice");
}

#[test]
fn failed_load_resets_entries_but_keeps_zoom() {
    let mut data: UserData<Plain> = UserData::from_passwd(passwd("bob", None));
    data.load_config_as_user(LoadedConfig::<Plain, String> {
        icon: Some(vec![9]),
        theme: Some(Ok("light")),
        theme_builder: Some(Ok(1)),
        comp: Some(Ok(("de", 200))),
        state_home: Some("/s".to_string()),
        time_applet: Some(Ok(12)),
        background: Some(entry(BackgroundSource::Color(0xff0000))),
    });
    data.load_config_as_user(nothing_loaded());
    assert_eq!(data.icon_opt, None);
    assert_eq!(data.theme_opt, None);
    assert_eq!(data.theme_builder_opt, None);
    assert_eq!(data.xkb_config_opt, None);
    assert_eq!(data.accessibility_zoom, 200);
    assert_eq!(data.time_applet_config, 0);
    assert_eq!(data.output_config_path, None);
    assert_eq!(data.shader_source, None);
    assert!(data.background_entry.is_none());
    assert_eq!(data.name, "bob");
    assert_eq!(data.uid, 1000);
}

#[test]
fn picture_and_colour_backgrounds_show_no_shader() {
    let mut data: UserData<Plain> = UserData::from_passwd(passwd("eve", None));
    let mut loaded = nothing_loaded();
    loaded.background = Some(entry(BackgroundSource::Path("/usr/share/backgrounds/a.png".to_string())));
    data.load_config_as_user(loaded);
    assert_eq!(data.shader_source, None);
    assert!(matches!(&data.background_entry.as_ref().unwrap().source, BackgroundSource::Path(p) if p == "/usr/share/backgrounds/a.png"));
}

#[test]
fn shader_of_each_source() {
    assert_eq!(shader_of::<Plain>(&BackgroundSource::Shader("s".to_string())), Some("s".to_string()));
    assert_eq!(shader_of::<Plain>(&BackgroundSource::Color(1)), None);
    assert_eq!(shader_of::<Plain>(&BackgroundSource::Path("/p".to_string())), None);
}

#[test]
fn joining_paths() {
    assert_eq!(
        output_config_path(Some("/state/".to_string())),
        Some("/state/cosmic-comp/outputs.ron".to_string())
    );
    assert_eq!(output_config_path(Some(String::new())), Some("cosmic-comp/outputs.ron".to_string()));
    let data: UserData<Plain> = UserData::from_passwd(passwd("/etc/shadow", None));
    assert_eq!(data.icon_path(), "/etc/shadow");
    let data: UserData<Plain> = UserData::from_passwd(passwd("a/../b", None));
    assert_eq!(data.icon_path(), "/var/lib/AccountsService/icons/a/../b");
}
