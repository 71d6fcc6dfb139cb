use dev_quick_setup::cli::{CliArgs, SetupType};
use dev_quick_setup::config::{Config, ConfigError, FullConfig, Stored, STAGE_COUNT};
use dev_quick_setup::global_config::CLIConfig;
use dev_quick_setup::tools::{copy_tools, tool_list};

fn names(list: &[&str]) -> Vec<String> {
    list.iter().map(|s| s.to_string()).collect()
}

#[test]
fn default_basic_list_is_the_built_in_one() {
    let config = Config::default();
    assert_eq!(
        config.basic,
        names(&[
            "git", "curl", "tmux", "brew", "zsh", "wget", "openssl", "ssh", "htop", "bash", "tree",
            "grep", "sed", "jq", "ncdu", "rsync", "findutils", "coreutils", "unzip", "zip",
        ])
    );
}

#[test]
fn default_languages_are_the_built_in_ones() {
    let config = Config::default();
    assert_eq!(
        config.full.languages,
        names(&[
            "rust", "python", "java", "go", "ruby", "node", "php", "typescript", "scala", "perl",
            "lua", "kotlin", "haskell", "swift", "c", "c++", "c#", "dart", "elixir", "groovy",
        ])
    );
}

#[test]
fn default_text_editors_are_the_built_in_ones() {
    let config = Config::default();
    assert_eq!(
        config.full.text_editors,
        names(&[
            "vscode", "vim", "sublime-text", "emacs", "atom", "notepad-plus-plus", "gedit",
            "visual-studio", "textmate", "nano", "jupyter-notebook", "eclipse", "intellij-idea",
            "netbeans", "code::blocks", "brackets", "geany", "bluefish", "kate", "kdevelop",
        ])
    );
}

#[test]
fn default_frameworks_are_the_built_in_ones() {
    let config = Config::default();
    assert_eq!(
        config.full.frameworks,
        names(&[
            "actix-web", "express", "django", "ruby-on-rails", "spring-boot", "laravel", "flask",
            "sinatra", "struts", "nestjs", "koa", "ruby-grape", "gin", "symfony",
            "play-framework", "sails", "phoenix", "meteor", "django-rest-framework", "rocket",
        ])
    );
}

#[test]
fn default_networking_tools_are_the_built_in_ones() {
    let config = Config::default();
    assert_eq!(
        config.full.networking_tools,
        names(&[
            "wireshark", "nmap", "postman", "curl", "wget", "netcat", "tcpdump", "ping",
            "traceroute", "sshuttle", "ngrok", "putty", "telnet", "FileZilla", "FileZilla-server",
            "ipconfig", "ifconfig", "dnsutils", "netstat", "ssmtp",
        ])
    );
}

#[test]
fn default_utilities_are_the_built_in_ones() {
    let config = Config::default();
    assert_eq!(
        config.full.utilities,
        names(&[
            "htop", "jq", "tree", "watch", "tmux", "screen", "cron", "ffmpeg", "imagemagick",
            "ncdu", "gparted", "iotop", "lsof", "strace", "tldr", "fd", "exa", "fzf", "ripgrep",
            "ag",
        ])
    );
}

#[test]
fn default_extras_are_the_built_in_ones() {
    let config = Config::default();
    assert_eq!(
        config.full.extras,
        names(&[
            "spotify", "slack", "docker", "telegram", "whatsapp", "skype", "discord", "zoom",
            "microsoft-teams", "virtualbox", "vagrant", "gimp", "inkscape", "blender", "steam",
            "unity", "android-studio", "xcode", "visual-studio-code-insiders", "teamviewer", "obs",
        ])
    );
}

#[test]
fn default_catalogue_has_no_customized_tools() {
    assert!(Config::default().customized.is_empty());
}

#[test]
fn update_customized_replaces_only_the_customized_list() {
    let mut config = Config::default();
    config.update_customized(&names(&["jq", "fd"]));
    assert_eq!(config.customized, names(&["jq", "fd"]));
    config.update_customized(&names(&["ripgrep"]));
    assert_eq!(config.customized, names(&["ripgrep"]));
    let fresh = Config::default();
    assert_eq!(config.basic, fresh.basic);
    assert_eq!(config.full, fresh.full);
}

#[test]
fn update_customized_with_nothing_empties_the_list() {
    let mut config = Config::default();
    config.update_customized(&names(&["jq"]));
    config.update_customized(&[]);
    assert!(config.customized.is_empty());
}

#[test]
fn update_customized_keeps_duplicates_and_order() {
    let mut config = Config::default();
    config.update_customized(&names(&["b", "a", "b"]));
    assert_eq!(config.customized, names(&["b", "a", "b"]));
}

#[test]
fn full_profile_has_six_stages_in_order() {
    let config = Config::default();
    assert_eq!(STAGE_COUNT, 6);
    let expected = [
        "Languages",
        "Text Editors",
        "Frameworks",
        "Networking Tools",
        "Utilities",
        "Extras",
    ];
    for (position, name) in expected.iter().enumerate() {
        let stage = config.stage(position).unwrap();
        assert_eq!(stage.name, *name);
    }
    assert_eq!(config.stage(0).unwrap().tools, config.full.languages);
    assert_eq!(config.stage(1).unwrap().tools, config.full.text_editors);
    assert_eq!(config.stage(2).unwrap().tools, config.full.frameworks);
    assert_eq!(config.stage(3).unwrap().tools, config.full.networking_tools);
    assert_eq!(config.stage(4).unwrap().tools, config.full.utilities);
    assert_eq!(config.stage(5).unwrap().tools, config.full.extras);
    assert!(config.stage(6).is_none());
    assert!(config.stage(usize::MAX).is_none());
}

fn small_config() -> Config {
    Config {
        basic: names(&["git", "curl"]),
        full: FullConfig {
            languages: names(&["rust", "python"]),
            text_editors: names(&["vim"]),
            frameworks: vec![],
            networking_tools: names(&["nmap"]),
            utilities: names(&["jq"]),
            extras: names(&["docker"]),
        },
        customized: names(&["fd"]),
    }
}

#[test]
fn load_keeps_a_stored_catalogue() {
    let loaded = Config::load(true, Stored::Found(small_config())).unwrap();
    assert_eq!(loaded.value, small_config());
    assert!(!loaded.store);
    assert!(!loaded.create_directory);
}

#[test]
fn load_keeps_a_stored_customized_list() {
    let mut stored = Config::default();
    stored.update_customized(&names(&["jq"]));
    let loaded = Config::load(true, Stored::Found(stored)).unwrap();
    assert_eq!(loaded.value.customized, names(&["jq"]));
    assert!(!loaded.store);
}

#[test]
fn load_without_a_file_takes_the_built_in_catalogue_and_stores_it() {
    let loaded = Config::load(true, Stored::Missing).unwrap();
    assert_eq!(loaded.value, Config::default());
    assert!(loaded.store);
    assert!(!loaded.create_directory);
}

#[test]
fn load_creates_a_missing_directory() {
    let loaded = Config::load(false, Stored::Missing).unwrap();
    assert!(loaded.create_directory);
    assert!(loaded.store);
    let odd = Config::load(false, Stored::Found(small_config())).unwrap();
    assert!(odd.create_directory);
    assert!(!odd.store);
}

#[test]
fn load_fails_on_a_file_that_cannot_be_read() {
    for directory_exists in [true, false] {
        let loaded = Config::load(
            directory_exists,
            Stored::Unreadable("expected value at line 1 column 1".to_string()),
        );
        assert_eq!(
            loaded,
            Err(ConfigError { reason: "expected value at line 1 column 1".to_string() })
        );
    }
}

#[test]
fn catalogue_is_stored_below_the_home_directory() {
    let location = Config::location();
    assert_eq!(location.directory, ".DevQuickSetup");
    assert_eq!(location.file, "config.json");
}

#[test]
fn settings_are_stored_below_the_home_directory() {
    let location = CLIConfig::default_path();
    assert_eq!(location.directory, ".dev_quick_setup");
    assert_eq!(location.file, "cli_config.json");
}

#[test]
fn settings_are_made_with_the_command_name() {
    let loaded = CLIConfig::load_or_init(false, Stored::Missing).unwrap();
    assert_eq!(loaded.value.default_command, "devsetup");
    assert!(loaded.store);
    assert!(loaded.create_directory);
    let again = CLIConfig::load_or_init(true, Stored::Missing).unwrap();
    assert!(!again.create_directory);
    assert!(again.store);
}

#[test]
fn stored_settings_are_kept() {
    let stored = CLIConfig { default_command: "setup".to_string() };
    let loaded = CLIConfig::load_or_init(true, Stored::Found(stored)).unwrap();
    assert_eq!(loaded.value.default_command, "setup");
    assert!(!loaded.store);
    assert!(!loaded.create_directory);
}

#[test]
fn settings_fail_on_a_file_that_cannot_be_read() {
    let loaded = CLIConfig::load_or_init(true, Stored::Unreadable("permission denied".to_string()));
    assert_eq!(loaded, Err(ConfigError { reason: "permission denied".to_string() }));
}

#[test]
fn default_settings_name_no_command() {
    assert_eq!(CLIConfig::default().default_command, "");
}

#[test]
fn start_menu_maps_entries_to_profiles() {
    assert_eq!(SetupType::from_index(0), Some(SetupType::Basic));
    assert_eq!(SetupType::from_index(1), Some(SetupType::Full));
    assert_eq!(SetupType::from_index(2), Some(SetupType::Customized));
    assert_eq!(SetupType::from_index(3), None);
    assert_eq!(SetupType::from_index(usize::MAX), None);
}

#[test]
fn profiles_know_their_menu_entry() {
    for profile in [SetupType::Basic, SetupType::Full, SetupType::Customized] {
        assert_eq!(SetupType::from_index(profile.index()), Some(profile));
    }
    assert_eq!(SetupType::Basic.label(), "Basic");
    assert_eq!(SetupType::Full.label(), "Full");
    assert_eq!(SetupType::Customized.label(), "Customized");
}

#[test]
fn command_line_defaults_to_the_basic_profile() {
    let args = CliArgs::default();
    assert_eq!(args.setup_type, SetupType::Basic);
    assert_eq!(args.config_file, "config.json");
}

#[test]
fn tool_lists_keep_names_and_order() {
    assert_eq!(tool_list(&["git", "curl", "git"]), names(&["git", "curl", "git"]));
    assert!(tool_list(&[]).is_empty());
    let list = names(&["a", "", "b"]);
    assert_eq!(copy_tools(&list), list);
}
