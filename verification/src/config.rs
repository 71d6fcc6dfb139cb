//! The tool catalogue: which tools each profile offers.
//!
//! The catalogue is a plain value. Reading it from and writing it to disk is
//! the caller's business; this module fixes the built-in catalogue, the way a
//! customized list replaces the stored one, and what loading has to do with
//! whatever the caller found on disk.

use crate::stage::{Stage, StageView};
use crate::tools::{copy_tools, tool_list, ToolNames};
use vstd::prelude::*;

verus! {

/// The stages of the full profile, one list of tools each.
#[derive(Debug, PartialEq, Eq)]
pub struct FullConfig {
    pub languages: Vec<String>,
    pub text_editors: Vec<String>,
    pub frameworks: Vec<String>,
    pub networking_tools: Vec<String>,
    pub utilities: Vec<String>,
    pub extras: Vec<String>,
}

/// The whole catalogue: the basic list, the full profile's stages and the
/// list the user entered for the customized profile.
#[derive(Debug, PartialEq, Eq)]
pub struct Config {
    pub basic: Vec<String>,
    pub full: FullConfig,
    pub customized: Vec<String>,
}

/// Mathematical model of a [`FullConfig`].
pub struct FullConfigView {
    pub languages: ToolNames,
    pub text_editors: ToolNames,
    pub frameworks: ToolNames,
    pub networking_tools: ToolNames,
    pub utilities: ToolNames,
    pub extras: ToolNames,
}

/// Mathematical model of a [`Config`].
pub struct ConfigView {
    pub basic: ToolNames,
    pub full: FullConfigView,
    pub customized: ToolNames,
}

impl View for FullConfig {
    type V = FullConfigView;

    open spec fn view(&self) -> FullConfigView {
        FullConfigView {
            languages: self.languages.deep_view(),
            text_editors: self.text_editors.deep_view(),
            frameworks: self.frameworks.deep_view(),
            networking_tools: self.networking_tools.deep_view(),
            utilities: self.utilities.deep_view(),
            extras: self.extras.deep_view(),
        }
    }
}

impl View for Config {
    type V = ConfigView;

    open spec fn view(&self) -> ConfigView {
        ConfigView {
            basic: self.basic.deep_view(),
            full: self.full@,
            customized: self.customized.deep_view(),
        }
    }
}

/// The tools of the basic profile.
pub open spec fn default_basic() -> ToolNames {
    seq![
        "git"@, "curl"@, "tmux"@, "brew"@, "zsh"@, "wget"@, "openssl"@, "ssh"@, "htop"@,
        "bash"@, "tree"@, "grep"@, "sed"@, "jq"@, "ncdu"@, "rsync"@, "findutils"@,
        "coreutils"@, "unzip"@, "zip"@,
    ]
}

/// Programming languages offered by the full profile.
pub open spec fn default_languages() -> ToolNames {
    seq![
        "rust"@, "python"@, "java"@, "go"@, "ruby"@, "node"@, "php"@, "typescript"@, "scala"@,
        "perl"@, "lua"@, "kotlin"@, "haskell"@, "swift"@, "c"@, "c++"@, "c#"@, "dart"@,
        "elixir"@, "groovy"@,
    ]
}

/// Editors and IDEs offered by the full profile.
pub open spec fn default_text_editors() -> ToolNames {
    seq![
        "vscode"@, "vim"@, "sublime-text"@, "emacs"@, "atom"@, "notepad-plus-plus"@, "gedit"@,
        "visual-studio"@, "textmate"@, "nano"@, "jupyter-notebook"@, "eclipse"@,
        "intellij-idea"@, "netbeans"@, "code::blocks"@, "brackets"@, "geany"@, "bluefish"@,
        "kate"@, "kdevelop"@,
    ]
}

/// Application frameworks offered by the full profile.
pub open spec fn default_frameworks() -> ToolNames {
    seq![
        "actix-web"@, "express"@, "django"@, "ruby-on-rails"@, "spring-boot"@, "laravel"@,
        "flask"@, "sinatra"@, "struts"@, "nestjs"@, "koa"@, "ruby-grape"@, "gin"@, "symfony"@,
        "play-framework"@, "sails"@, "phoenix"@, "meteor"@, "django-rest-framework"@,
        "rocket"@,
    ]
}

/// Networking tools offered by the full profile.
pub open spec fn default_networking_tools() -> ToolNames {
    seq![
        "wireshark"@, "nmap"@, "postman"@, "curl"@, "wget"@, "netcat"@, "tcpdump"@, "ping"@,
        "traceroute"@, "sshuttle"@, "ngrok"@, "putty"@, "telnet"@, "FileZilla"@,
        "FileZilla-server"@, "ipconfig"@, "ifconfig"@, "dnsutils"@, "netstat"@, "ssmtp"@,
    ]
}

/// Command-line utilities offered by the full profile.
pub open spec fn default_utilities() -> ToolNames {
    seq![
        "htop"@, "jq"@, "tree"@, "watch"@, "tmux"@, "screen"@, "cron"@, "ffmpeg"@,
        "imagemagick"@, "ncdu"@, "gparted"@, "iotop"@, "lsof"@, "strace"@, "tldr"@, "fd"@,
        "exa"@, "fzf"@, "ripgrep"@, "ag"@,
    ]
}

/// Desktop applications offered by the full profile.
pub open spec fn default_extras() -> ToolNames {
    seq![
        "spotify"@, "slack"@, "docker"@, "telegram"@, "whatsapp"@, "skype"@, "discord"@,
        "zoom"@, "microsoft-teams"@, "virtualbox"@, "vagrant"@, "gimp"@, "inkscape"@,
        "blender"@, "steam"@, "unity"@, "android-studio"@, "xcode"@,
        "visual-studio-code-insiders"@, "teamviewer"@, "obs"@,
    ]
}

/// The built-in catalogue: the seven lists above and no customized tools.
pub open spec fn default_catalogue() -> ConfigView {
    ConfigView {
        basic: default_basic(),
        full: FullConfigView {
            languages: default_languages(),
            text_editors: default_text_editors(),
            frameworks: default_frameworks(),
            networking_tools: default_networking_tools(),
            utilities: default_utilities(),
            extras: default_extras(),
        },
        customized: Seq::empty(),
    }
}

fn builtin_basic() -> (list: Vec<String>)
    ensures
        list.deep_view() == default_basic(),
{
    let list = tool_list(
        &[
            "git", "curl", "tmux", "brew", "zsh", "wget", "openssl", "ssh", "htop", "bash",
            "tree", "grep", "sed", "jq", "ncdu", "rsync", "findutils", "coreutils", "unzip",
            "zip",
        ],
    );
    assert(list.deep_view() =~= default_basic());
    list
}

fn builtin_languages() -> (list: Vec<String>)
    ensures
        list.deep_view() == default_languages(),
{
    let list = tool_list(
        &[
            "rust", "python", "java", "go", "ruby", "node", "php", "typescript", "scala",
            "perl", "lua", "kotlin", "haskell", "swift", "c", "c++", "c#", "dart", "elixir",
            "groovy",
        ],
    );
    assert(list.deep_view() =~= default_languages());
    list
}

fn builtin_text_editors() -> (list: Vec<String>)
    ensures
        list.deep_view() == default_text_editors(),
{
    let list = tool_list(
        &[
            "vscode", "vim", "sublime-text", "emacs", "atom", "notepad-plus-plus", "gedit",
            "visual-studio", "textmate", "nano", "jupyter-notebook", "eclipse",
            "intellij-idea", "netbeans", "code::blocks", "brackets", "geany", "bluefish",
            "kate", "kdevelop",
        ],
    );
    assert(list.deep_view() =~= default_text_editors());
    list
}

fn builtin_frameworks() -> (list: Vec<String>)
    ensures
        list.deep_view() == default_frameworks(),
{
    let list = tool_list(
        &[
            "actix-web", "express", "django", "ruby-on-rails", "spring-boot", "laravel",
            "flask", "sinatra", "struts", "nestjs", "koa", "ruby-grape", "gin", "symfony",
            "play-framework", "sails", "phoenix", "meteor", "django-rest-framework", "rocket",
        ],
    );
    assert(list.deep_view() =~= default_frameworks());
    list
}

fn builtin_networking_tools() -> (list: Vec<String>)
    ensures
        list.deep_view() == default_networking_tools(),
{
    let list = tool_list(
        &[
            "wireshark", "nmap", "postman", "curl", "wget", "netcat", "tcpdump", "ping",
            "traceroute", "sshuttle", "ngrok", "putty", "telnet", "FileZilla",
            "FileZilla-server", "ipconfig", "ifconfig", "dnsutils", "netstat", "ssmtp",
        ],
    );
    assert(list.deep_view() =~= default_networking_tools());
    list
}

fn builtin_utilities() -> (list: Vec<String>)
    ensures
        list.deep_view() == default_utilities(),
{
    let list = tool_list(
        &[
            "htop", "jq", "tree", "watch", "tmux", "screen", "cron", "ffmpeg", "imagemagick",
            "ncdu", "gparted", "iotop", "lsof", "strace", "tldr", "fd", "exa", "fzf",
            "ripgrep", "ag",
        ],
    );
    assert(list.deep_view() =~= default_utilities());
    list
}

fn builtin_extras() -> (list: Vec<String>)
    ensures
        list.deep_view() == default_extras(),
{
    let list = tool_list(
        &[
            "spotify", "slack", "docker", "telegram", "whatsapp", "skype", "discord", "zoom",
            "microsoft-teams", "virtualbox", "vagrant", "gimp", "inkscape", "blender", "steam",
            "unity", "android-studio", "xcode", "visual-studio-code-insiders", "teamviewer",
            "obs",
        ],
    );
    assert(list.deep_view() =~= default_extras());
    list
}

impl Config {
    /// The built-in catalogue.
    pub fn default() -> (config: Config)
        ensures
            config@ == default_catalogue(),
    {
        let customized: Vec<String> = Vec::new();
        assert(customized.deep_view() =~= Seq::<Seq<char>>::empty());
        Config {
            basic: builtin_basic(),
            full: FullConfig {
                languages: builtin_languages(),
                text_editors: builtin_text_editors(),
                frameworks: builtin_frameworks(),
                networking_tools: builtin_networking_tools(),
                utilities: builtin_utilities(),
                extras: builtin_extras(),
            },
            customized,
        }
    }

    /// Replaces the customized list by `tools`; the other lists stay as
    /// they are.
    pub fn update_customized(&mut self, tools: &[String])
        ensures
            final(self)@ == (ConfigView { customized: tools.deep_view(), ..old(self)@ }),
    {
        self.customized = copy_tools(tools);
    }
}

/// The number of stages of the full profile.
pub const STAGE_COUNT: usize = 6;

/// The name of the stage at `position` of the full profile.
pub open spec fn stage_name(position: int) -> Seq<char> {
    if position == 0 {
        "Languages"@
    } else if position == 1 {
        "Text Editors"@
    } else if position == 2 {
        "Frameworks"@
    } else if position == 3 {
        "Networking Tools"@
    } else if position == 4 {
        "Utilities"@
    } else {
        "Extras"@
    }
}

/// The tools of the stage at `position` of the full profile.
pub open spec fn stage_tools(full: FullConfigView, position: int) -> ToolNames {
    if position == 0 {
        full.languages
    } else if position == 1 {
        full.text_editors
    } else if position == 2 {
        full.frameworks
    } else if position == 3 {
        full.networking_tools
    } else if position == 4 {
        full.utilities
    } else {
        full.extras
    }
}

/// The stage at `position` of the full profile, for the positions from 0
/// up to, and not including, [`STAGE_COUNT`].
pub open spec fn full_stage(config: ConfigView, position: int) -> StageView {
    StageView { name: stage_name(position), tools: stage_tools(config.full, position) }
}

impl Config {
    /// The stage at `position` of the full profile: the stages are
    /// languages, text editors, frameworks, networking tools, utilities and
    /// extras, in this order. There is none from [`STAGE_COUNT`] on.
    pub fn stage(&self, position: usize) -> (stage: Option<Stage>)
        ensures
            match stage {
                Some(found) => position < STAGE_COUNT && found@ == full_stage(
                    self@,
                    position as int,
                ),
                None => position >= STAGE_COUNT,
            },
    {
        if position == 0 {
            Some(
                Stage {
                    name: "Languages".to_owned(),
                    tools: copy_tools(self.full.languages.as_slice()),
                },
            )
        } else if position == 1 {
            Some(
                Stage {
                    name: "Text Editors".to_owned(),
                    tools: copy_tools(self.full.text_editors.as_slice()),
                },
            )
        } else if position == 2 {
            Some(
                Stage {
                    name: "Frameworks".to_owned(),
                    tools: copy_tools(self.full.frameworks.as_slice()),
                },
            )
        } else if position == 3 {
            Some(
                Stage {
                    name: "Networking Tools".to_owned(),
                    tools: copy_tools(self.full.networking_tools.as_slice()),
                },
            )
        } else if position == 4 {
            Some(
                Stage {
                    name: "Utilities".to_owned(),
                    tools: copy_tools(self.full.utilities.as_slice()),
                },
            )
        } else if position == 5 {
            Some(
                Stage { name: "Extras".to_owned(), tools: copy_tools(self.full.extras.as_slice()) },
            )
        } else {
            None
        }
    }
}

/// Where a stored value lives below the user's home directory: a
/// directory there and a file in it.
#[derive(Debug, PartialEq, Eq)]
pub struct StoreLocation {
    pub directory: String,
    pub file: String,
}

/// What the caller found in the file of a stored value.
#[derive(Debug, PartialEq, Eq)]
pub enum Stored<T> {
    /// There is no file.
    Missing,
    /// There is a file, but it cannot be read or does not hold a value;
    /// the text says why.
    Unreadable(String),
    /// The file holds this value.
    Found(T),
}

/// A stored value could not be read; the text says why.
#[derive(Debug, PartialEq, Eq)]
pub struct ConfigError {
    pub reason: String,
}

/// What loading comes to: the value to work with and what the caller has
/// to do on disk.
#[derive(Debug, PartialEq, Eq)]
pub struct Loaded<T> {
    /// The value that was loaded or made.
    pub value: T,
    /// Whether the directory has to be created.
    pub create_directory: bool,
    /// Whether the value has to be written to its file.
    pub store: bool,
}

impl Config {
    /// Where the catalogue is stored: `.DevQuickSetup/config.json` below
    /// the home directory.
    pub fn location() -> (location: StoreLocation)
        ensures
            location.directory@ == ".DevQuickSetup"@,
            location.file@ == "config.json"@,
    {
        StoreLocation { directory: ".DevQuickSetup".to_owned(), file: "config.json".to_owned() }
    }

    /// Decides what loading the catalogue comes to, given what the caller
    /// found in the file. A stored catalogue is taken as it is and nothing
    /// on disk is touched: loading never discards what was stored. Without
    /// a file, the built-in catalogue is taken and has to be written. A
    /// file that cannot be read is an error, and nothing is to be done on
    /// disk. Otherwise the directory has to be created exactly if it is
    /// missing.
    pub fn load(directory_exists: bool, stored: Stored<Config>) -> (loaded: Result<
        Loaded<Config>,
        ConfigError,
    >)
        ensures
            match stored {
                Stored::Found(found) => loaded == Ok::<Loaded<Config>, ConfigError>(
                    Loaded { value: found, create_directory: !directory_exists, store: false },
                ),
                Stored::Missing => loaded matches Ok(made) && made.value@ == default_catalogue()
                    && made.create_directory == !directory_exists && made.store,
                Stored::Unreadable(reason) => loaded == Err::<Loaded<Config>, ConfigError>(
                    ConfigError { reason },
                ),
            },
    {
        match stored {
            Stored::Found(found) => Ok(
                Loaded { value: found, create_directory: !directory_exists, store: false },
            ),
            Stored::Missing => Ok(
                Loaded {
                    value: Config::default(),
                    create_directory: !directory_exists,
                    store: true,
                },
            ),
            Stored::Unreadable(reason) => Err(ConfigError { reason }),
        }
    }
}

} // verus!
