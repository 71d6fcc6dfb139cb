//! What the tool remembers about itself between runs.

use crate::config::{ConfigError, Loaded, StoreLocation, Stored};
use vstd::prelude::*;

verus! {

/// The tool's own settings.
#[derive(Debug, PartialEq, Eq)]
pub struct CLIConfig {
    /// The name under which the tool is called.
    pub default_command: String,
}

impl Default for CLIConfig {
    /// Settings that name no command.
    fn default() -> (config: CLIConfig)
        ensures
            config.default_command@ == Seq::<char>::empty(),
    {
        CLIConfig { default_command: String::new() }
    }
}

impl CLIConfig {
    /// Where the settings are stored: `.dev_quick_setup/cli_config.json`
    /// below the home directory.
    pub fn default_path() -> (location: StoreLocation)
        ensures
            location.directory@ == ".dev_quick_setup"@,
            location.file@ == "cli_config.json"@,
    {
        StoreLocation {
            directory: ".dev_quick_setup".to_owned(),
            file: "cli_config.json".to_owned(),
        }
    }

    /// Decides what loading the settings comes to, given what the caller
    /// found in the file. Stored settings are taken as they are. Without a
    /// file the settings are made anew, with `devsetup` as the command, and
    /// have to be written. A file that cannot be read is an error.
    /// Otherwise the directory has to be created exactly if it is missing.
    pub fn load_or_init(directory_exists: bool, stored: Stored<CLIConfig>) -> (loaded: Result<
        Loaded<CLIConfig>,
        ConfigError,
    >)
        ensures
            match stored {
                Stored::Found(found) => loaded == Ok::<Loaded<CLIConfig>, ConfigError>(
                    Loaded { value: found, create_directory: !directory_exists, store: false },
                ),
                Stored::Missing => loaded matches Ok(made) && made.value.default_command@
                    == "devsetup"@ && made.create_directory == !directory_exists && made.store,
                Stored::Unreadable(reason) => loaded == Err::<Loaded<CLIConfig>, ConfigError>(
                    ConfigError { reason },
                ),
            },
    {
        match stored {
            Stored::Found(found) => Ok(
                Loaded { value: found, create_directory: !directory_exists, store: false },
            ),
            Stored::Missing => Ok(
                Loaded {
                    value: CLIConfig { default_command: "devsetup".to_owned() },
                    create_directory: !directory_exists,
                    store: true,
                },
            ),
            Stored::Unreadable(reason) => Err(ConfigError { reason }),
        }
    }
}

} // verus!
