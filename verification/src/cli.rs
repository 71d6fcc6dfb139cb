//! The choices a user makes when starting the tool.

use vstd::prelude::*;

verus! {

/// The profile to set up.
#[derive(Copy, Clone, Debug, PartialEq, Eq, Structural)]
pub enum SetupType {
    /// One fixed list of tools, all of them.
    Basic,
    /// Several named stages, each of which may be narrowed.
    Full,
    /// A list of tools that the user enters.
    Customized,
}

/// The arguments of the command line.
#[derive(Debug, PartialEq, Eq)]
pub struct CliArgs {
    pub setup_type: SetupType,
    pub config_file: String,
}

/// The profile behind the entry at `index` of the start menu, whose
/// entries are basic, full and customized, in this order.
pub open spec fn menu_entry(index: int) -> Option<SetupType> {
    if index == 0 {
        Some(SetupType::Basic)
    } else if index == 1 {
        Some(SetupType::Full)
    } else if index == 2 {
        Some(SetupType::Customized)
    } else {
        None
    }
}

impl SetupType {
    /// The profile behind an entry of the start menu.
    pub fn from_index(index: usize) -> (choice: Option<SetupType>)
        ensures
            choice == menu_entry(index as int),
    {
        if index == 0 {
            Some(SetupType::Basic)
        } else if index == 1 {
            Some(SetupType::Full)
        } else if index == 2 {
            Some(SetupType::Customized)
        } else {
            None
        }
    }

    /// The position of the profile in the start menu.
    pub fn index(self) -> (index: usize)
        ensures
            menu_entry(index as int) == Some(self),
    {
        match self {
            SetupType::Basic => 0,
            SetupType::Full => 1,
            SetupType::Customized => 2,
        }
    }

    /// The name under which the start menu offers the profile.
    pub fn label(self) -> (label: String)
        ensures
            label@ == match self {
                SetupType::Basic => "Basic"@,
                SetupType::Full => "Full"@,
                SetupType::Customized => "Customized"@,
            },
    {
        match self {
            SetupType::Basic => "Basic".to_owned(),
            SetupType::Full => "Full".to_owned(),
            SetupType::Customized => "Customized".to_owned(),
        }
    }
}

impl Default for CliArgs {
    /// The arguments of a command line that gives none: the basic profile
    /// and the file `config.json`.
    fn default() -> (args: CliArgs)
        ensures
            args.setup_type == SetupType::Basic,
            args.config_file@ == "config.json"@,
    {
        CliArgs { setup_type: SetupType::Basic, config_file: "config.json".to_owned() }
    }
}

} // verus!
