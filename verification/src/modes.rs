//! The program's modes and their options, as plain values.
use vstd::prelude::*;
use crate::command_mode::SearchContext;

verus! {

/// Where a configuration is exported to or imported from.
#[derive(Clone, Copy, Debug, PartialEq, Eq, Structural)]
pub enum ConfigDestination {
    Slipstream,
    Opml,
    List,
}

/// What the configuration mode does.
#[derive(Debug)]
pub enum ConfigMode {
    /// Checks the configuration.
    Verify,
    /// Exports the configuration.
    Export { config_type: ConfigDestination, out_file: String },
    /// Imports feeds into the configuration.
    Import { in_type: ConfigDestination, in_file: String, out_file: String },
}

/// The utility modes.
#[derive(Debug)]
pub enum UtilMode {
    Config { config_mode: ConfigMode },
    Export { search: SearchContext },
}

/// How fetched entries are written.
#[derive(Debug, PartialEq, Eq)]
pub enum FetchOutputFormat {
    Json,
    Toml,
    Markdown,
    /// A template, by name.
    Custom(String),
}

impl FetchOutputFormat {
    /// JSON by default.
    pub fn default() -> (res: FetchOutputFormat)
        ensures
            res == FetchOutputFormat::Json,
    {
        FetchOutputFormat::Json
    }

    /// The output format a name selects.
    pub fn from_name(value: &str) -> (res: FetchOutputFormat)
        ensures
            value@ == "json"@ ==> res == FetchOutputFormat::Json,
            value@ == "toml"@ ==> res == FetchOutputFormat::Toml,
            (value@ == "markdown"@ || value@ == "md"@) ==> res == FetchOutputFormat::Markdown,
            !(value@ == "json"@ || value@ == "toml"@ || value@ == "markdown"@ || value@ == "md"@)
                ==> (res matches FetchOutputFormat::Custom(s) && s@ == value@),
    {
        proof {
            reveal_strlit("json");
            reveal_strlit("toml");
            reveal_strlit("markdown");
            reveal_strlit("md");
            assert("json"@[0] != "toml"@[0]);
            assert("json"@[0] != "markdown"@[0]);
            assert("json"@[0] != "md"@[0]);
            assert("toml"@[0] != "markdown"@[0]);
            assert("toml"@[0] != "md"@[0]);
        }
        let v = crate::text::owned(value);
        if crate::commands::same_text(&v, "json") {
            FetchOutputFormat::Json
        } else if crate::commands::same_text(&v, "toml") {
            FetchOutputFormat::Toml
        } else if crate::commands::same_text(&v, "markdown") || crate::commands::same_text(&v, "md") {
            FetchOutputFormat::Markdown
        } else {
            FetchOutputFormat::Custom(v)
        }
    }
}

} // verus!
