//! Where a program keeps its files.

use vstd::prelude::*;
use vstd::string::*;
use crate::program;
use crate::program::{Client, Program};
use crate::text;

verus! {

/// The path of `name` in the directory `dir`.
pub open spec fn joined(dir: Seq<char>, name: Seq<char>) -> Seq<char> {
    if dir.len() == 0 {
        name
    } else if dir.last() == '/' {
        dir + name
    } else {
        dir + "/"@ + name
    }
}

fn join(dir: &str, name: &str) -> (r: String)
    ensures
        r@ == joined(dir@, name@),
{
    let chars = text::to_chars(dir);
    let mut r = dir.to_owned();
    if chars.len() > 0 && chars[chars.len() - 1] != '/' {
        r.append("/");
    }
    assert(chars@.len() == 0 ==> r@ + name@ =~= name@);
    r.append(name);
    r
}

/// The user's home directory is needed and not known.
#[derive(Clone, Copy, Debug, PartialEq, Eq, Structural)]
pub struct HomeUnset;

impl HomeUnset {
    /// The text that reports the error.
    pub fn message(self) -> (r: &'static str)
        ensures
            r@ == "HOME is not set"@,
    {
        "HOME is not set"
    }
}

/// The directories of a program and of its client.
#[derive(Debug)]
pub struct AppContext {
    pub app_dir: String,
    pub claude_dir: String,
}

/// The directory of a program's files: the one that is set, else one below the
/// home directory.
pub open spec fn app_dir_for(
    program: Program,
    app_home: Option<Seq<char>>,
    home: Option<Seq<char>>,
) -> Option<Seq<char>> {
    match (app_home, home) {
        (Some(dir), _) => Some(dir),
        (None, Some(home)) => Some(
            joined(joined(home, ".config"@), program::program_name(program)),
        ),
        (None, None) => None,
    }
}

/// The directory of a client's files: the one that is set, else one below the
/// home directory.
pub open spec fn claude_dir_for(
    client: Client,
    claude_home: Option<Seq<char>>,
    home: Option<Seq<char>>,
) -> Option<Seq<char>> {
    match (claude_home, home) {
        (Some(dir), _) => Some(dir),
        (None, Some(home)) => Some(joined(home, "."@ + client.command@)),
        (None, None) => None,
    }
}

impl AppContext {
    /// The directories of a program, given those that are set for it and for
    /// its client, and the home directory.
    pub fn new(
        program: Program,
        app_home: Option<String>,
        claude_home: Option<String>,
        home: Option<String>,
    ) -> (r: Result<Self, HomeUnset>)
        ensures
            match r {
                Ok(context) => {
                    &&& app_dir_for(program, text::text_of(app_home), text::text_of(home)) == Some(
                        context.app_dir@,
                    )
                    &&& claude_dir_for(program.client, text::text_of(claude_home), text::text_of(home)) == Some(
                        context.claude_dir@,
                    )
                },
                Err(_) => app_dir_for(program, text::text_of(app_home), text::text_of(home)) is None
                    || claude_dir_for(program.client, text::text_of(claude_home), text::text_of(home)) is None,
            },
    {
        let app_dir = match app_home {
            Some(dir) => dir,
            None => match &home {
                Some(home) => join(join(home.as_str(), ".config").as_str(), program.name().as_str()),
                None => return Err(HomeUnset),
            },
        };
        let claude_dir = match claude_home {
            Some(dir) => dir,
            None => match &home {
                Some(home) => {
                    let mut hidden = ".".to_owned();
                    hidden.append(program.client.command);
                    join(home.as_str(), hidden.as_str())
                },
                None => return Err(HomeUnset),
            },
        };
        Ok(AppContext { app_dir, claude_dir })
    }

    /// The file of the saved state.
    pub fn state_path(&self) -> (r: String)
        ensures
            r@ == joined(self.app_dir@, "state.json"@),
    {
        join(self.app_dir.as_str(), "state.json")
    }

    /// The file of the settings.
    pub fn config_path(&self) -> (r: String)
        ensures
            r@ == joined(self.app_dir@, "config.json"@),
    {
        join(self.app_dir.as_str(), "config.json")
    }

    /// The file of the quota snapshot.
    pub fn rate_limits_path(&self) -> (r: String)
        ensures
            r@ == joined(self.app_dir@, "rate-limits.json"@),
    {
        join(self.app_dir.as_str(), "rate-limits.json")
    }

    /// The file of the events that were notified of.
    pub fn notified_path(&self) -> (r: String)
        ensures
            r@ == joined(self.app_dir@, "notified.json"@),
    {
        join(self.app_dir.as_str(), "notified.json")
    }

    /// The file of the route lock.
    pub fn swap_lock_path(&self) -> (r: String)
        ensures
            r@ == joined(self.app_dir@, "swapped.lock"@),
    {
        join(self.app_dir.as_str(), "swapped.lock")
    }

    /// The file of the statusline command that was wrapped.
    pub fn inner_statusline_path(&self) -> (r: String)
        ensures
            r@ == joined(self.app_dir@, "inner-statusline.txt"@),
    {
        join(self.app_dir.as_str(), "inner-statusline.txt")
    }

    /// The file of the client's settings.
    pub fn settings_path(&self) -> (r: String)
        ensures
            r@ == joined(self.claude_dir@, "settings.json"@),
    {
        join(self.claude_dir.as_str(), "settings.json")
    }
}

} // verus!
