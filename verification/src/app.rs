//! The commands of a program as a whole.

use vstd::prelude::*;
use vstd::string::*;
use crate::commands;
use crate::commands::{CommandError, Current};
use crate::context::{AppContext, HomeUnset};
use crate::detection;
use crate::domain;
use crate::domain::{
    AccountKind, AccountName, Config, NameError, RateLimitSnapshot, RoutingMode, State, StateModel,
};
use crate::keychain::Keychain;
use crate::names;
use crate::program::{Product, Program};
use crate::setup;
use crate::setup::Setup;
use crate::switcher;
use crate::switcher::{Switch, SwitchError};
use crate::text;

verus! {

/// What a user can ask a program for. `T` is the type of text: `String` in
/// values, `Seq<char>` in contracts.
#[derive(Debug)]
pub enum Commands<T> {
    Setup { name: T, kind: Option<AccountKind> },
    Switch { name: T, yes: bool },
    Toggle { yes: bool },
    List,
    Remove { name: T },
    Current,
    Status,
    Config { alert_at: Option<u8>, mode: Option<RoutingMode> },
    Install,
    Uninstall,
    Statusline,
}

impl View for Commands<String> {
    type V = Commands<Seq<char>>;

    open spec fn view(&self) -> Commands<Seq<char>> {
        match *self {
            Commands::Setup { name, kind } => Commands::Setup { name: name@, kind },
            Commands::Switch { name, yes } => Commands::Switch { name: name@, yes },
            Commands::Toggle { yes } => Commands::Toggle { yes },
            Commands::List => Commands::List,
            Commands::Remove { name } => Commands::Remove { name: name@ },
            Commands::Current => Commands::Current,
            Commands::Status => Commands::Status,
            Commands::Config { alert_at, mode } => Commands::Config { alert_at, mode },
            Commands::Install => Commands::Install,
            Commands::Uninstall => Commands::Uninstall,
            Commands::Statusline => Commands::Statusline,
        }
    }
}

/// What is wrong with `name` to a program that reads it back.
pub open spec fn lookup_error(product: Product, name: Seq<char>) -> Option<NameError> {
    if product == Product::QuotaRouter {
        domain::name_error(name)
    } else {
        None
    }
}

/// Why a command is refused before anything is read, if so: a new name has to be
/// a valid one, and the quota router holds every name to that.
pub open spec fn refusal(product: Product, command: Commands<Seq<char>>) -> Option<NameError> {
    match command {
        Commands::Setup { name, kind } => domain::name_error(name),
        Commands::Switch { name, yes } => lookup_error(product, name),
        Commands::Remove { name } => lookup_error(product, name),
        _ => None,
    }
}

/// A program with its directories and its Keychain.
#[derive(Debug)]
pub struct App {
    pub ctx: AppContext,
    pub keychain: Keychain,
}

impl App {
    /// A program, given the directories that are set for it and for its client,
    /// and the home directory.
    pub fn new(
        program: Program,
        app_home: Option<String>,
        claude_home: Option<String>,
        home: Option<String>,
    ) -> (r: Result<Self, HomeUnset>)
        ensures
            ({
                let app_dir = crate::context::app_dir_for(
                    program,
                    text::text_of(app_home),
                    text::text_of(home),
                );
                let claude_dir = crate::context::claude_dir_for(
                    program.client,
                    text::text_of(claude_home),
                    text::text_of(home),
                );
                match r {
                    Ok(app) => {
                        &&& app_dir == Some(app.ctx.app_dir@)
                        &&& claude_dir == Some(app.ctx.claude_dir@)
                        &&& app.keychain == (Keychain { program })
                    },
                    Err(_) => app_dir is None || claude_dir is None,
                }
            }),
    {
        match AppContext::new(program, app_home, claude_home, home) {
            Ok(ctx) => Ok(App { ctx, keychain: Keychain { program } }),
            Err(error) => Err(error),
        }
    }

    fn check(&self, name: &str) -> (r: Result<(), NameError>)
        ensures
            match r {
                Ok(_) => lookup_error(self.keychain.program.product, name@) is None,
                Err(error) => lookup_error(self.keychain.program.product, name@) == Some(error),
            },
    {
        if self.keychain.program.product.checks_names() {
            match AccountName::parse(name) {
                Ok(_) => Ok(()),
                Err(error) => Err(error),
            }
        } else {
            Ok(())
        }
    }

    /// Let a command through unless a name in it is refused.
    pub fn handle(&self, command: Commands<String>) -> (r: Result<Commands<String>, NameError>)
        ensures
            match r {
                Ok(admitted) => refusal(self.keychain.program.product, command@) is None && admitted@
                    == command@,
                Err(error) => refusal(self.keychain.program.product, command@) == Some(error),
            },
    {
        let checked = match &command {
            Commands::Setup { name, kind: _ } => domain::validate_plan_name(name.as_str()),
            Commands::Switch { name, yes: _ } => self.check(name.as_str()),
            Commands::Remove { name } => self.check(name.as_str()),
            _ => Ok(()),
        };
        match checked {
            Ok(_) => Ok(command),
            Err(error) => Err(error),
        }
    }

    /// Begin to save the login in use under `name`.
    pub fn setup(&self, state: &State, name: &str, kind: Option<AccountKind>) -> (r: Result<
        Setup<String>,
        NameError,
    >)
        ensures
            match r {
                Ok(begun) => domain::name_error(name@) is None && begun@ == setup::begun(
                    self.keychain,
                    state@,
                    name@,
                    kind,
                ),
                Err(error) => domain::name_error(name@) == Some(error),
            },
    {
        setup::cmd_setup(self.keychain, state, name, kind)
    }

    /// Begin a switch to the saved account `name`.
    pub fn switch(&self, state: &State, name: &str, yes: bool) -> (r: Result<
        Switch<String>,
        CommandError<String>,
    >)
        ensures
            match r {
                Ok(begun) => {
                    &&& switch_error(self.keychain.program.product, state@, name@) is None
                    &&& begun@ == switcher::begun(self.keychain, state@, name@, yes)
                    &&& switcher::coherent(begun@)
                },
                Err(error) => switch_error(self.keychain.program.product, state@, name@) == Some(error@),
            },
    {
        if let Err(error) = self.check(name) {
            return Err(CommandError::BadName(error));
        }
        match commands::cmd_switch(self.keychain, state, name, yes) {
            Ok(begun) => Ok(begun),
            Err(error) => Err(CommandError::Switch(error)),
        }
    }

    /// Begin a switch to the account that was in use before.
    pub fn toggle(&self, state: &State, yes: bool) -> (r: Result<
        Switch<String>,
        CommandError<String>,
    >)
        ensures
            match r {
                Ok(begun) => {
                    &&& commands::way_back(state@) is Ok
                    &&& switch_error(
                        self.keychain.program.product,
                        state@,
                        commands::way_back(state@)->Ok_0,
                    ) is None
                    &&& begun@ == switcher::begun(
                        self.keychain,
                        state@,
                        commands::way_back(state@)->Ok_0,
                        yes,
                    )
                    &&& switcher::coherent(begun@)
                },
                Err(error) => match commands::way_back(state@) {
                    Ok(previous) => switch_error(self.keychain.program.product, state@, previous) == Some(
                        error@,
                    ),
                    Err(missing) => error@ == missing,
                },
            },
    {
        match commands::previous_saved(state) {
            Ok(previous) => self.switch(state, previous, yes),
            Err(error) => Err(error),
        }
    }

    /// List the saved accounts.
    pub fn list(&self, state: &State) -> (r: Vec<String>)
        ensures
            names::is_listing(state.accounts.names(), state@.accounts),
            text::texts(r@) == commands::list_lines(state@, state.accounts.names()),
    {
        commands::cmd_list(state)
    }

    /// Remove a saved account that is not in use. Gives what to report.
    pub fn remove(&self, state: &mut State, name: &str) -> (r: Result<String, CommandError<String>>)
        ensures
            ({
                let error = match lookup_error(self.keychain.program.product, name@) {
                    Some(error) => Some(CommandError::BadName(error)),
                    None => commands::removal_error(old(state)@, name@),
                };
                match r {
                    Ok(line) => {
                        &&& error is None
                        &&& final(state)@ == commands::removed(old(state)@, name@)
                        &&& line@ == "removed plan: "@ + name@
                    },
                    Err(found) => error == Some(found@) && final(state)@ == old(state)@,
                }
            }),
    {
        if let Err(error) = self.check(name) {
            return Err(CommandError::BadName(error));
        }
        commands::cmd_remove(state, name)
    }

    /// Which account is in use.
    pub fn current(&self, state: &State) -> (r: Current)
        ensures
            match r {
                Current::Known(name) => state@.current == Some(name@),
                Current::Ask(detection) => {
                    &&& state@.current is None
                    &&& detection@ == detection::begun(
                        self.keychain,
                        state@,
                        state.accounts.names(),
                    )
                    &&& names::is_listing(state.accounts.names(), state@.accounts)
                    &&& detection::coherent(detection@)
                },
            },
    {
        commands::cmd_current(self.keychain, state)
    }

    /// Show the state, the settings and the quota.
    pub fn status(
        &self,
        state: &State,
        config: &Config,
        snapshot: Option<&RateLimitSnapshot>,
    ) -> (r: Vec<String>)
        ensures
            names::is_listing(state.accounts.names(), state@.accounts),
            text::texts(r@) == commands::status_lines(
                state@,
                state.accounts.names().len(),
                *config,
                crate::statusline::snapshot_in(snapshot),
            ),
    {
        commands::cmd_status(state, config, snapshot)
    }

    /// Change the settings.
    pub fn config(&self, config: &Config, alert_at: Option<u8>, mode: Option<RoutingMode>) -> (r:
        Result<Config, CommandError<String>>)
        ensures
            match r {
                Ok(changed) => (alert_at matches Some(alert_at) ==> alert_at <= 100) && changed
                    == commands::reconfigured(*config, alert_at, mode),
                Err(error) => (alert_at matches Some(alert_at) && alert_at > 100) && error@
                    == CommandError::<Seq<char>>::AlertOutOfRange,
            },
    {
        commands::cmd_config(config, alert_at, mode)
    }
}

/// Why a switch to `name` cannot begin, if so.
pub open spec fn switch_error(product: Product, state: StateModel, name: Seq<char>) -> Option<
    CommandError<Seq<char>>,
> {
    match lookup_error(product, name) {
        Some(error) => Some(CommandError::BadName(error)),
        None => if state.accounts.contains_key(name) {
            None
        } else {
            Some(CommandError::Switch(SwitchError::NotSaved { name }))
        },
    }
}

} // verus!
