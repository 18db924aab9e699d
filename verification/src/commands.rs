//! The commands that only read or change what is saved.

use vstd::prelude::*;
use vstd::string::*;
use crate::detection;
use crate::detection::Detection;
use crate::domain;
use crate::domain::{
    Config, NameError, RateLimitSnapshot, RoutingMode, State, StateModel,
};
use crate::keychain::Keychain;
use crate::names;
use crate::program::Product;
use crate::switcher;
use crate::switcher::{Switch, SwitchError, SwitchOptions};
use crate::text;
use crate::util;

verus! {

/// Why a command is not carried out. `T` is the type of text: `String` in
/// values, `Seq<char>` in contracts.
#[derive(Debug)]
pub enum CommandError<T> {
    /// The name that was given is none.
    BadName(NameError),
    Switch(SwitchError<T>),
    /// There is no account to go back to.
    NoPrevious,
    /// The account to go back to is not saved.
    PreviousNotSaved { name: T },
    /// The account in use cannot be removed.
    InUse,
    /// There is no such account.
    NotSaved { name: T },
    /// The threshold is no percentage.
    AlertOutOfRange,
}

impl View for CommandError<String> {
    type V = CommandError<Seq<char>>;

    open spec fn view(&self) -> CommandError<Seq<char>> {
        match *self {
            CommandError::BadName(error) => CommandError::BadName(error),
            CommandError::Switch(error) => CommandError::Switch(error@),
            CommandError::NoPrevious => CommandError::NoPrevious,
            CommandError::PreviousNotSaved { name } => CommandError::PreviousNotSaved {
                name: name@,
            },
            CommandError::InUse => CommandError::InUse,
            CommandError::NotSaved { name } => CommandError::NotSaved { name: name@ },
            CommandError::AlertOutOfRange => CommandError::AlertOutOfRange,
        }
    }
}

/// What a program calls a saved account.
pub open spec fn subject_of(product: Product) -> Seq<char> {
    match product {
        Product::QuotaRouter => "account"@,
        Product::PlanSwap => "plan"@,
    }
}

/// What a program calls a saved account.
pub fn subject(product: Product) -> (r: &'static str)
    ensures
        r@ == subject_of(product),
{
    match product {
        Product::QuotaRouter => "account",
        Product::PlanSwap => "plan",
    }
}

/// The text that reports an error.
pub open spec fn error_text(error: CommandError<Seq<char>>, product: Product) -> Option<Seq<char>> {
    match error {
        CommandError::BadName(error) => Some(domain::name_error_text(error, subject_of(product))),
        CommandError::Switch(error) => switcher::error_text(error),
        CommandError::NoPrevious => Some("no previous plan recorded"@),
        CommandError::PreviousNotSaved { name } => Some("previous plan is not saved: "@ + name),
        CommandError::InUse => Some(
            "cannot remove the current plan; switch to another plan first"@,
        ),
        CommandError::NotSaved { name } => Some("plan is not saved: "@ + name),
        CommandError::AlertOutOfRange => Some("--alert-at must be between 0 and 100"@),
    }
}

impl CommandError<String> {
    /// The text that reports the error.
    pub fn message(&self, product: Product) -> (r: Option<String>)
        ensures
            text::text_of(r) == error_text(self@, product),
    {
        match self {
            CommandError::BadName(error) => Some(error.message(subject(product))),
            CommandError::Switch(error) => error.message(),
            CommandError::NoPrevious => Some("no previous plan recorded".to_owned()),
            CommandError::PreviousNotSaved { name } => {
                let mut r = "previous plan is not saved: ".to_owned();
                r.append(name.as_str());
                Some(r)
            },
            CommandError::InUse => Some(
                "cannot remove the current plan; switch to another plan first".to_owned(),
            ),
            CommandError::NotSaved { name } => {
                let mut r = "plan is not saved: ".to_owned();
                r.append(name.as_str());
                Some(r)
            },
            CommandError::AlertOutOfRange => Some(
                "--alert-at must be between 0 and 100".to_owned(),
            ),
        }
    }
}

/// Begin a switch to the saved account `name`, to be reported.
pub fn cmd_switch(keychain: Keychain, state: &State, name: &str, yes: bool) -> (r: Result<
    Switch<String>,
    SwitchError<String>,
>)
    ensures
        match r {
            Ok(switch) => state@.accounts.contains_key(name@) && switch@ == switcher::begun(
                keychain,
                state@,
                name@,
                yes,
            ) && switcher::coherent(switch@),
            Err(error) => !state@.accounts.contains_key(name@) && error@ == (
            SwitchError::NotSaved { name: name@ }),
        },
{
    switcher::switch_to(keychain, state, name, SwitchOptions { yes, emit: true })
}

/// Where going back leads: to the account that was in use before, if it is
/// saved.
pub open spec fn way_back(state: StateModel) -> Result<Seq<char>, CommandError<Seq<char>>> {
    match state.previous {
        Some(previous) => if state.accounts.contains_key(previous) {
            Ok(previous)
        } else {
            Err(CommandError::PreviousNotSaved { name: previous })
        },
        None => Err(CommandError::NoPrevious),
    }
}

/// Where going back leads.
pub fn previous_saved(state: &State) -> (r: Result<&str, CommandError<String>>)
    ensures
        match r {
            Ok(name) => way_back(state@) == Ok::<Seq<char>, CommandError<Seq<char>>>(name@),
            Err(error) => way_back(state@) == Err::<Seq<char>, CommandError<Seq<char>>>(error@),
        },
{
    match &state.previous_account {
        Some(previous) => if state.accounts.contains(previous.as_str()) {
            Ok(previous.as_str())
        } else {
            Err(CommandError::PreviousNotSaved { name: previous.clone() })
        },
        None => Err(CommandError::NoPrevious),
    }
}

/// Begin a switch to the account that was in use before.
pub fn cmd_toggle(keychain: Keychain, state: &State, yes: bool) -> (r: Result<
    Switch<String>,
    CommandError<String>,
>)
    ensures
        match r {
            Ok(switch) => way_back(state@) is Ok && switch@ == switcher::begun(
                keychain,
                state@,
                way_back(state@)->Ok_0,
                yes,
            ) && switcher::coherent(switch@),
            Err(error) => way_back(state@) == Err::<Seq<char>, CommandError<Seq<char>>>(error@),
        },
{
    match previous_saved(state) {
        Ok(previous) => match cmd_switch(keychain, state, previous, yes) {
            Ok(switch) => Ok(switch),
            Err(error) => Err(CommandError::Switch(error)),
        },
        Err(error) => Err(error),
    }
}

/// The line that lists an account.
pub open spec fn list_line(state: StateModel, name: Seq<char>) -> Seq<char> {
    (if state.current == Some(name) {
        "*"@
    } else {
        " "@
    }) + " "@ + name + "\t"@ + domain::kind_text(state.accounts[name].kind)
}

/// The lines that list the accounts with the given names.
pub open spec fn list_lines(state: StateModel, listed: Seq<Seq<char>>) -> Seq<Seq<char>> {
    if listed.len() == 0 {
        seq!["no plans saved"@]
    } else {
        listed.map_values(|name: Seq<char>| list_line(state, name))
    }
}

/// List the saved accounts in name order, with a mark at the one in use.
pub fn cmd_list(state: &State) -> (r: Vec<String>)
    ensures
        names::is_listing(state.accounts.names(), state@.accounts),
        text::texts(r@) == list_lines(state@, state.accounts.names()),
{
    let mut r: Vec<String> = Vec::new();
    let count: usize = state.accounts.len();
    let ghost listed = state.accounts.names();
    if count == 0 {
        r.push("no plans saved".to_owned());
        assert(text::texts(r@) =~= list_lines(state@, listed));
        return r;
    }
    let mut at: usize = 0;
    while at < count
        invariant
            at <= count == listed.len(),
            listed == state.accounts.names(),
            r@.len() == at,
            forall|i: int| 0 <= i < at ==> (#[trigger] r@[i])@ == list_line(state@, listed[i]),
        decreases count - at,
    {
        let (name, entry) = state.accounts.entry(at);
        let current = match &state.current_account {
            Some(current) => text::same_text(current.as_str(), name),
            None => false,
        };
        let mut line = if current {
            "*".to_owned()
        } else {
            " ".to_owned()
        };
        line.append(" ");
        line.append(name);
        line.append("\t");
        line.append(entry.kind.as_str());
        r.push(line);
        at += 1;
    }
    assert(text::texts(r@) =~= list_lines(state@, listed));
    r
}

/// Why an account cannot be removed, if so.
pub open spec fn removal_error(state: StateModel, name: Seq<char>) -> Option<
    CommandError<Seq<char>>,
> {
    if state.current == Some(name) {
        Some(CommandError::InUse)
    } else if !state.accounts.contains_key(name) {
        Some(CommandError::NotSaved { name })
    } else {
        None
    }
}

/// The state without an account.
pub open spec fn removed(state: StateModel, name: Seq<char>) -> StateModel {
    StateModel {
        previous: if state.previous == Some(name) {
            None
        } else {
            state.previous
        },
        accounts: state.accounts.remove(name),
        ..state
    }
}

/// Remove a saved account that is not in use. Its credential is then to be
/// deleted from the Keychain. Gives what to report.
pub fn cmd_remove(state: &mut State, name: &str) -> (r: Result<String, CommandError<String>>)
    ensures
        match r {
            Ok(line) => {
                &&& removal_error(old(state)@, name@) is None
                &&& final(state)@ == removed(old(state)@, name@)
                &&& line@ == "removed plan: "@ + name@
            },
            Err(error) => {
                &&& removal_error(old(state)@, name@) == Some(error@)
                &&& final(state)@ == old(state)@
            },
        },
{
    let current = match &state.current_account {
        Some(current) => text::same_text(current.as_str(), name),
        None => false,
    };
    if current {
        return Err(CommandError::InUse);
    }
    if !state.accounts.contains(name) {
        return Err(CommandError::NotSaved { name: name.to_owned() });
    }
    state.accounts.remove(name);
    let previous = match &state.previous_account {
        Some(previous) => text::same_text(previous.as_str(), name),
        None => false,
    };
    if previous {
        state.previous_account = None;
    }
    let mut line = "removed plan: ".to_owned();
    line.append(name);
    Ok(line)
}

/// Which account is in use, as far as the state says.
#[derive(Debug)]
pub enum Current {
    Known(String),
    /// The state does not say: the Keychain has to be asked.
    Ask(Detection),
}

/// Which account is in use.
pub fn cmd_current(keychain: Keychain, state: &State) -> (r: Current)
    ensures
        match r {
            Current::Known(name) => state@.current == Some(name@),
            Current::Ask(detection) => {
                &&& state@.current is None
                &&& detection@ == detection::begun(keychain, state@, state.accounts.names())
                &&& names::is_listing(state.accounts.names(), state@.accounts)
                &&& detection::coherent(detection@)
            },
        },
{
    match &state.current_account {
        Some(current) => Current::Known(current.clone()),
        None => Current::Ask(detection::detect_current_plan_by_credential(keychain, state)),
    }
}

/// The text of an optional string, or a word that stands for none.
pub open spec fn or_word(text: Option<Seq<char>>, word: Seq<char>) -> Seq<char> {
    match text {
        Some(text) => text,
        None => word,
    }
}

fn labelled(label: &str, value: &Option<String>, word: &str) -> (r: String)
    ensures
        r@ == label@ + or_word(text::text_of(*value), word@),
{
    let mut r = label.to_owned();
    match value {
        Some(value) => r.append(value.as_str()),
        None => r.append(word),
    }
    r
}

/// The line that shows a quota snapshot.
pub open spec fn quota_line(snapshot: Option<RateLimitSnapshot>) -> Seq<char> {
    match snapshot {
        Some(snapshot) => "quota: 5h="@ + util::shown_share(snapshot.five_hour.used_percentage)
            + " reset="@ + util::shown_time(snapshot.five_hour.resets_at) + " / 7d="@
            + util::shown_share(snapshot.seven_day.used_percentage) + " reset="@
            + util::shown_time(snapshot.seven_day.resets_at),
        None => "quota: none"@,
    }
}

/// The lines that show the state, the settings and the quota. `count` is the
/// number of saved accounts.
pub open spec fn status_lines(
    state: StateModel,
    count: nat,
    config: Config,
    snapshot: Option<RateLimitSnapshot>,
) -> Seq<Seq<char>> {
    seq![
        "current: "@ + or_word(state.current, "unknown"@),
        "previous: "@ + or_word(state.previous, "none"@),
        "active keychain account: "@ + or_word(state.active, "unknown"@),
        "config: alert_at="@ + text::decimal(config.alert_at as nat) + " mode="@
            + domain::mode_text(config.mode),
        "plans: "@ + text::decimal(count),
        quota_line(snapshot),
    ]
}

/// Show the state, the settings and the quota.
pub fn cmd_status(state: &State, config: &Config, snapshot: Option<&RateLimitSnapshot>) -> (r: Vec<
    String,
>)
    ensures
        names::is_listing(state.accounts.names(), state@.accounts),
        text::texts(r@) == status_lines(
            state@,
            state.accounts.names().len(),
            *config,
            crate::statusline::snapshot_in(snapshot),
        ),
{
    let mut r: Vec<String> = Vec::new();
    r.push(labelled("current: ", &state.current_account, "unknown"));
    r.push(labelled("previous: ", &state.previous_account, "none"));
    r.push(labelled("active keychain account: ", &state.active_account, "unknown"));
    let mut line = "config: alert_at=".to_owned();
    line.append(text::show_u64(config.alert_at as u64).as_str());
    line.append(" mode=");
    line.append(config.mode.as_str());
    r.push(line);
    let mut line = "plans: ".to_owned();
    line.append(text::show_u64(state.accounts.len() as u64).as_str());
    r.push(line);
    match snapshot {
        Some(snapshot) => {
            let mut line = "quota: 5h=".to_owned();
            line.append(util::display_pct(snapshot.five_hour.used_percentage).as_str());
            line.append(" reset=");
            line.append(util::display_ts(snapshot.five_hour.resets_at).as_str());
            line.append(" / 7d=");
            line.append(util::display_pct(snapshot.seven_day.used_percentage).as_str());
            line.append(" reset=");
            line.append(util::display_ts(snapshot.seven_day.resets_at).as_str());
            r.push(line);
        },
        None => r.push("quota: none".to_owned()),
    }
    assert(text::texts(r@) =~= status_lines(
        state@,
        state.accounts.names().len(),
        *config,
        crate::statusline::snapshot_in(snapshot),
    ));
    r
}

/// Settings after a change of what is given.
pub open spec fn reconfigured(
    config: Config,
    alert_at: Option<u8>,
    mode: Option<RoutingMode>,
) -> Config {
    Config {
        alert_at: match alert_at {
            Some(alert_at) => alert_at,
            None => config.alert_at,
        },
        mode: match mode {
            Some(mode) => mode,
            None => config.mode,
        },
    }
}

/// Change the settings. A threshold above 100 percent is refused.
pub fn cmd_config(config: &Config, alert_at: Option<u8>, mode: Option<RoutingMode>) -> (r: Result<
    Config,
    CommandError<String>,
>)
    ensures
        match r {
            Ok(changed) => (alert_at matches Some(alert_at) ==> alert_at <= 100) && changed
                == reconfigured(*config, alert_at, mode),
            Err(error) => (alert_at matches Some(alert_at) && alert_at > 100) && error@
                == CommandError::<Seq<char>>::AlertOutOfRange,
        },
{
    let mut changed = *config;
    if let Some(alert_at) = alert_at {
        if alert_at > 100 {
            return Err(CommandError::AlertOutOfRange);
        }
        changed.alert_at = alert_at;
    }
    if let Some(mode) = mode {
        changed.mode = mode;
    }
    Ok(changed)
}

/// The lines that show the settings.
pub open spec fn config_lines(config: Config) -> Seq<Seq<char>> {
    seq![
        "alert_at="@ + text::decimal(config.alert_at as nat),
        "mode="@ + domain::mode_text(config.mode),
    ]
}

/// Show the settings.
pub fn print_config(config: &Config) -> (r: Vec<String>)
    ensures
        text::texts(r@) == config_lines(*config),
{
    let mut r: Vec<String> = Vec::new();
    let mut line = "alert_at=".to_owned();
    line.append(text::show_u64(config.alert_at as u64).as_str());
    r.push(line);
    let mut line = "mode=".to_owned();
    line.append(config.mode.as_str());
    r.push(line);
    assert(text::texts(r@) =~= config_lines(*config));
    r
}

} // verus!
