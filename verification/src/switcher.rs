//! Switching between accounts.
//!
//! A switch touches the Keychain and the saved state. Its order is fixed here:
//! refresh the saved credential of the account that is left, activate the one of
//! the target, update the state, then reset what is known of the quota. The
//! caller makes the Keychain calls that a switch asks for and hands back what
//! they gave.

use vstd::prelude::*;
use vstd::string::*;
use crate::domain;
use crate::domain::{AccountKind, NameError, RouteLock, State, StateModel};
use crate::keychain;
use crate::keychain::{Keychain, SecurityCall};
use crate::program;
use crate::program::Product;
use crate::text;

verus! {

/// How a switch is made.
#[derive(Clone, Copy, Debug, PartialEq, Eq, Structural)]
pub struct SwitchOptions {
    /// Do not ask for confirmation.
    pub yes: bool,
    /// Report the switch.
    pub emit: bool,
}

/// What the caller is asked for next. `T` is the type of text: `String` in
/// values, `Seq<char>` in contracts.
#[derive(Debug)]
pub enum Request<T> {
    /// Ask the user whether to switch.
    Confirm,
    /// Call the `security` tool.
    Call(SecurityCall<T>),
    /// Nothing: it is over.
    Nothing,
}

/// What the caller hands back.
#[derive(Debug)]
pub enum Reply<T> {
    /// What a call gave, or what the user answered.
    Text(T),
    /// The call failed, or the answer could not be read.
    Failed,
    /// There is nobody to ask.
    NotInteractive,
}

/// Why a switch is not made.
#[derive(Debug)]
pub enum SwitchError<T> {
    /// The target is no saved account.
    NotSaved { name: T },
    /// Nobody could be asked.
    NotInteractive,
    /// The answer could not be read.
    Unanswered,
    /// The user did not agree.
    Cancelled,
    /// The Keychain account in use could not be found out.
    AccountUnknown,
    /// The account that is left has a name that is none.
    BadName(NameError),
    /// The credential of the account that is left could not be saved.
    BackupFailed { name: T },
    /// The credential of the target could not be read.
    TargetUnreadable { name: T },
    /// The credential of the target could not be activated.
    ActivationFailed { name: T },
}

/// How far a switch has come.
#[derive(Debug)]
pub enum Phase<T> {
    Confirming,
    /// The Keychain account in use is being found out.
    Detecting,
    /// The credential in use is being read, to be saved.
    ReadingCurrent { account: T },
    /// It is being saved for the account that is left.
    BackingUp { account: T, credential: T },
    /// The credential of the target is being read.
    ReadingTarget { account: T },
    /// The credential in use is being read, to be compared with it.
    ReadingActive { account: T, credential: T },
    /// The credential of the target is being activated.
    Activating { account: T, credential: T },
    /// It is over; `switched` says whether another credential is in use now.
    Done { account: T, switched: bool },
    Failed(SwitchError<T>),
}

/// A switch under way.
#[derive(Debug)]
pub struct Switch<T> {
    pub keychain: Keychain,
    pub target: T,
    pub kind: AccountKind,
    /// The Keychain account in use, where it is known.
    pub known: Option<T>,
    /// The saved account that is left, unless it is the target.
    pub leaving: Option<T>,
    pub phase: Phase<T>,
}

impl View for Request<String> {
    type V = Request<Seq<char>>;

    open spec fn view(&self) -> Request<Seq<char>> {
        match *self {
            Request::Confirm => Request::Confirm,
            Request::Call(call) => Request::Call(call@),
            Request::Nothing => Request::Nothing,
        }
    }
}

impl View for Reply<String> {
    type V = Reply<Seq<char>>;

    open spec fn view(&self) -> Reply<Seq<char>> {
        match *self {
            Reply::Text(text) => Reply::Text(text@),
            Reply::Failed => Reply::Failed,
            Reply::NotInteractive => Reply::NotInteractive,
        }
    }
}

impl View for SwitchError<String> {
    type V = SwitchError<Seq<char>>;

    open spec fn view(&self) -> SwitchError<Seq<char>> {
        match *self {
            SwitchError::NotSaved { name } => SwitchError::NotSaved { name: name@ },
            SwitchError::NotInteractive => SwitchError::NotInteractive,
            SwitchError::Unanswered => SwitchError::Unanswered,
            SwitchError::Cancelled => SwitchError::Cancelled,
            SwitchError::AccountUnknown => SwitchError::AccountUnknown,
            SwitchError::BadName(error) => SwitchError::BadName(error),
            SwitchError::BackupFailed { name } => SwitchError::BackupFailed { name: name@ },
            SwitchError::TargetUnreadable { name } => SwitchError::TargetUnreadable { name: name@ },
            SwitchError::ActivationFailed { name } => SwitchError::ActivationFailed { name: name@ },
        }
    }
}

impl View for Phase<String> {
    type V = Phase<Seq<char>>;

    open spec fn view(&self) -> Phase<Seq<char>> {
        match *self {
            Phase::Confirming => Phase::Confirming,
            Phase::Detecting => Phase::Detecting,
            Phase::ReadingCurrent { account } => Phase::ReadingCurrent { account: account@ },
            Phase::BackingUp { account, credential } => Phase::BackingUp {
                account: account@,
                credential: credential@,
            },
            Phase::ReadingTarget { account } => Phase::ReadingTarget { account: account@ },
            Phase::ReadingActive { account, credential } => Phase::ReadingActive {
                account: account@,
                credential: credential@,
            },
            Phase::Activating { account, credential } => Phase::Activating {
                account: account@,
                credential: credential@,
            },
            Phase::Done { account, switched } => Phase::Done { account: account@, switched },
            Phase::Failed(error) => Phase::Failed(error@),
        }
    }
}

impl View for Switch<String> {
    type V = Switch<Seq<char>>;

    open spec fn view(&self) -> Switch<Seq<char>> {
        Switch {
            keychain: self.keychain,
            target: self.target@,
            kind: self.kind,
            known: text::text_of(self.known),
            leaving: text::text_of(self.leaving),
            phase: self.phase@,
        }
    }
}

/// The text that reports an error. Where the Keychain account is unknown, the
/// Keychain error says it all.
pub open spec fn error_text(error: SwitchError<Seq<char>>) -> Option<Seq<char>> {
    match error {
        SwitchError::NotSaved { name } => Some("plan is not saved: "@ + name),
        SwitchError::NotInteractive => Some(
            "refusing to switch without confirmation in non-interactive input; pass --yes"@,
        ),
        SwitchError::Unanswered => Some("failed to read confirmation"@),
        SwitchError::Cancelled => Some("cancelled"@),
        SwitchError::AccountUnknown => None,
        SwitchError::BadName(error) => Some(domain::name_error_text(error, "account"@)),
        SwitchError::BackupFailed { name } => Some(
            "failed to update current plan backup for "@ + name,
        ),
        SwitchError::TargetUnreadable { name } => Some(
            "failed to read saved credential for "@ + name,
        ),
        SwitchError::ActivationFailed { name } => Some("failed to activate plan "@ + name),
    }
}

impl SwitchError<String> {
    /// The text that reports the error.
    pub fn message(&self) -> (r: Option<String>)
        ensures
            text::text_of(r) == error_text(self@),
    {
        match self {
            SwitchError::NotSaved { name } => {
                let mut r = "plan is not saved: ".to_owned();
                r.append(name.as_str());
                Some(r)
            },
            SwitchError::NotInteractive => Some(
                "refusing to switch without confirmation in non-interactive input; pass --yes".to_owned(),
            ),
            SwitchError::Unanswered => Some("failed to read confirmation".to_owned()),
            SwitchError::Cancelled => Some("cancelled".to_owned()),
            SwitchError::AccountUnknown => None,
            SwitchError::BadName(error) => Some(error.message("account")),
            SwitchError::BackupFailed { name } => {
                let mut r = "failed to update current plan backup for ".to_owned();
                r.append(name.as_str());
                Some(r)
            },
            SwitchError::TargetUnreadable { name } => {
                let mut r = "failed to read saved credential for ".to_owned();
                r.append(name.as_str());
                Some(r)
            },
            SwitchError::ActivationFailed { name } => {
                let mut r = "failed to activate plan ".to_owned();
                r.append(name.as_str());
                Some(r)
            },
        }
    }
}

/// Whether an answer agrees to a switch.
pub open spec fn agrees(answer: Seq<char>) -> bool {
    let word = text::trim(answer);
    word == "y"@ || word == "Y"@ || word == "yes"@ || word == "YES"@
}

/// Whether a reply to the question whether to switch agrees to it; why not, if
/// not.
pub open spec fn consent(reply: Reply<Seq<char>>) -> Result<(), SwitchError<Seq<char>>> {
    match reply {
        Reply::Text(answer) => if agrees(answer) {
            Ok(())
        } else {
            Err(SwitchError::Cancelled)
        },
        Reply::Failed => Err(SwitchError::Unanswered),
        Reply::NotInteractive => Err(SwitchError::NotInteractive),
    }
}

/// Whether a reply to the question whether to switch agrees to it.
pub fn confirm_switch(reply: &Reply<String>) -> (r: Result<(), SwitchError<String>>)
    ensures
        match r {
            Ok(_) => consent(reply@) is Ok,
            Err(error) => consent(reply@) == Err::<(), SwitchError<Seq<char>>>(error@),
        },
{
    match reply {
        Reply::Text(answer) => {
            let word = text::trimmed(answer.as_str());
            if text::same_text(word.as_str(), "y") || text::same_text(word.as_str(), "Y")
                || text::same_text(word.as_str(), "yes") || text::same_text(word.as_str(), "YES") {
                Ok(())
            } else {
                Err(SwitchError::Cancelled)
            }
        },
        Reply::Failed => Err(SwitchError::Unanswered),
        Reply::NotInteractive => Err(SwitchError::NotInteractive),
    }
}

/// The phase in which the Keychain account in use is known: the credential of
/// the account that is left is saved first, if one is left.
pub open spec fn known_phase(leaving: Option<Seq<char>>, account: Seq<char>) -> Phase<Seq<char>> {
    if leaving is Some {
        Phase::ReadingCurrent { account }
    } else {
        Phase::ReadingTarget { account }
    }
}

/// The phase after the confirmation.
pub open spec fn confirmed_phase(known: Option<Seq<char>>, leaving: Option<Seq<char>>) -> Phase<
    Seq<char>,
> {
    match known {
        Some(account) => known_phase(leaving, account),
        None => Phase::Detecting,
    }
}

/// The saved account that a switch to `name` leaves.
pub open spec fn left_by(state: StateModel, name: Seq<char>) -> Option<Seq<char>> {
    match state.current {
        Some(current) => if current != name && state.accounts.contains_key(current) {
            Some(current)
        } else {
            None
        },
        None => None,
    }
}

/// A switch to `name` at its start.
pub open spec fn begun(
    keychain: Keychain,
    state: StateModel,
    name: Seq<char>,
    yes: bool,
) -> Switch<Seq<char>> {
    let leaving = left_by(state, name);
    Switch {
        keychain,
        target: name,
        kind: state.accounts[name].kind,
        known: state.active,
        leaving,
        phase: if yes {
            confirmed_phase(state.active, leaving)
        } else {
            Phase::Confirming
        },
    }
}

/// What a switch asks for.
pub open spec fn asked(switch: Switch<Seq<char>>) -> Request<Seq<char>> {
    let service = program::program_name(switch.keychain.program);
    match switch.phase {
        Phase::Confirming => Request::Confirm,
        Phase::Detecting => Request::Call(
            SecurityCall::Detect { service: keychain::active_service(switch.keychain.program.client) },
        ),
        Phase::ReadingCurrent { account } => Request::Call(
            SecurityCall::Read { service: keychain::active_service(switch.keychain.program.client), account },
        ),
        Phase::BackingUp { account, credential } => Request::Call(
            SecurityCall::Upsert {
                service,
                account: keychain::plan_account_of(switch.leaving->0),
                credential,
            },
        ),
        Phase::ReadingTarget { account } => Request::Call(
            SecurityCall::Read { service, account: keychain::plan_account_of(switch.target) },
        ),
        Phase::ReadingActive { account, credential } => Request::Call(
            SecurityCall::Read { service: keychain::active_service(switch.keychain.program.client), account },
        ),
        Phase::Activating { account, credential } => Request::Call(
            SecurityCall::Upsert { service: keychain::active_service(switch.keychain.program.client), account, credential },
        ),
        Phase::Done { account, switched } => Request::Nothing,
        Phase::Failed(error) => Request::Nothing,
    }
}

/// The phase that follows on a reply.
pub open spec fn next_phase(switch: Switch<Seq<char>>, reply: Reply<Seq<char>>) -> Phase<
    Seq<char>,
> {
    match switch.phase {
        Phase::Confirming => match consent(reply) {
            Ok(_) => confirmed_phase(switch.known, switch.leaving),
            Err(error) => Phase::Failed(error),
        },
        Phase::Detecting => match reply {
            Reply::Text(account) => known_phase(switch.leaving, account),
            _ => Phase::Failed(SwitchError::AccountUnknown),
        },
        Phase::ReadingCurrent { account } => match reply {
            Reply::Text(credential) => backup_phase(
                switch.keychain,
                switch.leaving->0,
                account,
                credential,
            ),
            _ => Phase::ReadingTarget { account },
        },
        Phase::BackingUp { account, credential } => match reply {
            Reply::Text(_) => Phase::ReadingTarget { account },
            _ => Phase::Failed(SwitchError::BackupFailed { name: switch.leaving->0 }),
        },
        Phase::ReadingTarget { account } => match reply {
            Reply::Text(credential) => Phase::ReadingActive { account, credential },
            _ => Phase::Failed(SwitchError::TargetUnreadable { name: switch.target }),
        },
        Phase::ReadingActive { account, credential } => {
            let active = match reply {
                Reply::Text(active) => active,
                _ => Seq::empty(),
            };
            if active == credential {
                Phase::Done { account, switched: false }
            } else {
                Phase::Activating { account, credential }
            }
        },
        Phase::Activating { account, credential } => match reply {
            Reply::Text(_) => Phase::Done { account, switched: true },
            _ => Phase::Failed(SwitchError::ActivationFailed { name: switch.target }),
        },
        Phase::Done { account, switched } => switch.phase,
        Phase::Failed(error) => switch.phase,
    }
}

/// A switch after a reply.
pub open spec fn advanced(switch: Switch<Seq<char>>, reply: Reply<Seq<char>>) -> Switch<
    Seq<char>,
> {
    Switch { phase: next_phase(switch, reply), ..switch }
}

/// The state that a switch leaves behind once it is done.
pub open spec fn settled(switch: Switch<Seq<char>>, state: StateModel) -> StateModel {
    match switch.phase {
        Phase::Done { account, switched } => StateModel {
            active: Some(account),
            current: Some(switch.target),
            previous: if switched && state.current != Some(switch.target) {
                state.current
            } else {
                state.previous
            },
            accounts: state.accounts,
        },
        _ => state,
    }
}

fn enter_known(leaving: &Option<String>, account: String) -> (r: Phase<String>)
    ensures
        r@ == known_phase(text::text_of(*leaving), account@),
{
    match leaving {
        Some(_) => Phase::ReadingCurrent { account },
        None => Phase::ReadingTarget { account },
    }
}

fn enter_confirmed(known: &Option<String>, leaving: &Option<String>) -> (r: Phase<String>)
    ensures
        r@ == confirmed_phase(text::text_of(*known), text::text_of(*leaving)),
{
    match known {
        Some(account) => enter_known(leaving, account.clone()),
        None => Phase::Detecting,
    }
}

/// Begin a switch to the saved account `name`.
pub fn switch_to(
    keychain: Keychain,
    state: &State,
    name: &str,
    options: SwitchOptions,
) -> (r: Result<Switch<String>, SwitchError<String>>)
    ensures
        match r {
            Ok(switch) => state@.accounts.contains_key(name@) && switch@ == begun(
                keychain,
                state@,
                name@,
                options.yes,
            ) && coherent(switch@),
            Err(error) => !state@.accounts.contains_key(name@) && error@ == (
            SwitchError::NotSaved { name: name@ }),
        },
{
    let kind = match state.accounts.get(name) {
        Some(entry) => entry.kind,
        None => return Err(SwitchError::NotSaved { name: name.to_owned() }),
    };
    let known = state.active_account.clone();
    let leaving = match &state.current_account {
        Some(current) => if !text::same_text(current.as_str(), name) && state.accounts.contains(
            current.as_str(),
        ) {
            Some(current.clone())
        } else {
            None
        },
        None => None,
    };
    let phase = if options.yes {
        enter_confirmed(&known, &leaving)
    } else {
        Phase::Confirming
    };
    Ok(Switch { keychain, target: name.to_owned(), kind, known, leaving, phase })
}

/// The phase that saves the credential in use for the account that is left.
pub open spec fn backup_phase(
    keychain: Keychain,
    leaving: Seq<char>,
    account: Seq<char>,
    credential: Seq<char>,
) -> Phase<Seq<char>> {
    if keychain.program.product == Product::QuotaRouter && domain::name_error(leaving) is Some {
        Phase::Failed(SwitchError::BadName(domain::name_error(leaving)->0))
    } else {
        Phase::BackingUp { account, credential }
    }
}

/// The phase that saves the credential in use for the account that is left. The
/// client may have renewed the credential since it was saved. The quota router
/// holds the name of that account to the rules for names.
pub fn refresh_current_backup(
    keychain: Keychain,
    leaving: &str,
    account: String,
    credential: String,
) -> (r: Phase<String>)
    ensures
        r@ == backup_phase(keychain, leaving@, account@, credential@),
{
    if keychain.program.product.checks_names() {
        if let Err(error) = domain::validate_plan_name(leaving) {
            return Phase::Failed(SwitchError::BadName(error));
        }
    }
    Phase::BackingUp { account, credential }
}

/// Whether the phase fits the rest of a switch: a credential is saved only for
/// an account that is left.
pub open spec fn coherent(switch: Switch<Seq<char>>) -> bool {
    switch.phase is ReadingCurrent || switch.phase is BackingUp ==> switch.leaving is Some
}

impl Switch<String> {
    /// What the switch asks for.
    pub fn request(&self) -> (r: Request<String>)
        requires
            coherent(self@),
        ensures
            r@ == asked(self@),
    {
        match &self.phase {
            Phase::Confirming => Request::Confirm,
            Phase::Detecting => Request::Call(self.keychain.detect_active_account()),
            Phase::ReadingCurrent { account } => Request::Call(
                self.keychain.read_active(account.as_str()),
            ),
            Phase::BackingUp { account: _, credential } => match &self.leaving {
                Some(name) => Request::Call(
                    self.keychain.upsert_plan(name.as_str(), credential.as_str()),
                ),
                None => Request::Nothing,
            },
            Phase::ReadingTarget { account: _ } => Request::Call(
                self.keychain.read_plan(self.target.as_str()),
            ),
            Phase::ReadingActive { account, credential: _ } => Request::Call(
                self.keychain.read_active(account.as_str()),
            ),
            Phase::Activating { account, credential } => Request::Call(
                self.keychain.upsert_active(account.as_str(), credential.as_str()),
            ),
            Phase::Done { account: _, switched: _ } => Request::Nothing,
            Phase::Failed(_) => Request::Nothing,
        }
    }

    /// The question whether to switch.
    pub fn prompt(&self) -> (r: String)
        ensures
            r@ == "switch to "@ + self.target@ + "? [y/N] "@,
    {
        let mut r = "switch to ".to_owned();
        r.append(self.target.as_str());
        r.append("? [y/N] ");
        r
    }

    /// The switch after a reply.
    pub fn advance(self, reply: Reply<String>) -> (r: Self)
        requires
            coherent(self@),
        ensures
            r@ == advanced(self@, reply@),
            coherent(r@),
    {
        let Switch { keychain, target, kind, known, leaving, phase } = self;
        let phase = match phase {
            Phase::Confirming => match confirm_switch(&reply) {
                Ok(_) => enter_confirmed(&known, &leaving),
                Err(error) => Phase::Failed(error),
            },
            Phase::Detecting => match reply {
                Reply::Text(account) => enter_known(&leaving, account),
                _ => Phase::Failed(SwitchError::AccountUnknown),
            },
            Phase::ReadingCurrent { account } => match reply {
                Reply::Text(credential) => match &leaving {
                    Some(name) => refresh_current_backup(
                        keychain,
                        name.as_str(),
                        account,
                        credential,
                    ),
                    None => Phase::ReadingTarget { account },
                },
                _ => Phase::ReadingTarget { account },
            },
            Phase::BackingUp { account, credential: _ } => match reply {
                Reply::Text(_) => Phase::ReadingTarget { account },
                _ => match &leaving {
                    Some(name) => Phase::Failed(SwitchError::BackupFailed { name: name.clone() }),
                    None => Phase::ReadingTarget { account },
                },
            },
            Phase::ReadingTarget { account } => match reply {
                Reply::Text(credential) => Phase::ReadingActive { account, credential },
                _ => Phase::Failed(SwitchError::TargetUnreadable { name: target.clone() }),
            },
            Phase::ReadingActive { account, credential } => {
                let active = match reply {
                    Reply::Text(active) => active,
                    _ => String::new(),
                };
                if active == credential {
                    Phase::Done { account, switched: false }
                } else {
                    Phase::Activating { account, credential }
                }
            },
            Phase::Activating { account, credential: _ } => match reply {
                Reply::Text(_) => Phase::Done { account, switched: true },
                _ => Phase::Failed(SwitchError::ActivationFailed { name: target.clone() }),
            },
            Phase::Done { account, switched } => Phase::Done { account, switched },
            Phase::Failed(error) => Phase::Failed(error),
        };
        Switch { keychain, target, kind, known, leaving, phase }
    }

    /// Write the outcome of the switch into the state.
    pub fn settle(&self, state: &mut State)
        ensures
            final(state)@ == settled(self@, old(state)@),
    {
        if let Phase::Done { account, switched } = &self.phase {
            if *switched {
                let stays = match &state.current_account {
                    Some(current) => text::same_text(current.as_str(), self.target.as_str()),
                    None => false,
                };
                if !stays {
                    state.previous_account = state.current_account.clone();
                }
            }
            state.active_account = Some(account.clone());
            state.current_account = Some(self.target.clone());
        }
    }

    /// What is to be reset once the state is saved.
    pub fn side_effects(&self) -> (r: SideEffects)
        ensures
            r == if self@.phase is Done && self@.phase->switched {
                resets(self.kind)
            } else {
                resets(AccountKind::Other)
            },
    {
        match &self.phase {
            Phase::Done { account: _, switched } => if *switched {
                reset_quota_side_effects(self.kind)
            } else {
                reset_quota_side_effects(AccountKind::Other)
            },
            _ => reset_quota_side_effects(AccountKind::Other),
        }
    }

    /// The route lock that the switch leaves behind. Any other lock is empty.
    pub fn route_lock(&self, state: &State, now: u64) -> (r: Option<RouteLock>)
        ensures
            match r {
                Some(lock) => {
                    &&& lock_left(self@, state@) == Some(lock.source_account@)
                    &&& lock.routed_account@ == self@.target
                    &&& lock.created_at == now
                },
                None => lock_left(self@, state@) is None,
            },
    {
        if !self.side_effects().write_lock {
            return None;
        }
        match &self.leaving {
            Some(left) => match state.accounts.get(left.as_str()) {
                Some(entry) => if entry.kind == AccountKind::Team {
                    Some(
                        RouteLock {
                            source_account: left.clone(),
                            routed_account: self.target.clone(),
                            created_at: now,
                        },
                    )
                } else {
                    None
                },
                None => None,
            },
            None => None,
        }
    }

    /// What to report once the switch is done.
    pub fn report(&self, options: SwitchOptions) -> (r: Vec<String>)
        ensures
            text::texts(r@) == reported(self@, options),
    {
        let mut r: Vec<String> = Vec::new();
        if options.emit {
            if let Phase::Done { account: _, switched } = &self.phase {
                if *switched {
                    let mut line = "switched to plan: ".to_owned();
                    line.append(self.target.as_str());
                    r.push(line);
                    let mut hint = "restart ".to_owned();
                    hint.append(self.keychain.program.client.title().as_str());
                    hint.append(" if the running session does not pick up the new credential");
                    r.push(hint);
                } else {
                    let mut line = "already using plan: ".to_owned();
                    line.append(self.target.as_str());
                    r.push(line);
                }
            }
        }
        assert(text::texts(r@) =~= reported(self@, options));
        r
    }
}

/// The account that the route lock names after a switch: a team account that was
/// left for an enterprise account.
pub open spec fn lock_left(switch: Switch<Seq<char>>, state: StateModel) -> Option<Seq<char>> {
    match switch.leaving {
        Some(left) => if switch.phase is Done && switch.phase->switched && resets(
            switch.kind,
        ).write_lock && state.accounts.contains_key(left) && state.accounts[left].kind
            == AccountKind::Team {
            Some(left)
        } else {
            None
        },
        None => None,
    }
}

/// What to report once a switch is done.
pub open spec fn reported(switch: Switch<Seq<char>>, options: SwitchOptions) -> Seq<Seq<char>> {
    match switch.phase {
        Phase::Done { account, switched } => if !options.emit {
            Seq::empty()
        } else if switched {
            seq![
                "switched to plan: "@ + switch.target,
                "restart "@ + program::client_title(switch.keychain.program.client)
                    + " if the running session does not pick up the new credential"@,
            ]
        } else {
            seq!["already using plan: "@ + switch.target]
        },
        _ => Seq::empty(),
    }
}

/// What happens to the quota markers on disk.
#[derive(Clone, Copy, Debug, PartialEq, Eq, Structural)]
pub struct SideEffects {
    /// Leave the route lock behind.
    pub write_lock: bool,
    pub remove_lock: bool,
    /// Forget the quota snapshot.
    pub remove_snapshot: bool,
    /// Forget which events were notified of.
    pub clear_notified: bool,
}

/// What a switch to an account of a kind resets. A team account starts a new
/// observation of its quota. An enterprise account keeps the snapshot: its
/// statusline counts down to the reset of the team account.
pub open spec fn resets(kind: AccountKind) -> SideEffects {
    SideEffects {
        write_lock: kind == AccountKind::Enterprise,
        remove_lock: kind == AccountKind::Team,
        remove_snapshot: kind == AccountKind::Team,
        clear_notified: kind != AccountKind::Other,
    }
}

/// What a switch to an account of a kind resets.
pub fn reset_quota_side_effects(kind: AccountKind) -> (r: SideEffects)
    ensures
        r == resets(kind),
{
    match kind {
        AccountKind::Enterprise => SideEffects {
            write_lock: true,
            remove_lock: false,
            remove_snapshot: false,
            clear_notified: true,
        },
        AccountKind::Team => SideEffects {
            write_lock: false,
            remove_lock: true,
            remove_snapshot: true,
            clear_notified: true,
        },
        AccountKind::Other => SideEffects {
            write_lock: false,
            remove_lock: false,
            remove_snapshot: false,
            clear_notified: false,
        },
    }
}

} // verus!
