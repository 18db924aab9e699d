//! Saving the login in use under a name.
//!
//! The caller makes the Keychain calls that saving asks for, asks for the kind
//! of the account where it is not given, and hands back what came of it.

use vstd::prelude::*;
use vstd::string::*;
use crate::domain;
use crate::domain::{AccountEntry, AccountKind, NameError, State, StateModel};
use crate::keychain;
use crate::keychain::{Keychain, SecurityCall};
use crate::program;
use crate::program::Client;
use crate::text;

verus! {

/// What the caller is asked for next. `T` is the type of text: `String` in
/// values, `Seq<char>` in contracts.
#[derive(Debug)]
pub enum SetupRequest<T> {
    /// Call the `security` tool.
    Call(SecurityCall<T>),
    /// Find out the kind of the account that the credential belongs to.
    AskKind { credential: T },
    /// Nothing: it is over.
    Nothing,
}

/// What the caller hands back.
#[derive(Debug)]
pub enum SetupReply<T> {
    /// What a call gave.
    Text(T),
    /// The kind that was asked for.
    Kind(AccountKind),
    /// The call failed.
    Failed,
}

/// Why a login is not saved.
#[derive(Debug)]
pub enum SetupError<T> {
    /// The Keychain account in use could not be found out.
    AccountUnknown,
    /// The credential in use could not be read.
    CredentialUnreadable,
    /// The credential could not be saved.
    StoreFailed { name: T },
}

/// How far saving a login has come.
#[derive(Debug)]
pub enum SetupPhase<T> {
    /// The Keychain account in use is being found out.
    Detecting,
    /// The credential in use is being read.
    Reading { account: T },
    /// The kind of the account is being found out.
    Asking { account: T, credential: T },
    /// The credential is being saved.
    Storing { account: T, credential: T, kind: AccountKind },
    Done { account: T, kind: AccountKind },
    Failed(SetupError<T>),
}

/// A login that is being saved.
#[derive(Debug)]
pub struct Setup<T> {
    pub keychain: Keychain,
    pub name: T,
    /// The kind of the account, where it is given.
    pub given: Option<AccountKind>,
    pub phase: SetupPhase<T>,
}

impl View for SetupRequest<String> {
    type V = SetupRequest<Seq<char>>;

    open spec fn view(&self) -> SetupRequest<Seq<char>> {
        match *self {
            SetupRequest::Call(call) => SetupRequest::Call(call@),
            SetupRequest::AskKind { credential } => SetupRequest::AskKind {
                credential: credential@,
            },
            SetupRequest::Nothing => SetupRequest::Nothing,
        }
    }
}

impl View for SetupReply<String> {
    type V = SetupReply<Seq<char>>;

    open spec fn view(&self) -> SetupReply<Seq<char>> {
        match *self {
            SetupReply::Text(text) => SetupReply::Text(text@),
            SetupReply::Kind(kind) => SetupReply::Kind(kind),
            SetupReply::Failed => SetupReply::Failed,
        }
    }
}

impl View for SetupError<String> {
    type V = SetupError<Seq<char>>;

    open spec fn view(&self) -> SetupError<Seq<char>> {
        match *self {
            SetupError::AccountUnknown => SetupError::AccountUnknown,
            SetupError::CredentialUnreadable => SetupError::CredentialUnreadable,
            SetupError::StoreFailed { name } => SetupError::StoreFailed { name: name@ },
        }
    }
}

impl View for SetupPhase<String> {
    type V = SetupPhase<Seq<char>>;

    open spec fn view(&self) -> SetupPhase<Seq<char>> {
        match *self {
            SetupPhase::Detecting => SetupPhase::Detecting,
            SetupPhase::Reading { account } => SetupPhase::Reading { account: account@ },
            SetupPhase::Asking { account, credential } => SetupPhase::Asking {
                account: account@,
                credential: credential@,
            },
            SetupPhase::Storing { account, credential, kind } => SetupPhase::Storing {
                account: account@,
                credential: credential@,
                kind,
            },
            SetupPhase::Done { account, kind } => SetupPhase::Done { account: account@, kind },
            SetupPhase::Failed(error) => SetupPhase::Failed(error@),
        }
    }
}

impl View for Setup<String> {
    type V = Setup<Seq<char>>;

    open spec fn view(&self) -> Setup<Seq<char>> {
        Setup {
            keychain: self.keychain,
            name: self.name@,
            given: self.given,
            phase: self.phase@,
        }
    }
}

/// The text that reports an error. Where the Keychain account is unknown, the
/// Keychain error says it all.
pub open spec fn error_text(error: SetupError<Seq<char>>, client: Client) -> Option<Seq<char>> {
    match error {
        SetupError::AccountUnknown => None,
        SetupError::CredentialUnreadable => Some(
            "failed to read active "@ + program::client_title(client) + " credential from Keychain"@,
        ),
        SetupError::StoreFailed { name } => Some("failed to save plan credential for "@ + name),
    }
}

impl SetupError<String> {
    /// The text that reports the error.
    pub fn message(&self, client: Client) -> (r: Option<String>)
        ensures
            text::text_of(r) == error_text(self@, client),
    {
        match self {
            SetupError::AccountUnknown => None,
            SetupError::CredentialUnreadable => {
                let mut r = "failed to read active ".to_owned();
                r.append(client.title().as_str());
                r.append(" credential from Keychain");
                Some(r)
            },
            SetupError::StoreFailed { name } => {
                let mut r = "failed to save plan credential for ".to_owned();
                r.append(name.as_str());
                Some(r)
            },
        }
    }
}

/// Saving the login in use under `name`, at its start.
pub open spec fn begun(
    keychain: Keychain,
    state: StateModel,
    name: Seq<char>,
    given: Option<AccountKind>,
) -> Setup<Seq<char>> {
    Setup {
        keychain,
        name,
        given,
        phase: match state.active {
            Some(account) => SetupPhase::Reading { account },
            None => SetupPhase::Detecting,
        },
    }
}

/// What saving a login asks for.
pub open spec fn asked(setup: Setup<Seq<char>>) -> SetupRequest<Seq<char>> {
    match setup.phase {
        SetupPhase::Detecting => SetupRequest::Call(
            SecurityCall::Detect { service: keychain::active_service(setup.keychain.program.client) },
        ),
        SetupPhase::Reading { account } => SetupRequest::Call(
            SecurityCall::Read { service: keychain::active_service(setup.keychain.program.client), account },
        ),
        SetupPhase::Asking { account, credential } => SetupRequest::AskKind { credential },
        SetupPhase::Storing { account, credential, kind } => SetupRequest::Call(
            SecurityCall::Upsert {
                service: program::program_name(setup.keychain.program),
                account: keychain::plan_account_of(setup.name),
                credential,
            },
        ),
        SetupPhase::Done { account, kind } => SetupRequest::Nothing,
        SetupPhase::Failed(error) => SetupRequest::Nothing,
    }
}

/// The phase that follows on a reply. A kind that was not given and cannot be
/// found out is another kind.
pub open spec fn next_phase(setup: Setup<Seq<char>>, reply: SetupReply<Seq<char>>) -> SetupPhase<
    Seq<char>,
> {
    match setup.phase {
        SetupPhase::Detecting => match reply {
            SetupReply::Text(account) => SetupPhase::Reading { account },
            _ => SetupPhase::Failed(SetupError::AccountUnknown),
        },
        SetupPhase::Reading { account } => match reply {
            SetupReply::Text(credential) => match setup.given {
                Some(kind) => SetupPhase::Storing { account, credential, kind },
                None => SetupPhase::Asking { account, credential },
            },
            _ => SetupPhase::Failed(SetupError::CredentialUnreadable),
        },
        SetupPhase::Asking { account, credential } => SetupPhase::Storing {
            account,
            credential,
            kind: match reply {
                SetupReply::Kind(kind) => kind,
                _ => AccountKind::Other,
            },
        },
        SetupPhase::Storing { account, credential, kind } => match reply {
            SetupReply::Text(_) => SetupPhase::Done { account, kind },
            _ => SetupPhase::Failed(SetupError::StoreFailed { name: setup.name }),
        },
        SetupPhase::Done { account, kind } => setup.phase,
        SetupPhase::Failed(error) => setup.phase,
    }
}

/// Saving a login after a reply.
pub open spec fn advanced(setup: Setup<Seq<char>>, reply: SetupReply<Seq<char>>) -> Setup<
    Seq<char>,
> {
    Setup { phase: next_phase(setup, reply), ..setup }
}

/// The state with an account saved under `name`, which is then the one in use.
/// An account that was saved before keeps the time at which it was saved first.
pub open spec fn recorded(
    state: StateModel,
    name: Seq<char>,
    account: Seq<char>,
    kind: AccountKind,
    now: u64,
) -> StateModel {
    StateModel {
        active: Some(account),
        current: Some(name),
        previous: state.previous,
        accounts: state.accounts.insert(
            name,
            AccountEntry {
                kind,
                created_at: if state.accounts.contains_key(name) {
                    state.accounts[name].created_at
                } else {
                    now
                },
                updated_at: now,
            },
        ),
    }
}

/// The state that saving a login leaves behind once it is done.
pub open spec fn settled(setup: Setup<Seq<char>>, state: StateModel, now: u64) -> StateModel {
    match setup.phase {
        SetupPhase::Done { account, kind } => recorded(state, setup.name, account, kind, now),
        _ => state,
    }
}

/// Begin to save the login in use under `name`.
pub fn cmd_setup(
    keychain: Keychain,
    state: &State,
    name: &str,
    kind: Option<AccountKind>,
) -> (r: Result<Setup<String>, NameError>)
    ensures
        match r {
            Ok(setup) => domain::name_error(name@) is None && setup@ == begun(
                keychain,
                state@,
                name@,
                kind,
            ),
            Err(error) => domain::name_error(name@) == Some(error),
        },
{
    if let Err(error) = domain::validate_plan_name(name) {
        return Err(error);
    }
    let phase = match &state.active_account {
        Some(account) => SetupPhase::Reading { account: account.clone() },
        None => SetupPhase::Detecting,
    };
    Ok(Setup { keychain, name: name.to_owned(), given: kind, phase })
}

impl Setup<String> {
    /// What saving the login asks for.
    pub fn request(&self) -> (r: SetupRequest<String>)
        ensures
            r@ == asked(self@),
    {
        match &self.phase {
            SetupPhase::Detecting => SetupRequest::Call(self.keychain.detect_active_account()),
            SetupPhase::Reading { account } => SetupRequest::Call(
                self.keychain.read_active(account.as_str()),
            ),
            SetupPhase::Asking { account: _, credential } => SetupRequest::AskKind {
                credential: credential.clone(),
            },
            SetupPhase::Storing { account: _, credential, kind: _ } => SetupRequest::Call(
                self.keychain.upsert_plan(self.name.as_str(), credential.as_str()),
            ),
            SetupPhase::Done { account: _, kind: _ } => SetupRequest::Nothing,
            SetupPhase::Failed(_) => SetupRequest::Nothing,
        }
    }

    /// Saving the login after a reply.
    pub fn advance(self, reply: SetupReply<String>) -> (r: Self)
        ensures
            r@ == advanced(self@, reply@),
    {
        let Setup { keychain, name, given, phase } = self;
        let phase = match phase {
            SetupPhase::Detecting => match reply {
                SetupReply::Text(account) => SetupPhase::Reading { account },
                _ => SetupPhase::Failed(SetupError::AccountUnknown),
            },
            SetupPhase::Reading { account } => match reply {
                SetupReply::Text(credential) => match given {
                    Some(kind) => SetupPhase::Storing { account, credential, kind },
                    None => SetupPhase::Asking { account, credential },
                },
                _ => SetupPhase::Failed(SetupError::CredentialUnreadable),
            },
            SetupPhase::Asking { account, credential } => {
                let kind = match reply {
                    SetupReply::Kind(kind) => kind,
                    _ => AccountKind::Other,
                };
                SetupPhase::Storing { account, credential, kind }
            },
            SetupPhase::Storing { account, credential: _, kind } => match reply {
                SetupReply::Text(_) => SetupPhase::Done { account, kind },
                _ => SetupPhase::Failed(SetupError::StoreFailed { name: name.clone() }),
            },
            SetupPhase::Done { account, kind } => SetupPhase::Done { account, kind },
            SetupPhase::Failed(error) => SetupPhase::Failed(error),
        };
        Setup { keychain, name, given, phase }
    }

    /// Write the outcome into the state, at the time `now`.
    pub fn settle(&self, state: &mut State, now: u64)
        ensures
            final(state)@ == settled(self@, old(state)@, now),
    {
        if let SetupPhase::Done { account, kind } = &self.phase {
            let created_at: u64 = match state.accounts.get(self.name.as_str()) {
                Some(entry) => entry.created_at,
                None => now,
            };
            state.active_account = Some(account.clone());
            state.current_account = Some(self.name.clone());
            state.accounts.insert(
                self.name.clone(),
                AccountEntry { kind: *kind, created_at, updated_at: now },
            );
        }
    }

    /// What to report once the login is saved.
    pub fn report(&self) -> (r: Option<String>)
        ensures
            text::text_of(r) == reported(self@),
    {
        match &self.phase {
            SetupPhase::Done { account: _, kind } => {
                let mut r = "saved plan: ".to_owned();
                r.append(self.name.as_str());
                r.append(" (");
                r.append(kind.as_str());
                r.append(")");
                Some(r)
            },
            _ => None,
        }
    }
}

/// What to report once a login is saved.
pub open spec fn reported(setup: Setup<Seq<char>>) -> Option<Seq<char>> {
    match setup.phase {
        SetupPhase::Done { account, kind } => Some(
            "saved plan: "@ + setup.name + " ("@ + domain::kind_text(kind) + ")"@,
        ),
        _ => None,
    }
}

} // verus!
