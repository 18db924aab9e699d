//! Finding out which saved account is in use.
//!
//! Where the state does not say, the credential in use is compared with the
//! saved ones, in name order. The caller makes the Keychain calls.

use vstd::prelude::*;
use vstd::string::*;
use crate::domain;
use crate::domain::{NameError, State, StateModel};
use crate::keychain;
use crate::keychain::{Keychain, SecurityCall};
use crate::names;
use crate::program;
use crate::program::Product;
use crate::switcher::{Reply, Request};
use crate::text;

verus! {

/// How far a detection has come. `T` is the type of text: `String` in values,
/// `Seq<char>` in contracts.
#[derive(Debug)]
pub enum DetectionPhase<T> {
    /// The Keychain account in use is being found out.
    Detecting,
    /// The credential in use is being read.
    ReadingActive { account: T },
    /// The credential saved under the name at position `at` is being read.
    Comparing { account: T, active: T, at: usize },
    Found { account: T, name: T },
    /// No saved credential is in use.
    Unknown,
    /// A Keychain call failed whose result was needed.
    CallFailed,
    /// A saved name is none.
    BadName(NameError),
}

impl View for DetectionPhase<String> {
    type V = DetectionPhase<Seq<char>>;

    open spec fn view(&self) -> DetectionPhase<Seq<char>> {
        match *self {
            DetectionPhase::Detecting => DetectionPhase::Detecting,
            DetectionPhase::ReadingActive { account } => DetectionPhase::ReadingActive {
                account: account@,
            },
            DetectionPhase::Comparing { account, active, at } => DetectionPhase::Comparing {
                account: account@,
                active: active@,
                at,
            },
            DetectionPhase::Found { account, name } => DetectionPhase::Found {
                account: account@,
                name: name@,
            },
            DetectionPhase::Unknown => DetectionPhase::Unknown,
            DetectionPhase::CallFailed => DetectionPhase::CallFailed,
            DetectionPhase::BadName(error) => DetectionPhase::BadName(error),
        }
    }
}

/// A detection under way.
#[derive(Debug)]
pub struct Detection {
    pub keychain: Keychain,
    /// The saved names, in name order.
    pub names: Vec<String>,
    pub phase: DetectionPhase<String>,
}

/// What a detection is.
#[verifier::ext_equal]
pub struct DetectionModel {
    pub keychain: Keychain,
    pub names: Seq<Seq<char>>,
    pub phase: DetectionPhase<Seq<char>>,
}

impl View for Detection {
    type V = DetectionModel;

    open spec fn view(&self) -> DetectionModel {
        DetectionModel {
            keychain: self.keychain,
            names: text::texts(self.names@),
            phase: self.phase@,
        }
    }
}

/// The phase that looks at the name at position `at`, or ends the search there.
pub open spec fn comparing(
    keychain: Keychain,
    names: Seq<Seq<char>>,
    account: Seq<char>,
    active: Seq<char>,
    at: int,
) -> DetectionPhase<Seq<char>> {
    if at >= names.len() {
        DetectionPhase::Unknown
    } else if keychain.program.product == Product::QuotaRouter && domain::name_error(names[at]) is Some {
        DetectionPhase::BadName(domain::name_error(names[at])->0)
    } else {
        DetectionPhase::Comparing { account, active, at: at as usize }
    }
}

/// A detection at its start.
pub open spec fn begun(keychain: Keychain, state: StateModel, names: Seq<Seq<char>>) -> DetectionModel {
    DetectionModel {
        keychain,
        names,
        phase: match state.active {
            Some(account) => DetectionPhase::ReadingActive { account },
            None => DetectionPhase::Detecting,
        },
    }
}

/// Whether the position that a detection looks at is one of a name.
pub open spec fn coherent(detection: DetectionModel) -> bool {
    detection.phase matches DetectionPhase::Comparing { at, .. } ==> at < detection.names.len()
}

/// What a detection asks for.
pub open spec fn asked(detection: DetectionModel) -> Request<Seq<char>> {
    match detection.phase {
        DetectionPhase::Detecting => Request::Call(
            SecurityCall::Detect { service: keychain::active_service(detection.keychain.program.client) },
        ),
        DetectionPhase::ReadingActive { account } => Request::Call(
            SecurityCall::Read { service: keychain::active_service(detection.keychain.program.client), account },
        ),
        DetectionPhase::Comparing { account, active, at } => Request::Call(
            SecurityCall::Read {
                service: program::program_name(detection.keychain.program),
                account: keychain::plan_account_of(detection.names[at as int]),
            },
        ),
        _ => Request::Nothing,
    }
}

/// The phase that follows on a reply.
pub open spec fn next_phase(detection: DetectionModel, reply: Reply<Seq<char>>) -> DetectionPhase<
    Seq<char>,
> {
    match detection.phase {
        DetectionPhase::Detecting => match reply {
            Reply::Text(account) => DetectionPhase::ReadingActive { account },
            _ => DetectionPhase::CallFailed,
        },
        DetectionPhase::ReadingActive { account } => match reply {
            Reply::Text(active) => comparing(
                detection.keychain,
                detection.names,
                account,
                active,
                0,
            ),
            _ => DetectionPhase::CallFailed,
        },
        DetectionPhase::Comparing { account, active, at } => if reply == Reply::Text(active) {
            DetectionPhase::Found { account, name: detection.names[at as int] }
        } else {
            comparing(detection.keychain, detection.names, account, active, at + 1)
        },
        _ => detection.phase,
    }
}

/// A detection after a reply.
pub open spec fn advanced(detection: DetectionModel, reply: Reply<Seq<char>>) -> DetectionModel {
    DetectionModel { phase: next_phase(detection, reply), ..detection }
}

/// The state that a detection leaves behind.
pub open spec fn settled(detection: DetectionModel, state: StateModel) -> StateModel {
    match detection.phase {
        DetectionPhase::Found { account, name } => StateModel {
            active: Some(account),
            current: Some(name),
            ..state
        },
        _ => state,
    }
}

/// Begin to find out which saved account is in use.
pub fn detect_current_plan_by_credential(keychain: Keychain, state: &State) -> (r: Detection)
    ensures
        r@ == begun(keychain, state@, state.accounts.names()),
        names::is_listing(state.accounts.names(), state@.accounts),
        coherent(r@),
{
    let count: usize = state.accounts.len();
    let mut saved: Vec<String> = Vec::new();
    let ghost listed = state.accounts.names();
    let mut at: usize = 0;
    while at < count
        invariant
            at <= count == listed.len(),
            listed == state.accounts.names(),
            text::texts(saved@) == listed.take(at as int),
        decreases count - at,
    {
        let ghost before = saved@;
        saved.push(state.accounts.entry(at).0.to_owned());
        at += 1;
        assert(text::texts(saved@) =~= text::texts(before).push(listed[at - 1]));
        assert(listed.take(at as int) =~= listed.take(at - 1).push(listed[at - 1]));
    }
    assert(listed.take(at as int) =~= listed);
    let phase = match &state.active_account {
        Some(account) => DetectionPhase::ReadingActive { account: account.clone() },
        None => DetectionPhase::Detecting,
    };
    Detection { keychain, names: saved, phase }
}

impl Detection {
    fn compare(&self, account: String, active: String, at: usize) -> (r: DetectionPhase<String>)
        ensures
            r@ == comparing(self.keychain, self@.names, account@, active@, at as int),
            r@ matches DetectionPhase::Comparing { at, .. } ==> at < self@.names.len(),
    {
        if at >= self.names.len() {
            return DetectionPhase::Unknown;
        }
        assert(self@.names[at as int] == self.names@[at as int]@);
        if self.keychain.program.product.checks_names() {
            if let Err(error) = domain::validate_plan_name(self.names[at].as_str()) {
                return DetectionPhase::BadName(error);
            }
        }
        DetectionPhase::Comparing { account, active, at }
    }

    /// What the detection asks for.
    pub fn request(&self) -> (r: Request<String>)
        requires
            coherent(self@),
        ensures
            r@ == asked(self@),
    {
        match &self.phase {
            DetectionPhase::Detecting => Request::Call(self.keychain.detect_active_account()),
            DetectionPhase::ReadingActive { account } => Request::Call(
                self.keychain.read_active(account.as_str()),
            ),
            DetectionPhase::Comparing { account: _, active: _, at } => {
                assert(self@.names[*at as int] == self.names@[*at as int]@);
                Request::Call(self.keychain.read_plan(self.names[*at].as_str()))
            },
            _ => Request::Nothing,
        }
    }

    /// Take a reply in.
    pub fn advance(&mut self, reply: Reply<String>)
        requires
            coherent(old(self)@),
        ensures
            final(self)@ == advanced(old(self)@, reply@),
            coherent(final(self)@),
    {
        let next = match &self.phase {
            DetectionPhase::Detecting => match reply {
                Reply::Text(account) => DetectionPhase::ReadingActive { account },
                _ => DetectionPhase::CallFailed,
            },
            DetectionPhase::ReadingActive { account } => match reply {
                Reply::Text(active) => self.compare(account.clone(), active, 0),
                _ => DetectionPhase::CallFailed,
            },
            DetectionPhase::Comparing { account, active, at } => {
                let same = match &reply {
                    Reply::Text(saved) => *saved == *active,
                    _ => false,
                };
                let count: usize = self.names.len();
                assert(*at < count);
                assert(self@.names[*at as int] == self.names@[*at as int]@);
                if same {
                    DetectionPhase::Found { account: account.clone(), name: self.names[*at].clone() }
                } else {
                    self.compare(account.clone(), active.clone(), *at + 1)
                }
            },
            _ => return,
        };
        self.phase = next;
    }

    /// Write the outcome of the detection into the state.
    pub fn settle(&self, state: &mut State)
        ensures
            final(state)@ == settled(self@, old(state)@),
    {
        if let DetectionPhase::Found { account, name } = &self.phase {
            state.active_account = Some(account.clone());
            state.current_account = Some(name.clone());
        }
    }
}

} // verus!
