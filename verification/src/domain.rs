//! Accounts, settings and quota readings, with the rules they obey.
//!
//! A saved login of the client is an account. The plan-swap program calls the same
//! thing a plan; the aliases at the end of this module are its words for it.

use vstd::prelude::*;
use vstd::string::*;
use crate::names::NameMap;
use crate::text;

verus! {

/// What can be wrong with an account name.
#[derive(Clone, Copy, Debug, PartialEq, Eq, Structural)]
pub enum NameError {
    /// It is empty or longer than 64 bytes.
    Length,
    /// It starts or ends with a hyphen or holds two in a row.
    Hyphens,
    /// It holds something else than small letters, digits and hyphens.
    Characters,
}

/// Whether an account name may hold `c`.
pub open spec fn is_name_char(c: char) -> bool {
    'a' <= c <= 'z' || '0' <= c <= '9' || c == '-'
}

/// Whether all hyphens of `s` stand alone between other characters.
pub open spec fn hyphens_separate(s: Seq<char>) -> bool {
    &&& s.len() > 0 ==> s[0] != '-' && s.last() != '-'
    &&& forall|i: int| 0 <= i < s.len() - 1 ==> !(#[trigger] s[i] == '-' && s[i + 1] == '-')
}

/// What is wrong with `s` as an account name, if anything is.
pub open spec fn name_error(s: Seq<char>) -> Option<NameError> {
    if !(1 <= vstd::utf8::encode_utf8(s).len() <= 64) {
        Some(NameError::Length)
    } else if !hyphens_separate(s) {
        Some(NameError::Hyphens)
    } else if !(forall|i: int| 0 <= i < s.len() ==> is_name_char(#[trigger] s[i])) {
        Some(NameError::Characters)
    } else {
        None
    }
}

/// The text that reports a bad name; `subject` says of what.
pub open spec fn name_error_text(error: NameError, subject: Seq<char>) -> Seq<char> {
    subject + match error {
        NameError::Length => " name must be 1-64 characters"@,
        NameError::Hyphens => " name cannot start/end with '-' or contain '--'"@,
        NameError::Characters => " name must use lowercase letters, digits, and '-' only"@,
    }
}

impl NameError {
    /// The text that reports the error; `subject` says of what the name is.
    pub fn message(self, subject: &str) -> (r: String)
        ensures
            r@ == name_error_text(self, subject@),
    {
        let mut r = subject.to_owned();
        match self {
            NameError::Length => r.append(" name must be 1-64 characters"),
            NameError::Hyphens => r.append(" name cannot start/end with '-' or contain '--'"),
            NameError::Characters => r.append(
                " name must use lowercase letters, digits, and '-' only",
            ),
        }
        r
    }
}

fn hyphens_ok(chars: &Vec<char>) -> (r: bool)
    ensures
        r == hyphens_separate(chars@),
{
    if chars.len() == 0 {
        return true;
    }
    if chars[0] == '-' || chars[chars.len() - 1] == '-' {
        return false;
    }
    let mut i: usize = 0;
    while i < chars.len() - 1
        invariant
            1 <= chars@.len(),
            i <= chars@.len() - 1,
            forall|k: int| 0 <= k < i ==> !(#[trigger] chars@[k] == '-' && chars@[k + 1] == '-'),
        decreases chars@.len() - i,
    {
        if chars[i] == '-' && chars[i + 1] == '-' {
            return false;
        }
        i += 1;
    }
    true
}

fn characters_ok(chars: &Vec<char>) -> (r: bool)
    ensures
        r == (forall|i: int| 0 <= i < chars@.len() ==> is_name_char(#[trigger] chars@[i])),
{
    let mut i: usize = 0;
    while i < chars.len()
        invariant
            i <= chars@.len(),
            forall|k: int| 0 <= k < i ==> is_name_char(#[trigger] chars@[k]),
        decreases chars@.len() - i,
    {
        let c: char = chars[i];
        if !(('a' <= c && c <= 'z') || ('0' <= c && c <= '9') || c == '-') {
            assert(!is_name_char(chars@[i as int]));
            return false;
        }
        i += 1;
    }
    true
}

/// Hold a plan name to the rules for names.
pub fn validate_plan_name(name: &str) -> (r: Result<(), NameError>)
    ensures
        match r {
            Ok(_) => name_error(name@) is None,
            Err(error) => name_error(name@) == Some(error),
        },
{
    let size: usize = name.as_bytes().len();
    if size == 0 || size > 64 {
        return Err(NameError::Length);
    }
    let chars = text::to_chars(name);
    if !hyphens_ok(&chars) {
        return Err(NameError::Hyphens);
    }
    if !characters_ok(&chars) {
        return Err(NameError::Characters);
    }
    Ok(())
}

/// A name that obeys the rules for names.
///
/// Credentials are kept under Keychain accounts made from such names. The rules
/// keep those predictable.
#[derive(Debug, PartialEq, Eq, PartialOrd, Ord)]
pub struct AccountName {
    text: String,
}

impl View for AccountName {
    type V = Seq<char>;

    closed spec fn view(&self) -> Seq<char> {
        self.text@
    }
}

impl AccountName {
    #[verifier::type_invariant]
    spec fn valid(self) -> bool {
        name_error(self.text@) is None
    }

    /// Check a name that a user gave.
    pub fn parse(input: &str) -> (r: Result<Self, NameError>)
        ensures
            match r {
                Ok(name) => name_error(input@) is None && name@ == input@,
                Err(error) => name_error(input@) == Some(error),
            },
    {
        match validate_plan_name(input) {
            Ok(_) => Ok(AccountName { text: input.to_owned() }),
            Err(error) => Err(error),
        }
    }

    pub fn as_str(&self) -> (r: &str)
        ensures
            r@ == self@,
            name_error(self@) is None,
    {
        proof {
            use_type_invariant(self);
        }
        self.text.as_str()
    }

    pub fn into_string(self) -> (r: String)
        ensures
            r@ == self@,
            name_error(self@) is None,
    {
        proof {
            use_type_invariant(&self);
        }
        self.text
    }
}

impl Clone for AccountName {
    fn clone(&self) -> (r: Self)
        ensures
            r@ == self@,
    {
        proof {
            use_type_invariant(self);
        }
        AccountName { text: self.text.clone() }
    }
}

/// What an account is billed as.
#[derive(Clone, Copy, Debug, PartialEq, Eq, Structural)]
pub enum AccountKind {
    Team,
    Enterprise,
    Other,
}

/// The kind that a subscription type stands for, whatever its case and the
/// white space around it.
pub open spec fn subscription_kind(value: Seq<char>) -> AccountKind {
    let word = text::lower(text::trim(value));
    if word == "team"@ {
        AccountKind::Team
    } else if word == "enterprise"@ {
        AccountKind::Enterprise
    } else {
        AccountKind::Other
    }
}

/// The word for a kind.
pub open spec fn kind_text(kind: AccountKind) -> Seq<char> {
    match kind {
        AccountKind::Team => "team"@,
        AccountKind::Enterprise => "enterprise"@,
        AccountKind::Other => "other"@,
    }
}

impl AccountKind {
    /// The kind that a subscription type stands for.
    pub fn from_subscription(value: &str) -> (r: Self)
        ensures
            r == subscription_kind(value@),
    {
        let word = text::lowered(text::trimmed(value).as_str());
        if text::same_text(word.as_str(), "team") {
            AccountKind::Team
        } else if text::same_text(word.as_str(), "enterprise") {
            AccountKind::Enterprise
        } else {
            AccountKind::Other
        }
    }

    /// The word for the kind.
    pub fn as_str(self) -> (r: &'static str)
        ensures
            r@ == kind_text(self),
    {
        match self {
            AccountKind::Team => "team",
            AccountKind::Enterprise => "enterprise",
            AccountKind::Other => "other",
        }
    }
}

/// Whether a full quota leads to a switch without being asked.
#[derive(Clone, Copy, Debug, PartialEq, Eq, Structural)]
pub enum RoutingMode {
    Manual,
    Auto,
}

/// The word for a mode.
pub open spec fn mode_text(mode: RoutingMode) -> Seq<char> {
    match mode {
        RoutingMode::Manual => "manual"@,
        RoutingMode::Auto => "auto"@,
    }
}

impl RoutingMode {
    /// The word for the mode.
    pub fn as_str(self) -> (r: &'static str)
        ensures
            r@ == mode_text(self),
    {
        match self {
            RoutingMode::Manual => "manual",
            RoutingMode::Auto => "auto",
        }
    }
}

/// The settings of the statusline.
#[derive(Clone, Copy, Debug, PartialEq, Eq, Structural)]
pub struct Config {
    /// The usage, in percent, from which on the statusline speaks up.
    pub alert_at: u8,
    pub mode: RoutingMode,
}

impl Default for Config {
    fn default() -> (r: Self)
        ensures
            r == (Config { alert_at: 95, mode: RoutingMode::Manual }),
    {
        Config { alert_at: 95, mode: RoutingMode::Manual }
    }
}

/// What is kept of a saved account besides its credential.
#[derive(Clone, Copy, Debug, PartialEq, Eq, Structural)]
pub struct AccountEntry {
    pub kind: AccountKind,
    /// When the account was saved first, in seconds since the epoch.
    pub created_at: u64,
    /// When the account was saved last.
    pub updated_at: u64,
}

/// Which account was left, and for which, when a quota ran out.
#[derive(Debug, PartialEq, Eq)]
pub struct RouteLock {
    pub source_account: String,
    pub routed_account: String,
    pub created_at: u64,
}

/// Which accounts are saved and which one is in use.
#[derive(Debug)]
pub struct State {
    /// The Keychain account that the client reads its credential from.
    pub active_account: Option<String>,
    pub current_account: Option<String>,
    pub previous_account: Option<String>,
    pub accounts: NameMap<AccountEntry>,
}

/// What a state says.
#[verifier::ext_equal]
pub struct StateModel {
    pub active: Option<Seq<char>>,
    pub current: Option<Seq<char>>,
    pub previous: Option<Seq<char>>,
    pub accounts: Map<Seq<char>, AccountEntry>,
}

impl View for State {
    type V = StateModel;

    open spec fn view(&self) -> StateModel {
        StateModel {
            active: text::text_of(self.active_account),
            current: text::text_of(self.current_account),
            previous: text::text_of(self.previous_account),
            accounts: self.accounts@,
        }
    }
}

impl Default for State {
    fn default() -> (r: Self)
        ensures
            r@ == (StateModel {
                active: None,
                current: None,
                previous: None,
                accounts: Map::empty(),
            }),
    {
        State {
            active_account: None,
            current_account: None,
            previous_account: None,
            accounts: NameMap::new(),
        }
    }
}

/// How far one quota window is used up and when it starts anew.
#[derive(Clone, Copy, Debug, PartialEq, Eq, Structural)]
pub struct LimitWindow {
    pub used_percentage: Option<u8>,
    pub resets_at: Option<i64>,
}

impl Default for LimitWindow {
    fn default() -> (r: Self)
        ensures
            r == (LimitWindow { used_percentage: None, resets_at: None }),
    {
        LimitWindow { used_percentage: None, resets_at: None }
    }
}

/// The two quota windows as they were seen at one time.
#[derive(Clone, Copy, Debug, PartialEq, Eq, Structural)]
pub struct RateLimitSnapshot {
    pub detected_at: u64,
    pub five_hour: LimitWindow,
    pub seven_day: LimitWindow,
}

/// A saved account, as the plan-swap program calls it.
pub type PlanEntry = AccountEntry;

/// The name of a plan.
pub type PlanName = AccountName;

/// What a plan is billed as.
pub type PlanKind = AccountKind;

/// Whether a full quota leads to a swap without being asked.
pub type SwapMode = RoutingMode;

/// A name that obeys the rules is short, needs no quoting and names no path: it
/// holds no white space, no quotation mark, no separator and no dot.
pub proof fn valid_names_are_plain(name: Seq<char>)
    requires
        name_error(name) is None,
    ensures
        0 < name.len() <= 64,
        forall|i: int|
            0 <= i < name.len() ==> !text::is_space(#[trigger] name[i]) && name[i] != '\'' && name[i]
                != '"' && name[i] != '\\' && name[i] != '/' && name[i] != '.' && name[i] != '$'
                && name[i] != '`' && name[i] != ';' && name[i] != '&' && name[i] != '|',
        name[0] != '-',
{
    assert forall|i: int| 0 <= i < name.len() implies '\0' <= #[trigger] name[i] <= '\u{7f}' by {
        assert(is_name_char(name[i]));
    }
    assert(vstd::utf8::is_ascii_chars(name));
    vstd::utf8::is_ascii_chars_encode_utf8(name);
    assert forall|i: int| 0 <= i < name.len() implies is_name_char(#[trigger] name[i]) by {}
}

} // verus!
