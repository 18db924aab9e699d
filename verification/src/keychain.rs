//! The macOS Keychain, as the `security` tool sees it.
//!
//! Which arguments the tool is given and how its answer is read is decided here;
//! the caller runs it. Credentials pass through as text and are kept nowhere.

use vstd::prelude::*;
use vstd::string::*;
use crate::program;
use crate::program::{Client, Product, Program};
use crate::text;

verus! {

/// The Keychain service under which a client keeps the credential it uses.
pub open spec fn active_service(client: Client) -> Seq<char> {
    program::client_title(client) + "-credentials"@
}

/// One call of the `security` tool. `T` is the type of text: `String` in values,
/// `Seq<char>` in contracts.
#[derive(Debug)]
pub enum SecurityCall<T> {
    /// Read a credential.
    Read { service: T, account: T },
    /// Store a credential, in place of one that is there.
    Upsert { service: T, account: T, credential: T },
    /// Delete a credential.
    Delete { service: T, account: T },
    /// Describe the credential that a service holds.
    Detect { service: T },
}

impl View for SecurityCall<String> {
    type V = SecurityCall<Seq<char>>;

    open spec fn view(&self) -> SecurityCall<Seq<char>> {
        match *self {
            SecurityCall::Read { service, account } => SecurityCall::Read {
                service: service@,
                account: account@,
            },
            SecurityCall::Upsert { service, account, credential } => SecurityCall::Upsert {
                service: service@,
                account: account@,
                credential: credential@,
            },
            SecurityCall::Delete { service, account } => SecurityCall::Delete {
                service: service@,
                account: account@,
            },
            SecurityCall::Detect { service } => SecurityCall::Detect { service: service@ },
        }
    }
}

/// How a call of a tool ended.
#[derive(Debug)]
pub struct ToolOutput {
    pub success: bool,
    pub stdout: String,
    pub stderr: String,
}

/// Why a call of the `security` tool gave nothing.
#[derive(Debug)]
pub enum KeychainError<T> {
    /// The tool could not be run for a service.
    NotRun { service: T },
    /// There is no such credential.
    ReadFailed { service: T, account: T },
    /// The credential was not stored; the tool said why.
    UpsertFailed { service: T, account: T, reason: T },
    /// The credential was not deleted.
    DeleteFailed,
    /// The tool could not be run to describe the credential in use.
    DetectNotRun,
    /// The client has no credential.
    NotLoggedIn,
    /// The description names no account.
    AccountUnknown,
}

impl View for KeychainError<String> {
    type V = KeychainError<Seq<char>>;

    open spec fn view(&self) -> KeychainError<Seq<char>> {
        match *self {
            KeychainError::NotRun { service } => KeychainError::NotRun { service: service@ },
            KeychainError::ReadFailed { service, account } => KeychainError::ReadFailed {
                service: service@,
                account: account@,
            },
            KeychainError::UpsertFailed { service, account, reason } => KeychainError::UpsertFailed {
                service: service@,
                account: account@,
                reason: reason@,
            },
            KeychainError::DeleteFailed => KeychainError::DeleteFailed,
            KeychainError::DetectNotRun => KeychainError::DetectNotRun,
            KeychainError::NotLoggedIn => KeychainError::NotLoggedIn,
            KeychainError::AccountUnknown => KeychainError::AccountUnknown,
        }
    }
}

/// The text that reports an error.
pub open spec fn error_text(error: KeychainError<Seq<char>>, program: Program) -> Seq<char> {
    match error {
        KeychainError::NotRun { service } => "failed to run security for service "@ + service,
        KeychainError::ReadFailed { service, account } =>
            "security find-generic-password failed for service "@ + service + " account "@
            + account,
        KeychainError::UpsertFailed { service, account, reason } =>
            "security add-generic-password failed for service "@ + service + " account "@ + account
            + ": "@ + reason,
        KeychainError::DeleteFailed => "security delete-generic-password failed"@,
        KeychainError::DetectNotRun =>
            "failed to run security to detect active "@ + program::client_title(program.client) + " account"@,
        KeychainError::NotLoggedIn => program::client_title(program.client)
            + " credential not found in Keychain; log in with "@ + program.client.command@
            + " first"@,
        KeychainError::AccountUnknown => match program.product {
            Product::QuotaRouter => "failed to parse active Keychain account"@,
            Product::PlanSwap => "failed to parse active Keychain account for "@
                + program::client_title(program.client),
        },
    }
}

impl KeychainError<String> {
    /// The text that reports the error.
    pub fn message(&self, program: Program) -> (r: String)
        ensures
            r@ == error_text(self@, program),
    {
        match self {
            KeychainError::NotRun { service } => {
                let mut r = "failed to run security for service ".to_owned();
                r.append(service.as_str());
                r
            },
            KeychainError::ReadFailed { service, account } => {
                let mut r = "security find-generic-password failed for service ".to_owned();
                r.append(service.as_str());
                r.append(" account ");
                r.append(account.as_str());
                r
            },
            KeychainError::UpsertFailed { service, account, reason } => {
                let mut r = "security add-generic-password failed for service ".to_owned();
                r.append(service.as_str());
                r.append(" account ");
                r.append(account.as_str());
                r.append(": ");
                r.append(reason.as_str());
                r
            },
            KeychainError::DeleteFailed => "security delete-generic-password failed".to_owned(),
            KeychainError::DetectNotRun => {
                let mut r = "failed to run security to detect active ".to_owned();
                r.append(program.client.title().as_str());
                r.append(" account");
                r
            },
            KeychainError::NotLoggedIn => {
                let mut r = program.client.title();
                r.append(" credential not found in Keychain; log in with ");
                r.append(program.client.command);
                r.append(" first");
                r
            },
            KeychainError::AccountUnknown => match program.product {
                Product::QuotaRouter => "failed to parse active Keychain account".to_owned(),
                Product::PlanSwap => {
                    let mut r = "failed to parse active Keychain account for ".to_owned();
                    r.append(program.client.title().as_str());
                    r
                },
            },
        }
    }
}

/// The arguments that the tool is given for a call.
pub open spec fn call_args(call: SecurityCall<Seq<char>>) -> Seq<Seq<char>> {
    match call {
        SecurityCall::Read { service, account } => seq![
            "find-generic-password"@,
            "-s"@,
            service,
            "-a"@,
            account,
            "-w"@,
        ],
        SecurityCall::Upsert { service, account, credential } => seq![
            "add-generic-password"@,
            "-U"@,
            "-s"@,
            service,
            "-a"@,
            account,
            "-w"@,
            credential,
        ],
        SecurityCall::Delete { service, account } => seq![
            "delete-generic-password"@,
            "-s"@,
            service,
            "-a"@,
            account,
        ],
        SecurityCall::Detect { service } => seq!["find-generic-password"@, "-s"@, service],
    }
}

/// What a call gives: the credential, the account, or an empty text for a call
/// that only changes something. `output` is missing where the tool could not be
/// run; its parts are whether it succeeded, what it printed and what it
/// complained of.
pub open spec fn call_result(
    call: SecurityCall<Seq<char>>,
    output: Option<(bool, Seq<char>, Seq<char>)>,
) -> Result<Seq<char>, KeychainError<Seq<char>>> {
    match (call, output) {
        (SecurityCall::Read { service, account }, None) => Err(KeychainError::NotRun { service }),
        (SecurityCall::Read { service, account }, Some((success, stdout, stderr))) => if success {
            Ok(text::trim_end_char(stdout, '\n'))
        } else {
            Err(KeychainError::ReadFailed { service, account })
        },
        (SecurityCall::Upsert { service, account, credential }, None) => Err(
            KeychainError::NotRun { service },
        ),
        (SecurityCall::Upsert { service, account, credential }, Some((success, stdout, stderr))) =>
        if success {
            Ok(Seq::empty())
        } else {
            Err(KeychainError::UpsertFailed { service, account, reason: text::trim(stderr) })
        },
        (SecurityCall::Delete { service, account }, None) => Err(KeychainError::NotRun { service }),
        (SecurityCall::Delete { service, account }, Some((success, stdout, stderr))) => if success {
            Ok(Seq::empty())
        } else {
            Err(KeychainError::DeleteFailed)
        },
        (SecurityCall::Detect { service: _ }, None) => Err(KeychainError::DetectNotRun),
        (SecurityCall::Detect { service: _ }, Some((success, stdout, stderr))) => if !success {
            Err(KeychainError::NotLoggedIn)
        } else {
            match keychain_account(stdout) {
                Some(account) => Ok(account),
                None => Err(KeychainError::AccountUnknown),
            }
        },
    }
}

/// The parts of an output.
pub open spec fn output_parts(output: Option<&ToolOutput>) -> Option<(bool, Seq<char>, Seq<char>)> {
    match output {
        Some(output) => Some((output.success, output.stdout@, output.stderr@)),
        None => None,
    }
}

impl SecurityCall<String> {
    /// The arguments that the tool is given.
    pub fn args(&self) -> (r: Vec<String>)
        ensures
            text::texts(r@) == call_args(self@),
    {
        let mut r: Vec<String> = Vec::new();
        match self {
            SecurityCall::Read { service, account } => {
                r.push("find-generic-password".to_owned());
                r.push("-s".to_owned());
                r.push(service.clone());
                r.push("-a".to_owned());
                r.push(account.clone());
                r.push("-w".to_owned());
            },
            SecurityCall::Upsert { service, account, credential } => {
                r.push("add-generic-password".to_owned());
                r.push("-U".to_owned());
                r.push("-s".to_owned());
                r.push(service.clone());
                r.push("-a".to_owned());
                r.push(account.clone());
                r.push("-w".to_owned());
                r.push(credential.clone());
            },
            SecurityCall::Delete { service, account } => {
                r.push("delete-generic-password".to_owned());
                r.push("-s".to_owned());
                r.push(service.clone());
                r.push("-a".to_owned());
                r.push(account.clone());
            },
            SecurityCall::Detect { service } => {
                r.push("find-generic-password".to_owned());
                r.push("-s".to_owned());
                r.push(service.clone());
            },
        }
        assert(text::texts(r@) =~= call_args(self@));
        r
    }

    /// What the call gives. `output` is missing where the tool could not be run.
    pub fn result(&self, output: Option<&ToolOutput>) -> (r: Result<String, KeychainError<String>>)
        ensures
            match r {
                Ok(text) => call_result(self@, output_parts(output)) == Ok::<
                    Seq<char>,
                    KeychainError<Seq<char>>,
                >(text@),
                Err(error) => call_result(self@, output_parts(output)) == Err::<
                    Seq<char>,
                    KeychainError<Seq<char>>,
                >(error@),
            },
    {
        match self {
            SecurityCall::Read { service, account } => match output {
                None => Err(KeychainError::NotRun { service: service.clone() }),
                Some(output) => if output.success {
                    let chars = text::to_chars(output.stdout.as_str());
                    assert(chars@.skip(0) =~= chars@);
                    Ok(text::tail_without(&chars, 0, '\n'))
                } else {
                    Err(
                        KeychainError::ReadFailed {
                            service: service.clone(),
                            account: account.clone(),
                        },
                    )
                },
            },
            SecurityCall::Upsert { service, account, credential: _ } => match output {
                None => Err(KeychainError::NotRun { service: service.clone() }),
                Some(output) => if output.success {
                    Ok(String::new())
                } else {
                    Err(
                        KeychainError::UpsertFailed {
                            service: service.clone(),
                            account: account.clone(),
                            reason: text::trimmed(output.stderr.as_str()),
                        },
                    )
                },
            },
            SecurityCall::Delete { service, account: _ } => match output {
                None => Err(KeychainError::NotRun { service: service.clone() }),
                Some(output) => if output.success {
                    Ok(String::new())
                } else {
                    Err(KeychainError::DeleteFailed)
                },
            },
            SecurityCall::Detect { service: _ } => match output {
                None => Err(KeychainError::DetectNotRun),
                Some(output) => if !output.success {
                    Err(KeychainError::NotLoggedIn)
                } else {
                    match parse_keychain_account(output.stdout.as_str()) {
                        Some(account) => Ok(account),
                        None => Err(KeychainError::AccountUnknown),
                    }
                },
            },
        }
    }
}

/// The calls by which a program keeps its credentials.
#[derive(Clone, Copy, Debug)]
pub struct Keychain {
    pub program: Program,
}

impl Keychain {
    /// Read the credential that the client uses.
    pub fn read_active(&self, account: &str) -> (r: SecurityCall<String>)
        ensures
            r@ == (SecurityCall::Read { service: active_service(self.program.client), account: account@ }),
    {
        self.read(self.active_service().as_str(), account)
    }

    /// Replace the credential that the client uses.
    pub fn upsert_active(&self, account: &str, credential: &str) -> (r: SecurityCall<String>)
        ensures
            r@ == (SecurityCall::Upsert {
                service: active_service(self.program.client),
                account: account@,
                credential: credential@,
            }),
    {
        self.upsert(self.active_service().as_str(), account, credential)
    }

    /// Read the credential saved under a name.
    pub fn read_plan(&self, name: &str) -> (r: SecurityCall<String>)
        ensures
            r@ == (SecurityCall::Read {
                service: program::program_name(self.program),
                account: plan_account_of(name@),
            }),
    {
        self.read(self.program.name().as_str(), plan_account(name).as_str())
    }

    /// Save a credential under a name.
    pub fn upsert_plan(&self, name: &str, credential: &str) -> (r: SecurityCall<String>)
        ensures
            r@ == (SecurityCall::Upsert {
                service: program::program_name(self.program),
                account: plan_account_of(name@),
                credential: credential@,
            }),
    {
        self.upsert(self.program.name().as_str(), plan_account(name).as_str(), credential)
    }

    /// Delete the credential saved under a name.
    pub fn delete_plan(&self, name: &str) -> (r: SecurityCall<String>)
        ensures
            r@ == (SecurityCall::Delete {
                service: program::program_name(self.program),
                account: plan_account_of(name@),
            }),
    {
        self.delete(self.program.name().as_str(), plan_account(name).as_str())
    }

    /// Describe the credential that the client uses.
    pub fn detect_active_account(&self) -> (r: SecurityCall<String>)
        ensures
            r@ == (SecurityCall::Detect { service: active_service(self.program.client) }),
    {
        SecurityCall::Detect { service: self.active_service() }
    }

    fn active_service(&self) -> (r: String)
        ensures
            r@ == active_service(self.program.client),
    {
        let mut r = self.program.client.title();
        r.append("-credentials");
        r
    }

    fn read(&self, service: &str, account: &str) -> (r: SecurityCall<String>)
        ensures
            r@ == (SecurityCall::Read { service: service@, account: account@ }),
    {
        SecurityCall::Read { service: service.to_owned(), account: account.to_owned() }
    }

    fn upsert(&self, service: &str, account: &str, password: &str) -> (r: SecurityCall<String>)
        ensures
            r@ == (SecurityCall::Upsert {
                service: service@,
                account: account@,
                credential: password@,
            }),
    {
        SecurityCall::Upsert {
            service: service.to_owned(),
            account: account.to_owned(),
            credential: password.to_owned(),
        }
    }

    fn delete(&self, service: &str, account: &str) -> (r: SecurityCall<String>)
        ensures
            r@ == (SecurityCall::Delete { service: service@, account: account@ }),
    {
        SecurityCall::Delete { service: service.to_owned(), account: account.to_owned() }
    }
}

/// The Keychain account under which the credential of a name is saved.
pub open spec fn plan_account_of(name: Seq<char>) -> Seq<char> {
    "plan:"@ + name
}

/// The Keychain account under which the credential of a name is saved.
pub fn plan_account(name: &str) -> (r: String)
    ensures
        r@ == plan_account_of(name@),
{
    let mut r = "plan:".to_owned();
    r.append(name);
    r
}

/// The key of a plan: the Keychain account under which its credential is saved.
pub fn plan_key(name: &str) -> (r: String)
    ensures
        r@ == plan_account_of(name@),
{
    plan_account(name)
}

/// The account that a line of a description names: what stands behind the first
/// `="`, without the quotation marks at its end.
pub open spec fn account_on(line: Seq<char>) -> Option<Seq<char>> {
    match text::after_first(line, "=\""@) {
        Some(value) => Some(text::trim_end_char(value, '"')),
        None => None,
    }
}

/// The account on the first of the lines that speaks of one.
pub open spec fn account_among(lines: Seq<Seq<char>>) -> Option<Seq<char>>
    decreases lines.len(),
{
    if lines.len() == 0 {
        None
    } else if text::contains(lines[0], "\"acct\""@) {
        account_on(lines[0])
    } else {
        account_among(lines.drop_first())
    }
}

/// The account that a description of a credential names.
pub open spec fn keychain_account(output: Seq<char>) -> Option<Seq<char>> {
    account_among(text::lines(output))
}

/// The account that a description of a credential names.
pub fn parse_keychain_account(output: &str) -> (r: Option<String>)
    ensures
        text::text_of(r) == keychain_account(output@),
{
    let chars = text::to_chars(output);
    let mark = text::to_chars("\"acct\"");
    let opening = text::to_chars("=\"");
    let mut from: usize = 0;
    assert(chars@.skip(0) =~= chars@);
    while from < chars.len()
        invariant
            from <= chars@.len(),
            chars@ == output@,
            mark@ == "\"acct\""@,
            opening@ == "=\""@,
            keychain_account(chars@.skip(from as int)) == keychain_account(chars@),
        decreases chars@.len() - from,
    {
        let ghost rest = chars@.skip(from as int);
        let end: usize = line_end(&chars, from);
        let mut stop: usize = end;
        if end < chars.len() && end > from && chars[end - 1] == '\r' {
            stop = end - 1;
        }
        let line = text::to_chars(text::from_chars(&chars, from, stop).as_str());
        proof {
            text::lemma_line_length(rest);
            assert(rest.take(end - from) =~= chars@.subrange(from as int, end as int));
            if end == chars@.len() {
                assert(line@ =~= rest);
            } else {
                assert(line@ =~= text::without_return(rest.take(end - from)));
            }
            assert(text::lines(rest)[0] == line@);
        }
        if text::find(&line, &mark).is_some() {
            return match text::find(&line, &opening) {
                Some(at) => {
                    proof {
                        text::lemma_after_first(line@, opening@, at as int);
                    }
                    Some(text::tail_without(&line, at + opening.len(), '"'))
                },
                None => None,
            };
        }
        if end == chars.len() {
            proof {
                assert(text::lines(rest).drop_first() =~= Seq::<Seq<char>>::empty());
                assert(account_among(Seq::<Seq<char>>::empty()) is None);
            }
            return None;
        }
        proof {
            assert(rest.skip(end - from + 1) =~= chars@.skip(end + 1));
            assert(text::lines(rest).drop_first() =~= text::lines(chars@.skip(end + 1)));
        }
        from = end + 1;
    }
    assert(chars@.skip(from as int) =~= Seq::<char>::empty());
    None
}

fn line_end(chars: &Vec<char>, from: usize) -> (r: usize)
    requires
        from <= chars@.len(),
    ensures
        from <= r <= chars@.len(),
        r - from == text::line_length(chars@.skip(from as int)),
{
    let mut end: usize = from;
    while end < chars.len() && chars[end] != '\n'
        invariant
            from <= end <= chars@.len(),
            text::line_length(chars@.skip(from as int)) == end - from + text::line_length(
                chars@.skip(end as int),
            ),
        decreases chars@.len() - end,
    {
        assert(chars@.skip(end as int).drop_first() =~= chars@.skip(end + 1));
        end += 1;
    }
    end
}

/// The line by which the `security` tool names the account of a credential.
pub open spec fn account_line(account: Seq<char>) -> Seq<char> {
    "    \"acct\"<blob>=\""@ + account + "\""@
}

/// The account that a description names is found, whatever else the description
/// says, unless it runs over a line or ends with a quotation mark.
pub proof fn described_account_is_found(before: Seq<char>, account: Seq<char>, after: Seq<char>)
    requires
        before.len() == 0 || before.last() == '\n',
        forall|i: int|
            0 <= i < text::lines(before).len() ==> !text::contains(
                #[trigger] text::lines(before)[i],
                "\"acct\""@,
            ),
        forall|i: int| 0 <= i < account.len() ==> account[i] != '\n',
        account.len() > 0 ==> account.last() != '"',
    ensures
        keychain_account(before + (account_line(account) + seq!['\n'] + after)) == Some(account),
{
    reveal_strlit("    \"acct\"<blob>=\"");
    reveal_strlit("\"acct\"");
    reveal_strlit("=\"");
    reveal_strlit("\"");
    let line = account_line(account);
    let rest = line + seq!['\n'] + after;
    text::lemma_lines_concat(before, rest);
    assert forall|i: int| 0 <= i < line.len() implies line[i] != '\n' by {
        if 18 <= i < 18 + account.len() {
            assert(line[i] == account[i - 18]);
        }
    }
    text::lemma_first_line(line, after);
    assert(line.last() == '"');
    assert(text::lines(rest)[0] == line);
    lemma_skipped(text::lines(before), text::lines(rest));
    assert(line.subrange(4, 10) =~= "\"acct\""@);
    assert(text::occurs_at(line, "\"acct\""@, 4));
    assert(line.subrange(16, 18) =~= "=\""@);
    assert forall|earlier: int| earlier < 16 implies !text::occurs_at(
        line,
        "=\""@,
        earlier,
    ) by {
        if 0 <= earlier {
            assert(line[earlier] != '=');
            assert(line.subrange(earlier, earlier + 2)[0] == line[earlier]);
        }
    }
    text::lemma_after_first(line, "=\""@, 16);
    let value = line.skip(18);
    assert(value =~= account + "\""@);
    assert(value.drop_last() =~= account);
    assert(text::trim_end_char(account, '"') == account);
    assert(account_on(line) == Some(account));
}

proof fn lemma_skipped(before: Seq<Seq<char>>, rest: Seq<Seq<char>>)
    requires
        forall|i: int|
            0 <= i < before.len() ==> !text::contains(#[trigger] before[i], "\"acct\""@),
    ensures
        account_among(before + rest) == account_among(rest),
    decreases before.len(),
{
    if before.len() == 0 {
        assert(before + rest =~= rest);
    } else {
        assert((before + rest)[0] == before[0]);
        assert((before + rest).drop_first() =~= before.drop_first() + rest);
        lemma_skipped(before.drop_first(), rest);
    }
}

} // verus!
