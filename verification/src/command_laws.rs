//! What holds of the commands, of the settings file and of the calls that a
//! program makes.

use vstd::prelude::*;
use vstd::string::*;
use crate::app;
use crate::app::Commands;
use crate::commands;
use crate::commands::CommandError;
use crate::context;
use crate::domain;
use crate::domain::{AccountKind, Config, NameError, RateLimitSnapshot, RoutingMode, StateModel};
use crate::json;
use crate::json::Json;
use crate::keychain;
use crate::keychain::{KeychainError, SecurityCall};
use crate::notification;
use crate::program;
use crate::program::{Client, Product, Program};
use crate::settings;
use crate::setup;
use crate::setup::SetupError;
use crate::subscription;
use crate::switcher;
use crate::switcher::SwitchError;
use crate::text;
use crate::text_laws;
use crate::util;

verus! {

/// The words for kinds and modes are read as what they stand for, and differ.
pub proof fn words_tell_kinds_and_modes(kind: AccountKind)
    ensures
        domain::subscription_kind(domain::kind_text(kind)) == kind,
        domain::mode_text(RoutingMode::Manual) != domain::mode_text(RoutingMode::Auto),
{
    reveal_strlit("team");
    reveal_strlit("enterprise");
    reveal_strlit("other");
    reveal_strlit("manual");
    reveal_strlit("auto");
    let word = domain::kind_text(kind);
    let none = Seq::<char>::empty();
    assert(none + word + none =~= word);
    text_laws::subscription_tells_kind(none, word, none);
    assert("team"@ =~= seq!['t', 'e', 'a', 'm']);
    assert("enterprise"@ =~= seq!['e', 'n', 't', 'e', 'r', 'p', 'r', 'i', 's', 'e']);
    assert("other"@[0] == 'o');
    assert("manual"@.len() == 6 && "auto"@.len() == 4);
}

/// A list has one line for each account, in the order given, with the mark at
/// the account in use only, and the word for the kind at the end.
pub proof fn lists_mark_the_account_in_use(state: StateModel, listed: Seq<Seq<char>>, at: int)
    requires
        0 <= at < listed.len(),
    ensures
        ({
            let lines = commands::list_lines(state, listed);
            let line = lines[at];
            &&& lines.len() == listed.len()
            &&& line.len() > 0
            &&& line[0] == '*' <==> state.current == Some(listed[at])
            &&& line[0] == ' ' <==> state.current != Some(listed[at])
            &&& line.skip(1) == " "@ + listed[at] + "\t"@ + domain::kind_text(
                state.accounts[listed[at]].kind,
            )
        }),
{
    reveal_strlit("*");
    reveal_strlit(" ");
    let line = commands::list_line(state, listed[at]);
    let rest = " "@ + listed[at] + "\t"@ + domain::kind_text(state.accounts[listed[at]].kind);
    assert(line.skip(1) =~= rest);
}

/// The status shows the accounts in use and before, the settings, the number of
/// accounts and the quota, each on a line of its own.
pub proof fn status_shows_what_is_saved(
    state: StateModel,
    count: nat,
    config: Config,
    snapshot: Option<RateLimitSnapshot>,
)
    ensures
        ({
            let lines = commands::status_lines(state, count, config, snapshot);
            &&& lines.len() == 6
            &&& state.current matches Some(current) ==> lines[0] == "current: "@ + current
            &&& state.current is None ==> lines[0] == "current: "@ + "unknown"@
            &&& state.previous matches Some(previous) ==> lines[1] == "previous: "@ + previous
            &&& state.previous is None ==> lines[1] == "previous: "@ + "none"@
            &&& state.active matches Some(active) ==> lines[2] == "active keychain account: "@
                + active
            &&& state.active is None ==> lines[2] == "active keychain account: "@ + "unknown"@
            &&& lines[3] == "config: alert_at="@ + text::decimal(config.alert_at as nat) + " mode="@
                + domain::mode_text(config.mode)
            &&& lines[4] == "plans: "@ + text::decimal(count)
            &&& snapshot is None ==> lines[5] == "quota: none"@
            &&& snapshot matches Some(snapshot) ==> lines[5] == "quota: 5h="@ + util::shown_share(
                snapshot.five_hour.used_percentage,
            ) + " reset="@ + util::shown_time(snapshot.five_hour.resets_at) + " / 7d="@
                + util::shown_share(snapshot.seven_day.used_percentage) + " reset="@
                + util::shown_time(snapshot.seven_day.resets_at)
            &&& commands::config_lines(config) == seq![
                "alert_at="@ + text::decimal(config.alert_at as nat),
                "mode="@ + domain::mode_text(config.mode),
            ]
        }),
{
}

/// What is known is shown as a number, with a percent sign for a share; what is
/// not is shown as a dash, which is no number.
pub proof fn shown_values_are_read_back(share: u8, time: i64)
    ensures
        util::shown_share(Some(share)).last() == '%',
        text::parse_integer(util::shown_share(Some(share)).drop_last(), false) == Some(share as int),
        text::parse_integer(util::shown_time(Some(time)), true) == Some(time as int),
        util::shown_share(None) == seq!['-'],
        util::shown_time(None) == seq!['-'],
{
    reveal_strlit("%");
    reveal_strlit("-");
    text::decimal_is_read_back(share as int);
    text::decimal_is_read_back(time as int);
    assert(util::shown_share(Some(share)).drop_last() =~= text::decimal(share as nat));
    assert("-"@ =~= seq!['-']);
}

/// An account is removed unless it is in use or not saved; which of the two
/// keeps it is said. Nothing else about the state changes, but that the account
/// is no longer the one before.
pub proof fn only_unused_accounts_are_removed(
    state: StateModel,
    name: Seq<char>,
    other: Seq<char>,
)
    requires
        other != name,
    ensures
        commands::removal_error(state, name) == Some(CommandError::<Seq<char>>::InUse)
            <==> state.current == Some(name),
        commands::removal_error(state, name) == Some(CommandError::NotSaved { name })
            <==> state.current != Some(name) && !state.accounts.contains_key(name),
        commands::removal_error(state, name) is None <==> state.current != Some(name)
            && state.accounts.contains_key(name),
        ({
            let after = commands::removed(state, name);
            &&& !after.accounts.contains_key(name)
            &&& after.accounts.contains_key(other) <==> state.accounts.contains_key(other)
            &&& state.accounts.contains_key(other) ==> after.accounts[other]
                == state.accounts[other]
            &&& after.current == state.current
            &&& after.active == state.active
            &&& after.previous != Some(name)
            &&& state.previous != Some(name) ==> after.previous == state.previous
            &&& state.previous == Some(name) ==> after.previous is None
        }),
{
}

/// A setting that is given is taken over; one that is not stays as it was.
pub proof fn given_settings_are_taken_over(config: Config, alert_at: u8, mode: RoutingMode)
    ensures
        commands::reconfigured(config, Some(alert_at), Some(mode)).alert_at == alert_at,
        commands::reconfigured(config, Some(alert_at), Some(mode)).mode == mode,
        commands::reconfigured(config, Some(alert_at), None).alert_at == alert_at,
        commands::reconfigured(config, Some(alert_at), None).mode == config.mode,
        commands::reconfigured(config, None, Some(mode)).alert_at == config.alert_at,
        commands::reconfigured(config, None, Some(mode)).mode == mode,
        commands::reconfigured(config, None, None) == config,
{
}

/// Going back leads to the account before, where it is saved; else it says
/// which account is missing, or that there is none.
pub proof fn going_back_leads_to_previous(state: StateModel, name: Seq<char>)
    ensures
        commands::way_back(state) == Ok::<Seq<char>, CommandError<Seq<char>>>(name)
            <==> state.previous == Some(name) && state.accounts.contains_key(name),
        commands::way_back(state) == Err::<Seq<char>, CommandError<Seq<char>>>(
            CommandError::PreviousNotSaved { name },
        ) <==> state.previous == Some(name) && !state.accounts.contains_key(name),
        commands::way_back(state) == Err::<Seq<char>, CommandError<Seq<char>>>(
            CommandError::NoPrevious,
        ) <==> state.previous is None,
{
}

/// A name that breaks the rules is refused for a new account by both programs,
/// and for a saved one by the quota router; no other command is refused. The
/// reason is what is wrong with the name.
pub proof fn bad_names_are_refused(
    product: Product,
    state: StateModel,
    name: Seq<char>,
    kind: Option<AccountKind>,
    yes: bool,
)
    ensures
        app::refusal(product, Commands::Setup { name, kind }) == domain::name_error(name),
        product == Product::QuotaRouter ==> {
            &&& app::refusal(product, Commands::Switch { name, yes }) == domain::name_error(name)
            &&& app::refusal(product, Commands::Remove { name }) == domain::name_error(name)
            &&& domain::name_error(name) matches Some(error) ==> app::switch_error(
                product,
                state,
                name,
            ) == Some(CommandError::<Seq<char>>::BadName(error))
        },
        product == Product::PlanSwap ==> {
            &&& app::refusal(product, Commands::Switch { name, yes }) is None
            &&& app::refusal(product, Commands::Remove { name }) is None
        },
        app::refusal(product, Commands::Toggle { yes }) is None,
        app::refusal(product, Commands::List) is None,
        app::refusal(product, Commands::Current) is None,
        app::refusal(product, Commands::Status) is None,
        app::refusal(product, Commands::Statusline) is None,
        app::refusal(product, Commands::Install) is None,
        app::refusal(product, Commands::Uninstall) is None,
        product == Product::PlanSwap || domain::name_error(name) is None ==> {
            &&& app::switch_error(product, state, name) is None <==> state.accounts.contains_key(
                name,
            )
            &&& !state.accounts.contains_key(name) ==> app::switch_error(product, state, name)
                == Some(CommandError::Switch(SwitchError::NotSaved { name }))
        },
{
}

/// A path is a directory and a name with one slash between them, whether or not
/// the directory is given with one at its end.
pub proof fn paths_have_one_slash(dir: Seq<char>, name: Seq<char>)
    requires
        dir.len() > 0,
        dir.last() != '/',
    ensures
        context::joined(dir, name) == dir + seq!['/'] + name,
        context::joined(dir + seq!['/'], name) == dir + seq!['/'] + name,
        context::joined(Seq::empty(), name) == name,
{
    reveal_strlit("/");
    assert("/"@ =~= seq!['/']);
    assert((dir + seq!['/']).last() == '/');
}

/// Files lie in the directories that are set; where one is not set, below the
/// home directory, in a directory named after the program or the client. Without
/// either it is not known where they lie.
pub proof fn set_directories_come_first(
    program: Program,
    set: Seq<char>,
    home: Option<Seq<char>>,
    below: Seq<char>,
)
    ensures
        context::app_dir_for(program, Some(set), home) == Some(set),
        context::claude_dir_for(program.client, Some(set), home) == Some(set),
        context::app_dir_for(program, None, Some(below)) == Some(
            context::joined(context::joined(below, ".config"@), program::program_name(program)),
        ),
        context::claude_dir_for(program.client, None, Some(below)) == Some(
            context::joined(below, "."@ + program.client.command@),
        ),
        context::app_dir_for(program, None, None) is None,
        context::claude_dir_for(program.client, None, None) is None,
{
}

/// A client calls itself by its command with the first letter, if it is a small
/// one, made a capital, and the word Code behind a blank.
pub proof fn client_is_titled_by_its_command(client: Client)
    requires
        client.command@.len() > 0,
    ensures
        ({
            let title = program::client_title(client);
            let command = client.command@;
            &&& title.len() == command.len() + 5
            &&& title.skip(command.len() as int) == " Code"@
            &&& title.subrange(1, command.len() as int) == command.skip(1)
            &&& 97 <= command[0] as int <= 122 ==> title[0] as int == command[0] as int - 32
            &&& !(97 <= command[0] as int <= 122) ==> title[0] == command[0]
            &&& keychain::active_service(client) == title + "-credentials"@
        }),
{
    reveal_strlit(" Code");
    let title = program::client_title(client);
    let command = client.command@;
    assert(title.skip(command.len() as int) =~= " Code"@);
    assert(title.subrange(1, command.len() as int) =~= command.skip(1));
}

/// The kind that the status tells counts before the one in the credential. An
/// account of which neither tells is of another kind. A status tells nothing
/// where the command failed, printed no JSON, or named no subscription.
pub proof fn status_tells_before_credential(
    printed: Seq<u8>,
    credential: Seq<char>,
    told: AccountKind,
    kept: Option<AccountKind>,
    top: Map<Seq<char>, Json>,
    inner: Map<Seq<char>, Json>,
    word: Seq<char>,
    other: Json,
)
    requires
        !(other is Text),
    ensures
        json::json_from_bytes(printed) == Some(
            Json::Object(top.insert("subscriptionType"@, other)),
        ) ==> subscription::status_kind(Some(printed)) is None,
        subscription::told_kind(Some(told), kept) == told,
        subscription::told_kind(None, Some(told)) == told,
        subscription::told_kind(None, None) == AccountKind::Other,
        subscription::status_kind(None) is None,
        json::json_from_bytes(printed) is None ==> subscription::status_kind(Some(printed)) is None,
        json::json_from_bytes(printed) == Some(
            Json::Object(top.insert("subscriptionType"@, Json::Text(word))),
        ) ==> subscription::status_kind(Some(printed)) == Some(domain::subscription_kind(word)),
        json::json_from_bytes(printed) == Some(Json::Object(top.remove("subscriptionType"@)))
            ==> subscription::status_kind(Some(printed)) is None,
        json::json_from_text(credential) is None ==> subscription::credential_kind(
            credential,
        ) is None,
        json::json_from_text(credential) == Some(
            Json::Object(
                top.insert(
                    "claudeAiOauth"@,
                    Json::Object(inner.insert("subscriptionType"@, Json::Text(word))),
                ),
            ),
        ) ==> subscription::credential_kind(credential) == Some(domain::subscription_kind(word)),
        json::json_from_text(credential) == Some(Json::Object(top.remove("claudeAiOauth"@)))
            ==> subscription::credential_kind(credential) is None,
{
    assert(json::member(
        Json::Object(
            top.insert(
                "claudeAiOauth"@,
                Json::Object(inner.insert("subscriptionType"@, Json::Text(word))),
            ),
        ),
        "claudeAiOauth"@,
    ) == Some(Json::Object(inner.insert("subscriptionType"@, Json::Text(word)))));
}

/// The script of a notification shows the message under the title, whatever
/// they hold.
pub proof fn script_shows_message_and_title(title: Seq<char>, message: Seq<char>)
    ensures
        exists|shown: Seq<char>, under: Seq<char>|
            notification::notification_script(title, message) == "display notification \""@
                + #[trigger] (shown + "\" with title \""@ + under) + "\""@
                && util::applescript_string(shown) == Some(message) && util::applescript_string(
                under,
            ) == Some(title),
{
    util::applescript_reads_escaped_text(message);
    util::applescript_reads_escaped_text(title);
    let shown = util::applescript_escaped(message);
    let under = util::applescript_escaped(title);
    assert(notification::notification_script(title, message) =~= "display notification \""@ + (
    shown + "\" with title \""@ + under) + "\""@);
}

/// Whether an option of the tool stands among the arguments with its value
/// behind it.
pub open spec fn has_option(args: Seq<Seq<char>>, option: Seq<char>, value: Seq<char>) -> bool {
    exists|i: int|
        0 < i && i + 1 < args.len() && #[trigger] args[i] == option && args[i + 1] == value
}

/// Each call tells the tool what to do first, then on which service and, but for
/// a description, for which account. The credential to store is given as such,
/// and only then; a credential to read is asked for.
pub proof fn calls_name_service_and_account(
    service: Seq<char>,
    account: Seq<char>,
    credential: Seq<char>,
)
    ensures
        ({
            let read = keychain::call_args(SecurityCall::Read { service, account });
            let store = keychain::call_args(SecurityCall::Upsert { service, account, credential });
            let delete = keychain::call_args(SecurityCall::Delete { service, account });
            let describe = keychain::call_args(SecurityCall::Detect { service });
            &&& read[0] == "find-generic-password"@ && store[0] == "add-generic-password"@
                && delete[0] == "delete-generic-password"@ && describe[0]
                == "find-generic-password"@
            &&& has_option(read, "-s"@, service) && has_option(store, "-s"@, service)
                && has_option(delete, "-s"@, service) && has_option(describe, "-s"@, service)
            &&& has_option(read, "-a"@, account) && has_option(store, "-a"@, account)
                && has_option(delete, "-a"@, account)
            &&& has_option(store, "-w"@, credential) && read[read.len() - 1] == "-w"@
            &&& store[1] == "-U"@
            &&& read.len() == 6 && store.len() == 8 && delete.len() == 5 && describe.len() == 3
        }),
{
    let read = keychain::call_args(SecurityCall::Read { service, account });
    let store = keychain::call_args(SecurityCall::Upsert { service, account, credential });
    let delete = keychain::call_args(SecurityCall::Delete { service, account });
    let describe = keychain::call_args(SecurityCall::Detect { service });
    assert(read[1] == "-s"@ && read[3] == "-a"@);
    assert(store[2] == "-s"@ && store[4] == "-a"@ && store[6] == "-w"@);
    assert(delete[1] == "-s"@ && delete[3] == "-a"@);
    assert(describe[1] == "-s"@);
}

/// A call gives something exactly where the tool succeeded, and a description
/// also has to name an account. A credential is given without the line feeds
/// behind it. Where the tool fails or cannot be run, the error says for what.
pub proof fn calls_give_what_the_tool_printed(
    service: Seq<char>,
    account: Seq<char>,
    credential: Seq<char>,
    read: Seq<char>,
    feeds: Seq<char>,
    stdout: Seq<char>,
    stderr: Seq<char>,
)
    requires
        read.len() > 0 ==> read.last() != '\n',
        forall|i: int| 0 <= i < feeds.len() ==> #[trigger] feeds[i] == '\n',
    ensures
        ({
            let reading = SecurityCall::Read { service, account };
            let storing = SecurityCall::Upsert { service, account, credential };
            let deleting = SecurityCall::Delete { service, account };
            let describing = SecurityCall::Detect { service };
            &&& keychain::call_result(reading, Some((true, read + feeds, stderr))) == Ok::<
                Seq<char>,
                KeychainError<Seq<char>>,
            >(read)
            &&& keychain::call_result(reading, Some((false, stdout, stderr))) == Err::<
                Seq<char>,
                KeychainError<Seq<char>>,
            >(KeychainError::ReadFailed { service, account })
            &&& keychain::call_result(storing, Some((true, stdout, stderr))) is Ok
            &&& keychain::call_result(storing, Some((false, stdout, stderr))) == Err::<
                Seq<char>,
                KeychainError<Seq<char>>,
            >(KeychainError::UpsertFailed { service, account, reason: text::trim(stderr) })
            &&& keychain::call_result(deleting, Some((true, stdout, stderr))) is Ok
            &&& keychain::call_result(deleting, Some((false, stdout, stderr))) == Err::<
                Seq<char>,
                KeychainError<Seq<char>>,
            >(KeychainError::DeleteFailed)
            &&& keychain::call_result(describing, Some((false, stdout, stderr))) == Err::<
                Seq<char>,
                KeychainError<Seq<char>>,
            >(KeychainError::NotLoggedIn)
            &&& keychain::keychain_account(stdout) matches Some(found) ==> keychain::call_result(
                describing,
                Some((true, stdout, stderr)),
            ) == Ok::<Seq<char>, KeychainError<Seq<char>>>(found)
            &&& keychain::keychain_account(stdout) is None ==> keychain::call_result(
                describing,
                Some((true, stdout, stderr)),
            ) == Err::<Seq<char>, KeychainError<Seq<char>>>(KeychainError::AccountUnknown)
            &&& keychain::call_result(reading, None) == Err::<Seq<char>, KeychainError<Seq<char>>>(
                KeychainError::NotRun { service },
            )
            &&& keychain::call_result(storing, None) == Err::<Seq<char>, KeychainError<Seq<char>>>(
                KeychainError::NotRun { service },
            )
            &&& keychain::call_result(deleting, None) == Err::<Seq<char>, KeychainError<Seq<char>>>(
                KeychainError::NotRun { service },
            )
            &&& keychain::call_result(describing, None) == Err::<
                Seq<char>,
                KeychainError<Seq<char>>,
            >(KeychainError::DetectNotRun)
        }),
{
    text_laws::end_is_taken_off(read, feeds, '\n');
}

/// The first line that speaks of an account decides: the account stands behind
/// the first equals sign and quotation mark on it, and there is none without
/// these, whatever follows. Without such a line there is none either.
pub proof fn first_account_line_decides(
    before: Seq<Seq<char>>,
    line: Seq<char>,
    after: Seq<Seq<char>>,
)
    requires
        forall|i: int| 0 <= i < before.len() ==> !text::contains(#[trigger] before[i], "\"acct\""@),
        text::contains(line, "\"acct\""@),
    ensures
        keychain::account_among(before) is None,
        keychain::account_among(before + (seq![line] + after)) == keychain::account_on(line),
        !text::contains(line, "=\""@) ==> keychain::account_on(line) is None,
    decreases before.len(),
{
    let rest = seq![line] + after;
    assert(rest[0] == line);
    if before.len() == 0 {
        assert(before + rest =~= rest);
    } else {
        let less = before.drop_first();
        assert forall|i: int| 0 <= i < less.len() implies !text::contains(
            #[trigger] less[i],
            "\"acct\""@,
        ) by {
            assert(less[i] == before[i + 1]);
        }
        first_account_line_decides(less, line, after);
        assert((before + rest)[0] == before[0]);
        assert((before + rest).drop_first() =~= less + rest);
    }
}

/// The account is what stands behind the first equals sign and quotation mark of
/// its line, without the quotation marks at the end.
pub proof fn account_stands_behind_the_mark(
    before: Seq<char>,
    account: Seq<char>,
    marks: Seq<char>,
)
    requires
        forall|i: int| 0 <= i < before.len() ==> #[trigger] before[i] != '=',
        account.len() > 0 ==> account.last() != '"',
        forall|i: int| 0 <= i < marks.len() ==> #[trigger] marks[i] == '"',
    ensures
        keychain::account_on(before + (seq!['=', '"'] + (account + marks))) == Some(account),
{
    reveal_strlit("=\"");
    let value = account + marks;
    let line = before + (seq!['=', '"'] + value);
    let at = before.len() as int;
    assert("=\""@ =~= seq!['=', '"']);
    assert(line.subrange(at, at + 2) =~= "=\""@);
    assert forall|earlier: int| earlier < at implies !text::occurs_at(
        line,
        "=\""@,
        earlier,
    ) by {
        if 0 <= earlier {
            assert(line[earlier] == before[earlier]);
            assert(line.subrange(earlier, earlier + 2)[0] == line[earlier]);
        }
    }
    text::lemma_after_first(line, "=\""@, at);
    assert(line.skip(at + 2) =~= value);
    text_laws::end_is_taken_off(account, marks, '"');
}

/// The programs are named after the command of their client, which obeys the
/// rules for names, and are recognised by such names only.
pub proof fn programs_are_named_after_their_client(
    program: Program,
    name: Seq<char>,
    command: Seq<char>,
)
    ensures
        program.product == Product::QuotaRouter ==> program::program_name(program)
            == program.client.command@ + "-quota-router"@,
        program.product == Product::PlanSwap ==> program::program_name(program)
            == program.client.command@ + "-plan-swap"@,
        program::is_named(name, Product::QuotaRouter, command) <==> domain::name_error(
            command,
        ) is None && name == command + "-quota-router"@,
        program::is_named(name, Product::PlanSwap, command) <==> domain::name_error(command) is None
            && name == command + "-plan-swap"@,
{
}

/// A command is a program's own if it holds the program's name and the word
/// statusline, each somewhere; a command without either is not.
pub proof fn own_commands_hold_name_and_word(program: Program, command: Seq<char>)
    ensures
        settings::is_own(program, command) ==> exists|before: Seq<char>, after: Seq<char>|
            command == #[trigger] (before + program::program_name(program) + after),
        settings::is_own(program, command) ==> exists|before: Seq<char>, after: Seq<char>|
            command == #[trigger] (before + "statusline"@ + after),
        (exists|before: Seq<char>, after: Seq<char>|
            command == #[trigger] (before + program::program_name(program) + after)) && (exists|
            before: Seq<char>,
            after: Seq<char>,
        |
            command == #[trigger] (before + "statusline"@ + after)) ==> settings::is_own(
            program,
            command,
        ),
{
    text_laws::containing_is_standing_between(command, program::program_name(program));
    text_laws::containing_is_standing_between(command, "statusline"@);
}

/// A command of another program, in which the program's name does not occur, is
/// never lost: installing keeps it, and uninstalling leaves it alone.
pub proof fn foreign_commands_are_not_lost(
    program: Program,
    members: Map<Seq<char>, Json>,
    entry: Map<Seq<char>, Json>,
    command: Seq<char>,
    exe: Seq<char>,
    written: Seq<char>,
    prior: Option<Seq<char>>,
    inner: Option<Seq<char>>,
    undone: Option<Seq<char>>,
)
    requires
        members.contains_key("statusLine"@),
        members["statusLine"@] == Json::Object(entry),
        entry.contains_key("command"@),
        entry["command"@] == Json::Text(command),
        forall|before: Seq<char>, after: Seq<char>|
            command != #[trigger] (before + program::program_name(program) + after),
    ensures
        settings::command_in(Json::Object(members)) == Some(command),
        settings::installs(program, Json::Object(members), exe, written, prior) ==> prior == Some(
            command,
        ),
        settings::uninstalls(program, Json::Object(members), inner, undone) ==> undone is None,
        !settings::names_own(program, Json::Object(members)),
{
    own_commands_hold_name_and_word(program, command);
}

/// What is not a command in the settings is not taken for one.
pub proof fn only_texts_are_commands(program: Program, settings: Json)
    ensures
        settings::command_in(settings) matches Some(command) ==> json::member_at(
            settings,
            "statusLine"@,
            "command"@,
        ) == Some(Json::Text(command)),
        settings::command_in(settings) is None ==> settings::foreign_command(
            program,
            settings,
        ) is None && !settings::names_own(program, settings),
        settings::foreign_command(program, settings) matches Some(command)
            ==> settings::command_in(settings) == Some(command) && !settings::is_own(
            program,
            command,
        ),
        settings::names_own(program, settings) <==> settings::command_in(settings) is Some
            && settings::foreign_command(program, settings) is None,
{
}

/// A statusline entry names its command and that it is one, and nothing else.
/// Putting it into settings, or taking it out, leaves every other entry alone.
pub proof fn entries_are_put_in_and_taken_out(
    members: Map<Seq<char>, Json>,
    command: Seq<char>,
    key: Seq<char>,
)
    ensures
        ({
            let with = settings::with_command(Json::Object(members), command);
            let without = settings::without_command(Json::Object(members));
            &&& json::member(with, "statusLine"@) == Some(
                Json::Object(
                    map!["type"@ => Json::Text("command"@), "command"@ => Json::Text(command)],
                ),
            )
            &&& key != "statusLine"@ ==> json::member(with, key) == json::member(
                Json::Object(members),
                key,
            ) && json::member(without, key) == json::member(Json::Object(members), key)
            &&& json::member(without, "statusLine"@) is None
            &&& settings::with_command(Json::Null, command) == settings::with_command(
                Json::Object(Map::empty()),
                command,
            )
        }),
{
    reveal_strlit("type");
    reveal_strlit("command");
    assert("type"@.len() == 4 && "command"@.len() == 7);
    let entry = map!["type"@ => Json::Text("command"@), "command"@ => Json::Text(command)];
    let made = Map::<Seq<char>, Json>::empty().insert("type"@, Json::Text("command"@)).insert(
        "command"@,
        Json::Text(command),
    );
    assert(made =~= entry);
}

/// Uninstalling puts the kept command back without the white space around it,
/// or takes the entry out where none was kept.
pub proof fn uninstalling_puts_kept_command_back(
    members: Map<Seq<char>, Json>,
    before: Seq<char>,
    command: Seq<char>,
    after: Seq<char>,
)
    requires
        text_laws::is_blank(before),
        text_laws::is_blank(after),
        text_laws::is_bare(command),
    ensures
        settings::command_in(
            settings::restored(Json::Object(members), Some(before + command + after)),
        ) == Some(command),
        json::member(settings::restored(Json::Object(members), None), "statusLine"@) is None,
{
    text_laws::trimming_leaves_bare_text(before, command, after);
    entries_are_put_in_and_taken_out(members, command, "statusLine"@);
    reveal_strlit("type");
    reveal_strlit("command");
}

/// A shell reads the installed command as the path of the program, whatever that
/// holds, and the word statusline behind it.
pub proof fn installed_command_runs_program(exe: Seq<char>)
    ensures
        exists|word: Seq<char>|
            settings::own_command(exe) == #[trigger] (word + " statusline"@) && util::shell_word(
                word,
                false,
            ) == Some(exe),
{
    util::shell_reads_quoted_text(exe);
    let word = util::shell_quoted(exe);
    assert(settings::own_command(exe) == word + " statusline"@);
}

/// Without a settings file there are no settings; with one they are what its
/// JSON holds. They are written as JSON with a line feed behind it.
pub proof fn settings_are_those_of_the_file(file: Seq<char>, settings: Json, text: Seq<char>)
    ensures
        settings::settings_in(None) == Some(Json::Object(Map::empty())),
        settings::settings_in(Some(file)) == json::json_from_text(file),
        settings::settings_text(settings) == Some(text) ==> text.len() > 0 && text.last() == '\n'
            && json::json_printed(settings) == Some(text.drop_last()),
        settings::settings_text(settings) is None <==> json::json_printed(settings) is None,
{
    reveal_strlit("\n");
    if let Some(printed) = json::json_printed(settings) {
        assert((printed + "\n"@).drop_last() =~= printed);
    }
}

proof fn lemma_part_is_contained(before: Seq<char>, part: Seq<char>, after: Seq<char>)
    ensures
        text::contains(before + part + after, part),
{
    let whole = before + part + after;
    let at = before.len() as int;
    assert(whole.subrange(at, at + part.len()) =~= part);
    assert(text::occurs_at(whole, part, at));
}

/// What is reported of a failed call holds the service and the account that it
/// was for, and why it failed where the tool says so.
pub proof fn call_errors_say_for_what(
    service: Seq<char>,
    account: Seq<char>,
    reason: Seq<char>,
    program: Program,
)
    ensures
        ({
            let not_run = keychain::error_text(KeychainError::NotRun { service }, program);
            let unread = keychain::error_text(
                KeychainError::ReadFailed { service, account },
                program,
            );
            let unstored = keychain::error_text(
                KeychainError::UpsertFailed { service, account, reason },
                program,
            );
            let title = program::client_title(program.client);
            &&& text::contains(not_run, service)
            &&& text::contains(unread, service) && text::contains(unread, account)
            &&& text::contains(unstored, service) && text::contains(unstored, account)
                && text::contains(unstored, reason)
            &&& text::contains(
                keychain::error_text(KeychainError::NotLoggedIn, program),
                program.client.command@,
            )
            &&& text::contains(keychain::error_text(KeychainError::NotLoggedIn, program), title)
            &&& text::contains(keychain::error_text(KeychainError::DetectNotRun, program), title)
        }),
{
    let none = Seq::<char>::empty();
    let title = program::client_title(program.client);
    let command = program.client.command@;
    let start = "failed to run security for service "@;
    assert(start + service + none =~= start + service);
    lemma_part_is_contained(start, service, none);
    let find = "security find-generic-password failed for service "@;
    let unread = find + service + " account "@ + account;
    assert(unread =~= find + service + (" account "@ + account));
    lemma_part_is_contained(find, service, " account "@ + account);
    assert(unread =~= (find + service + " account "@) + account + none);
    lemma_part_is_contained(find + service + " account "@, account, none);
    let add_words = "security add-generic-password failed for service "@;
    let unstored = add_words + service + " account "@ + account + ": "@ + reason;
    assert(unstored =~= add_words + service + (" account "@ + account + ": "@ + reason));
    lemma_part_is_contained(add_words, service, " account "@ + account + ": "@ + reason);
    let front = add_words + service + " account "@;
    assert(unstored =~= front + account + (": "@ + reason));
    lemma_part_is_contained(front, account, ": "@ + reason);
    assert(unstored =~= (front + account + ": "@) + reason + none);
    lemma_part_is_contained(front + account + ": "@, reason, none);
    let hint = " credential not found in Keychain; log in with "@;
    let missing = title + hint + command + " first"@;
    assert(missing =~= none + title + (hint + command + " first"@));
    lemma_part_is_contained(none, title, hint + command + " first"@);
    lemma_part_is_contained(title + hint, command, " first"@);
    lemma_part_is_contained("failed to run security to detect active "@, title, " account"@);
}

/// What is reported of a failed switch or login holds the name that it concerns.
pub proof fn step_errors_say_for_whom(name: Seq<char>, client: Client)
    ensures
        switcher::error_text(SwitchError::NotSaved { name }) matches Some(said) && text::contains(
            said,
            name,
        ),
        switcher::error_text(SwitchError::BackupFailed { name }) matches Some(said)
            && text::contains(said, name),
        switcher::error_text(SwitchError::TargetUnreadable { name }) matches Some(said)
            && text::contains(said, name),
        switcher::error_text(SwitchError::ActivationFailed { name }) matches Some(said)
            && text::contains(said, name),
        setup::error_text(SetupError::StoreFailed { name }, client) matches Some(said)
            && text::contains(said, name),
        setup::error_text(SetupError::CredentialUnreadable, client) matches Some(said)
            && text::contains(said, program::client_title(client)),
        switcher::error_text(SwitchError::AccountUnknown) is None,
        setup::error_text(SetupError::AccountUnknown, client) is None,
{
    let none = Seq::<char>::empty();
    let words = seq![
        "plan is not saved: "@,
        "failed to update current plan backup for "@,
        "failed to read saved credential for "@,
        "failed to activate plan "@,
        "failed to save plan credential for "@,
    ];
    assert forall|i: int| 0 <= i < words.len() implies text::contains(
        #[trigger] words[i] + name,
        name,
    ) by {
        assert(words[i] + name + none =~= words[i] + name);
        lemma_part_is_contained(words[i], name, none);
    }
    assert(text::contains(words[0] + name, name));
    assert(text::contains(words[1] + name, name));
    assert(text::contains(words[2] + name, name));
    assert(text::contains(words[3] + name, name));
    assert(text::contains(words[4] + name, name));
    lemma_part_is_contained(
        "failed to read active "@,
        program::client_title(client),
        " credential from Keychain"@,
    );
}

/// Errors that concern a name say it, and are told apart by what they say.
pub proof fn errors_name_what_they_concern(name: Seq<char>, product: Product, error: NameError)
    ensures
        commands::error_text(CommandError::PreviousNotSaved { name }, product) == Some(
            "previous plan is not saved: "@ + name,
        ),
        commands::error_text(CommandError::NotSaved { name }, product) == Some(
            "plan is not saved: "@ + name,
        ),
        commands::error_text(CommandError::Switch(SwitchError::NotSaved { name }), product) == Some(
            "plan is not saved: "@ + name,
        ),
        commands::error_text(CommandError::<Seq<char>>::BadName(error), Product::QuotaRouter)
            == Some(domain::name_error_text(error, "account"@)),
        commands::error_text(CommandError::<Seq<char>>::BadName(error), Product::PlanSwap) == Some(
            domain::name_error_text(error, "plan"@),
        ),
{
}

} // verus!
