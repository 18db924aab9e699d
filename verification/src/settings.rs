//! The statusline command in the client's settings.
//!
//! Installing puts the program's own command there and keeps the one that was
//! there before; uninstalling puts that one back.

use serde_json::Value;
use vstd::prelude::*;
use vstd::string::*;
use crate::domain;
use crate::json;
use crate::json::Json;
use crate::program;
use crate::program::Program;
use crate::text;
use crate::util;

verus! {

/// The statusline command of a program that is run from the path `exe`.
pub open spec fn own_command(exe: Seq<char>) -> Seq<char> {
    util::shell_quoted(exe) + " statusline"@
}

/// The statusline command of a program that is run from the path `exe`.
pub fn statusline_command(exe: &str) -> (r: String)
    ensures
        r@ == own_command(exe@),
{
    let mut r = util::shell_quote(exe);
    r.append(" statusline");
    r
}

/// Whether a command is the statusline command of a program.
pub open spec fn is_own(program: Program, command: Seq<char>) -> bool {
    text::contains(command, program::program_name(program)) && text::contains(
        command,
        "statusline"@,
    )
}

/// Whether a command is the statusline command of a program.
pub fn is_our_statusline_command(program: Program, command: &str) -> (r: bool)
    ensures
        r == is_own(program, command@),
{
    text::contains_text(command, program.name().as_str()) && text::contains_text(command, "statusline")
}

/// The statusline command that settings name.
pub open spec fn command_in(settings: Json) -> Option<Seq<char>> {
    match json::member_at(settings, "statusLine"@, "command"@) {
        Some(command) => json::text_in(command),
        None => None,
    }
}

/// The entry that makes `command` the statusline command.
pub open spec fn command_entry(command: Seq<char>) -> Json {
    Json::Object(
        Map::empty().insert("type"@, Json::Text("command"@)).insert(
            "command"@,
            Json::Text(command),
        ),
    )
}

/// Settings with `command` as the statusline command.
pub open spec fn with_command(settings: Json, command: Seq<char>) -> Json {
    Json::Object(json::members(settings).insert("statusLine"@, command_entry(command)))
}

/// Settings without a statusline command.
pub open spec fn without_command(settings: Json) -> Json {
    match settings {
        Json::Object(members) => Json::Object(members.remove("statusLine"@)),
        other => other,
    }
}

/// The statusline command of another program that settings name.
pub open spec fn foreign_command(program: Program, settings: Json) -> Option<Seq<char>> {
    match command_in(settings) {
        Some(command) => if is_own(program, command) {
            None
        } else {
            Some(command)
        },
        None => None,
    }
}

/// Whether settings name the statusline command of a program.
pub open spec fn names_own(program: Program, settings: Json) -> bool {
    command_in(settings) matches Some(command) && is_own(program, command)
}

/// Settings after uninstalling: with the command that was wrapped, where one was
/// kept.
pub open spec fn restored(settings: Json, inner: Option<Seq<char>>) -> Json {
    match inner {
        Some(inner) => with_command(settings, text::trim(inner)),
        None => without_command(settings),
    }
}

/// Why settings are not changed.
#[derive(Clone, Copy, Debug, PartialEq, Eq, Structural)]
pub enum SettingsError {
    /// They are no JSON.
    Unreadable,
    /// They are neither an object nor null, so that they cannot have entries.
    NoObject,
    /// They cannot be printed.
    Unprintable,
}

/// What installing the statusline command comes to.
#[derive(Debug)]
pub struct Installation {
    /// The settings to write.
    pub settings: String,
    /// The command to keep, where another program's is replaced.
    pub prior: Option<String>,
}

/// What the settings file holds: an empty object where there is no file.
pub open spec fn settings_in(file: Option<Seq<char>>) -> Option<Json> {
    match file {
        Some(text) => json::json_from_text(text),
        None => Some(Json::Object(Map::empty())),
    }
}

/// The text of a file, where there is one.
pub open spec fn file_text(file: Option<&str>) -> Option<Seq<char>> {
    match file {
        Some(text) => Some(text@),
        None => None,
    }
}

fn load_settings(file: Option<&str>) -> (r: Option<Value>)
    ensures
        match r {
            Some(value) => {
                &&& settings_in(file_text(file)) == Some(json::json_of(value))
                &&& json::is_nested_within(json::json_of(value), 127)
            },
            None => settings_in(file_text(file)) is None,
        },
{
    match file {
        Some(text) => match json::parse_text(text) {
            Ok(value) => Some(value),
            Err(_) => None,
        },
        None => Some(json::empty_object()),
    }
}

fn read_command(settings: &Value) -> (r: Option<String>)
    ensures
        text::text_of(r) == command_in(json::json_of(*settings)),
{
    match json::get(settings, "statusLine") {
        Some(entry) => match json::get(entry, "command") {
            Some(command) => match json::as_str(command) {
                Some(text) => Some(text.to_owned()),
                None => None,
            },
            None => None,
        },
        None => None,
    }
}

fn put_command(settings: &mut Value, command: &str)
    requires
        json::json_of(*old(settings)) is Object || json::json_of(*old(settings)) is Null,
    ensures
        json::json_of(*final(settings)) == with_command(json::json_of(*old(settings)), command@),
{
    let mut entry = json::empty_object();
    json::set(&mut entry, "type", json::string_value("command"));
    json::set(&mut entry, "command", json::string_value(command));
    json::set(settings, "statusLine", entry);
}

/// The text of a settings file.
pub open spec fn settings_text(settings: Json) -> Option<Seq<char>> {
    match json::json_printed(settings) {
        Some(text) => Some(text + "\n"@),
        None => None,
    }
}

proof fn lemma_command_nests(settings: Json, command: Seq<char>)
    ensures
        json::is_nested_within(settings, 127) ==> json::is_nested_within(
            with_command(settings, command),
            127,
        ),
        json::doubles_read_back(settings, 127) ==> json::doubles_read_back(
            with_command(settings, command),
            127,
        ),
{
    let entry = command_entry(command);
    let entries = entry->Object_0;
    assert forall|key: Seq<char>| entries.contains_key(key) implies json::is_nested_within(
        #[trigger] entries[key],
        125,
    ) && json::doubles_read_back(entries[key], 125) by {}
    assert(json::is_nested_within(entry, 126));
    assert(json::doubles_read_back(entry, 126));
    let before = json::members(settings);
    let after = before.insert("statusLine"@, entry);
    if json::is_nested_within(settings, 127) {
        assert forall|key: Seq<char>| after.contains_key(key) implies json::is_nested_within(
            #[trigger] after[key],
            126,
        ) by {
            if key != "statusLine"@ {
                assert(before.contains_key(key) && after[key] == before[key]);
                assert(json::is_nested_within(before[key], 126));
            }
        }
    }
    if json::doubles_read_back(settings, 127) {
        assert forall|key: Seq<char>| after.contains_key(key) implies json::doubles_read_back(
            #[trigger] after[key],
            126,
        ) by {
            if key != "statusLine"@ {
                assert(before.contains_key(key) && after[key] == before[key]);
                assert(json::doubles_read_back(before[key], 126));
            }
        }
    }
}

proof fn lemma_removal_nests(settings: Json)
    ensures
        json::is_nested_within(settings, 127) ==> json::is_nested_within(
            without_command(settings),
            127,
        ),
        json::doubles_read_back(settings, 127) ==> json::doubles_read_back(
            without_command(settings),
            127,
        ),
{
    if let Json::Object(members) = settings {
        let after = members.remove("statusLine"@);
        if json::is_nested_within(settings, 127) {
            assert forall|key: Seq<char>| after.contains_key(key) implies json::is_nested_within(
                #[trigger] after[key],
                126,
            ) by {
                assert(json::is_nested_within(members[key], 126));
            }
        }
        if json::doubles_read_back(settings, 127) {
            assert forall|key: Seq<char>| after.contains_key(key) implies json::doubles_read_back(
                #[trigger] after[key],
                126,
            ) by {
                assert(json::doubles_read_back(members[key], 126));
            }
        }
    }
}

fn print_settings(settings: &Value) -> (r: Result<String, SettingsError>)
    requires
        json::is_nested_within(json::json_of(*settings), 127),
    ensures
        match r {
            Ok(text) => {
                &&& settings_text(json::json_of(*settings)) == Some(text@)
                &&& json::doubles_read_back(json::json_of(*settings), 127) ==> settings_in(
                    Some(text@),
                ) == Some(json::json_of(*settings))
            },
            Err(error) => settings_text(json::json_of(*settings)) is None && error
                == SettingsError::Unprintable,
        },
{
    match json::print(settings) {
        Ok(text) => {
            let mut text = text;
            text.append("\n");
            Ok(text)
        },
        Err(_) => Err(SettingsError::Unprintable),
    }
}

/// Whether `text` are the settings to write and `prior` is the command to keep
/// when the program at `exe` is installed into `settings`.
pub open spec fn installs(
    program: Program,
    settings: Json,
    exe: Seq<char>,
    text: Seq<char>,
    prior: Option<Seq<char>>,
) -> bool {
    let installed = with_command(settings, own_command(exe));
    &&& settings_text(installed) == Some(text)
    &&& prior == foreign_command(program, settings)
    &&& json::doubles_read_back(settings, 127) ==> settings_in(Some(text)) == Some(installed)
}

/// Whether `text` are the settings to write when a program is uninstalled from
/// `settings` and `inner` is the command that was kept. There are none to write
/// where the program is not installed.
pub open spec fn uninstalls(
    program: Program,
    settings: Json,
    inner: Option<Seq<char>>,
    text: Option<Seq<char>>,
) -> bool {
    match text {
        Some(text) => {
            &&& names_own(program, settings)
            &&& settings_text(restored(settings, inner)) == Some(text)
            &&& json::doubles_read_back(settings, 127) ==> settings_in(Some(text)) == Some(
                restored(settings, inner),
            )
        },
        None => !names_own(program, settings),
    }
}

/// Make the command of the program at `exe` the statusline command. `file` is
/// the text of the settings file, where there is one. Reading the new text gives
/// the new settings, unless a double in them is not read back.
pub fn cmd_install(program: Program, file: Option<&str>, exe: &str) -> (r: Result<
    Installation,
    SettingsError,
>)
    ensures
        ({
            let settings = settings_in(file_text(file));
            let fits = settings matches Some(json) && (json is Object || json is Null);
            match r {
                Ok(done) => {
                    &&& fits
                    &&& installs(
                        program,
                        settings->0,
                        exe@,
                        done.settings@,
                        text::text_of(done.prior),
                    )
                },
                Err(SettingsError::Unreadable) => settings is None,
                Err(SettingsError::NoObject) => settings is Some && !fits,
                Err(SettingsError::Unprintable) => fits && settings_text(
                    with_command(settings->0, own_command(exe@)),
                ) is None,
            }
        }),
{
    let mut settings = match load_settings(file) {
        Some(settings) => settings,
        None => return Err(SettingsError::Unreadable),
    };
    let prior = match read_command(&settings) {
        Some(command) => if is_our_statusline_command(program, command.as_str()) {
            None
        } else {
            Some(command)
        },
        None => None,
    };
    if !json::is_object(&settings) && !json::is_null(&settings) {
        return Err(SettingsError::NoObject);
    }
    proof {
        lemma_command_nests(json::json_of(settings), own_command(exe@));
    }
    put_command(&mut settings, statusline_command(exe).as_str());
    match print_settings(&settings) {
        Ok(settings) => Ok(Installation { settings, prior }),
        Err(error) => Err(error),
    }
}

/// Whether the settings name the statusline command of a program.
pub fn is_installed(program: Program, file: Option<&str>) -> (r: Result<bool, SettingsError>)
    ensures
        match r {
            Ok(installed) => settings_in(file_text(file)) is Some && installed == names_own(
                program,
                settings_in(file_text(file))->0,
            ),
            Err(error) => settings_in(file_text(file)) is None && error
                == SettingsError::Unreadable,
        },
{
    match load_settings(file) {
        Some(settings) => match read_command(&settings) {
            Some(command) => Ok(is_our_statusline_command(program, command.as_str())),
            None => Ok(false),
        },
        None => Err(SettingsError::Unreadable),
    }
}

/// Take the program's statusline command out of the settings and put `inner`
/// back, the command kept when it was installed. Gives the settings to write,
/// or nothing where the command is not installed. They are read back as after
/// installing.
pub fn cmd_uninstall(program: Program, file: Option<&str>, inner: Option<&str>) -> (r: Result<
    Option<String>,
    SettingsError,
>)
    ensures
        ({
            let settings = settings_in(file_text(file));
            let own = settings matches Some(json) && names_own(program, json);
            match r {
                Ok(text) => settings is Some && uninstalls(
                    program,
                    settings->0,
                    file_text(inner),
                    text::text_of(text),
                ),
                Err(SettingsError::Unreadable) => settings is None,
                Err(SettingsError::NoObject) => false,
                Err(SettingsError::Unprintable) => own && settings_text(
                    restored(settings->0, file_text(inner)),
                ) is None,
            }
        }),
{
    let mut settings = match load_settings(file) {
        Some(settings) => settings,
        None => return Err(SettingsError::Unreadable),
    };
    let own = match read_command(&settings) {
        Some(command) => is_our_statusline_command(program, command.as_str()),
        None => false,
    };
    if !own {
        return Ok(None);
    }
    proof {
        if let Some(inner) = inner {
            lemma_command_nests(json::json_of(settings), text::trim(inner@));
        }
        lemma_removal_nests(json::json_of(settings));
    }
    match inner {
        Some(inner) => put_command(&mut settings, text::trimmed(inner).as_str()),
        None => {
            json::remove(&mut settings, "statusLine");
        },
    }
    match print_settings(&settings) {
        Ok(text) => Ok(Some(text)),
        Err(error) => Err(error),
    }
}

proof fn lemma_quoted_holds(exe: Seq<char>, name: Seq<char>)
    requires
        text::contains(exe, name),
        forall|i: int| 0 <= i < name.len() ==> #[trigger] name[i] != '\'',
    ensures
        text::contains(util::shell_quoted(exe), name),
{
    reveal_strlit("'");
    let quote = "'\\''"@;
    let at = choose|at: int| text::occurs_at(exe, name, at);
    let before = exe.take(at);
    let after = exe.skip(at + name.len());
    assert(exe =~= before + (name + after));
    text::lemma_replace_char_concat(before, name + after, '\'', quote);
    text::lemma_replace_char_concat(name, after, '\'', quote);
    text::lemma_replace_char_absent(name, '\'', quote);
    let left = text::replace_char(before, '\'', quote);
    let right = text::replace_char(after, '\'', quote);
    let quoted = util::shell_quoted(exe);
    assert(quoted =~= ("'"@ + left) + name + (right + "'"@));
    let place = 1 + left.len() as int;
    assert(quoted.subrange(place, place + name.len()) =~= name);
    assert(text::occurs_at(quoted, name, place));
}

proof fn lemma_contains_in_concat(a: Seq<char>, b: Seq<char>, pattern: Seq<char>)
    ensures
        text::contains(a, pattern) ==> text::contains(a + b, pattern),
        text::contains(b, pattern) ==> text::contains(a + b, pattern),
{
    if text::contains(a, pattern) {
        let at = choose|at: int| text::occurs_at(a, pattern, at);
        assert((a + b).subrange(at, at + pattern.len()) =~= a.subrange(at, at + pattern.len()));
        assert(text::occurs_at(a + b, pattern, at));
    }
    if text::contains(b, pattern) {
        let at = choose|at: int| text::occurs_at(b, pattern, at);
        let place = a.len() + at;
        assert((a + b).subrange(place, place + pattern.len()) =~= b.subrange(
            at,
            at + pattern.len(),
        ));
        assert(text::occurs_at(a + b, pattern, place));
    }
}

proof fn lemma_name_needs_no_quoting(program: Program)
    requires
        domain::name_error(program.client.command@) is None,
    ensures
        forall|i: int|
            0 <= i < program::program_name(program).len() ==> #[trigger] program::program_name(
                program,
            )[i] != '\'',
{
    domain::valid_names_are_plain(program.client.command@);
    reveal_strlit("-quota-router");
    reveal_strlit("-plan-swap");
}

/// A program whose path holds its name recognises the command that it installs
/// as its own, where the command of its client obeys the rules for names.
pub proof fn own_command_is_recognised(program: Program, exe: Seq<char>)
    requires
        domain::name_error(program.client.command@) is None,
        text::contains(exe, program::program_name(program)),
    ensures
        is_own(program, own_command(exe)),
{
    let name = program::program_name(program);
    lemma_name_needs_no_quoting(program);
    lemma_quoted_holds(exe, name);
    lemma_contains_in_concat(util::shell_quoted(exe), " statusline"@, name);
    assert(text::contains(" statusline"@, "statusline"@)) by {
        reveal_strlit(" statusline");
        reveal_strlit("statusline");
        assert(" statusline"@.subrange(1, 11) =~= "statusline"@);
        assert(text::occurs_at(" statusline"@, "statusline"@, 1));
    }
    lemma_contains_in_concat(util::shell_quoted(exe), " statusline"@, "statusline"@);
}

/// Installing makes the command the one that the settings name and changes no
/// other entry. Installing again keeps nothing: a program's own command is never
/// taken for one to be put back.
pub proof fn installing_names_command(program: Program, settings: Json, command: Seq<char>)
    requires
        is_own(program, command),
    ensures
        command_in(with_command(settings, command)) == Some(command),
        names_own(program, with_command(settings, command)),
        foreign_command(program, with_command(settings, command)) is None,
        forall|key: Seq<char>|
            key != "statusLine"@ ==> #[trigger] json::member(with_command(settings, command), key)
                == json::member(Json::Object(json::members(settings)), key),
{
    lemma_command_entry(command);
}

proof fn lemma_command_entry(command: Seq<char>)
    ensures
        json::member(command_entry(command), "command"@) == Some(Json::Text(command)),
{
}

/// Uninstalling undoes installing: settings without a statusline entry are as
/// before, and so are settings that named a command and nothing else about the
/// statusline, where that command has no white space around it.
pub proof fn uninstalling_undoes_installing(
    program: Program,
    members: Map<Seq<char>, Json>,
    command: Seq<char>,
)
    requires
        is_own(program, command),
    ensures
        ({
            let before = Json::Object(members);
            let installed = with_command(before, command);
            let kept = foreign_command(program, before);
            &&& names_own(program, installed)
            &&& !members.contains_key("statusLine"@) ==> kept is None && restored(installed, kept)
                == before
            &&& forall|prior: Seq<char>|
                members.contains_key("statusLine"@) && members["statusLine"@]
                    == #[trigger] command_entry(prior) && !is_own(program, prior) && text::trim(
                    prior,
                ) == prior ==> kept == Some(prior) && restored(installed, kept) == before
        }),
{
    let before = Json::Object(members);
    let installed = with_command(before, command);
    installing_names_command(program, before, command);
    if !members.contains_key("statusLine"@) {
        assert(members.insert("statusLine"@, command_entry(command)).remove("statusLine"@)
            =~= members);
    }
    assert forall|prior: Seq<char>|
        members.contains_key("statusLine"@) && members["statusLine"@] == #[trigger] command_entry(
            prior,
        ) && !is_own(program, prior) && text::trim(prior) == prior implies foreign_command(
        program,
        before,
    ) == Some(prior) && restored(installed, foreign_command(program, before)) == before by {
        lemma_command_entry(prior);
        assert(members.insert("statusLine"@, command_entry(command)).insert(
            "statusLine"@,
            command_entry(prior),
        ) =~= members);
    }
}

/// Uninstalling undoes installing in the settings file: once a program is
/// installed and then uninstalled with the command that was kept, the file holds
/// the settings that it held before. These are an object without a statusline
/// entry, or one that names a command of another program without white space
/// around it and nothing else about the statusline. All of their doubles are
/// read back when printed by themselves.
pub proof fn uninstalled_file_holds_settings_again(
    program: Program,
    exe: Seq<char>,
    file: Option<Seq<char>>,
    members: Map<Seq<char>, Json>,
    installed: Seq<char>,
    prior: Option<Seq<char>>,
    uninstalled: Option<Seq<char>>,
)
    requires
        domain::name_error(program.client.command@) is None,
        text::contains(exe, program::program_name(program)),
        settings_in(file) == Some(Json::Object(members)),
        json::doubles_read_back(Json::Object(members), 127),
        members.contains_key("statusLine"@) ==> exists|command: Seq<char>|
            members["statusLine"@] == #[trigger] command_entry(command) && !is_own(program, command)
                && text::trim(command) == command,
        installs(program, Json::Object(members), exe, installed, prior),
        uninstalls(program, settings_in(Some(installed))->0, prior, uninstalled),
    ensures
        uninstalled is Some,
        settings_in(uninstalled) == settings_in(file),
{
    let before = Json::Object(members);
    let command = own_command(exe);
    own_command_is_recognised(program, exe);
    uninstalling_undoes_installing(program, members, command);
    lemma_command_nests(before, command);
}

} // verus!
