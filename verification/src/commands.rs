//! The commands that the host sends to the worker.
//!
//! A command is a JSON object `{"cmd": <name>, ...parameters}`. Every
//! parameter of a command is written, also one that has no value: a missing
//! number is `null` and a missing title is the empty text, since the worker
//! expects commands of a fixed shape. Nothing answers a command; what the
//! worker does about it arrives as events of their own.

use crate::json::{json_field, json_shape, JsonShape};
use crate::record::{
    empty_record, holds, is_record, optional_integer, put_bool, put_integer,
    put_optional_integer, put_text, put_text_list, texts_of, Field,
};
use serde_json::Value;
use vstd::prelude::*;

verus! {

/// Whether `value` is the command `name` with exactly the parameters
/// `params`.
pub open spec fn is_command(value: Value, name: Seq<char>, params: Map<Seq<char>, Field>) -> bool {
    &&& !params.contains_key("cmd"@)
    &&& is_record(value, params.insert("cmd"@, Field::Text(name)))
}

/// The title that is sent for a rule: the empty text where none was given.
pub open spec fn title_or_empty(title: Option<&str>) -> Seq<char> {
    match title {
        Some(text) => text@,
        None => Seq::empty(),
    }
}

/// No parameter is called `cmd`: that member is the command's name.
proof fn lemma_parameter_names()
    ensures
        "amount_ml"@ != "cmd"@,
        "minutes"@ != "cmd"@,
        "key"@ != "cmd"@,
        "value"@ != "cmd"@,
        "path"@ != "cmd"@,
        "id"@ != "cmd"@,
        "time"@ != "cmd"@,
        "action"@ != "cmd"@,
        "days"@ != "cmd"@,
        "enabled"@ != "cmd"@,
        "title"@ != "cmd"@,
{
    reveal_strlit("cmd");
    reveal_strlit("amount_ml");
    reveal_strlit("minutes");
    reveal_strlit("key");
    reveal_strlit("value");
    reveal_strlit("path");
    reveal_strlit("id");
    reveal_strlit("time");
    reveal_strlit("action");
    reveal_strlit("days");
    reveal_strlit("enabled");
    reveal_strlit("title");
    assert("amount_ml"@.len() == 9);
    assert("minutes"@.len() == 7);
    assert("key"@[0] != "cmd"@[0]);
    assert("value"@.len() == 5);
    assert("path"@.len() == 4);
    assert("id"@.len() == 2);
    assert("time"@.len() == 4);
    assert("action"@.len() == 6);
    assert("days"@.len() == 4);
    assert("enabled"@.len() == 7);
    assert("title"@.len() == 5);
    assert("cmd"@.len() == 3);
}

/// Names a record of parameters, which makes it a command.
fn named(record: Value, Ghost(params): Ghost<Map<Seq<char>, Field>>, name: &str) -> (command: Value)
    requires
        is_record(record, params),
        !params.contains_key("cmd"@),
    ensures
        is_command(command, name@, params),
{
    let mut command = record;
    put_text(&mut command, Ghost(params), "cmd", name);
    command
}

/// A command without parameters.
fn bare(name: &str) -> (command: Value)
    ensures
        is_command(command, name@, Map::empty()),
{
    named(empty_record(), Ghost(Map::empty()), name)
}

/// A command whose one parameter is a number.
fn with_number(name: &str, key: &str, number: i32) -> (command: Value)
    requires
        key@ != "cmd"@,
    ensures
        is_command(command, name@, map![key@ => Field::Integer(number as int)]),
{
    let mut record = empty_record();
    let ghost params = map![key@ => Field::Integer(number as int)];
    put_integer(&mut record, Ghost(Map::empty()), key, number);
    named(record, Ghost(params), name)
}

/// The title as it is sent.
fn title_text<'a>(title: Option<&'a str>) -> (text: &'a str)
    ensures
        text@ == title_or_empty(title),
{
    match title {
        Some(text) => text,
        None => {
            proof {
                reveal_strlit("");
            }
            ""
        },
    }
}

/// Records an amount of water drunk, in millilitres.
pub fn log_hydration(amount_ml: i32) -> (command: Value)
    ensures
        is_command(
            command,
            "log_hydration"@,
            map!["amount_ml"@ => Field::Integer(amount_ml as int)],
        ),
{
    proof {
        lemma_parameter_names();
    }
    with_number("log_hydration", "amount_ml", amount_ml)
}

/// Reports that the break was taken.
pub fn complete_break() -> (command: Value)
    ensures
        is_command(command, "complete_break"@, Map::empty()),
{
    bare("complete_break")
}

/// Puts the break off by some minutes.
pub fn snooze_break(minutes: i32) -> (command: Value)
    ensures
        is_command(command, "snooze_break"@, map!["minutes"@ => Field::Integer(minutes as int)]),
{
    proof {
        lemma_parameter_names();
    }
    with_number("snooze_break", "minutes", minutes)
}

/// Reports that the break was skipped.
pub fn skip_break() -> (command: Value)
    ensures
        is_command(command, "skip_break"@, Map::empty()),
{
    bare("skip_break")
}

/// Pauses the reminders, for some minutes or until they are resumed.
pub fn pause_reminders(minutes: Option<i32>) -> (command: Value)
    ensures
        is_command(command, "pause"@, map!["minutes"@ => optional_integer(minutes)]),
{
    proof {
        lemma_parameter_names();
    }
    let mut record = empty_record();
    let ghost params = map!["minutes"@ => optional_integer(minutes)];
    put_optional_integer(&mut record, Ghost(Map::empty()), "minutes", minutes);
    named(record, Ghost(params), "pause")
}

/// Resumes the reminders.
pub fn resume_reminders() -> (command: Value)
    ensures
        is_command(command, "resume"@, Map::empty()),
{
    bare("resume")
}

/// Asks for the worker's status.
pub fn get_status() -> (command: Value)
    ensures
        is_command(command, "get_status"@, Map::empty()),
{
    bare("get_status")
}

/// Asks for the statistics of the training data.
pub fn get_training_stats() -> (command: Value)
    ensures
        is_command(command, "get_training_stats"@, Map::empty()),
{
    bare("get_training_stats")
}

/// Asks for all settings.
pub fn get_settings() -> (command: Value)
    ensures
        is_command(command, "get_settings"@, Map::empty()),
{
    bare("get_settings")
}

/// Changes one setting.
pub fn update_setting(key: &str, value: &str) -> (command: Value)
    ensures
        is_command(
            command,
            "update_setting"@,
            map!["key"@ => Field::Text(key@), "value"@ => Field::Text(value@)],
        ),
{
    proof {
        lemma_parameter_names();
    }
    let mut record = empty_record();
    let ghost f1 = map!["key"@ => Field::Text(key@)];
    let ghost f2 = f1.insert("value"@, Field::Text(value@));
    put_text(&mut record, Ghost(Map::empty()), "key", key);
    put_text(&mut record, Ghost(f1), "value", value);
    named(record, Ghost(f2), "update_setting")
}

/// Asks the worker to export its training data to a file.
pub fn export_data(path: &str) -> (command: Value)
    ensures
        is_command(command, "export_data"@, map!["path"@ => Field::Text(path@)]),
{
    proof {
        lemma_parameter_names();
    }
    let mut record = empty_record();
    let ghost params = map!["path"@ => Field::Text(path@)];
    put_text(&mut record, Ghost(Map::empty()), "path", path);
    named(record, Ghost(params), "export_data")
}

/// Starts a work session: the timers begin to count.
pub fn start_session() -> (command: Value)
    ensures
        is_command(command, "start_session"@, Map::empty()),
{
    bare("start_session")
}

/// Pauses the work session: the timers freeze.
pub fn pause_session() -> (command: Value)
    ensures
        is_command(command, "pause_session"@, Map::empty()),
{
    bare("pause_session")
}

/// Resumes a paused work session.
pub fn resume_session() -> (command: Value)
    ensures
        is_command(command, "resume_session"@, Map::empty()),
{
    bare("resume_session")
}

/// Ends the work session: all timers are reset.
pub fn end_session() -> (command: Value)
    ensures
        is_command(command, "end_session"@, Map::empty()),
{
    bare("end_session")
}

/// Asks for all schedule rules.
pub fn get_schedule_rules() -> (command: Value)
    ensures
        is_command(command, "get_schedule_rules"@, Map::empty()),
{
    bare("get_schedule_rules")
}

/// The parameters that a new schedule rule is sent with.
pub open spec fn rule_params(
    time: Seq<char>,
    action: Seq<char>,
    days: Seq<Seq<char>>,
    title: Seq<char>,
) -> Map<Seq<char>, Field> {
    map![
        "time"@ => Field::Text(time),
        "action"@ => Field::Text(action),
        "days"@ => Field::TextList(days),
        "title"@ => Field::Text(title),
    ]
}

/// Adds a schedule rule.
pub fn add_schedule_rule(time: &str, action: &str, days: &Vec<String>, title: Option<&str>) -> (command:
    Value)
    ensures
        is_command(
            command,
            "add_schedule_rule"@,
            rule_params(time@, action@, texts_of(days@), title_or_empty(title)),
        ),
{
    proof {
        lemma_parameter_names();
    }
    let mut record = empty_record();
    let ghost f1 = map!["time"@ => Field::Text(time@)];
    let ghost f2 = f1.insert("action"@, Field::Text(action@));
    let ghost f3 = f2.insert("days"@, Field::TextList(texts_of(days@)));
    let ghost f4 = f3.insert("title"@, Field::Text(title_or_empty(title)));
    put_text(&mut record, Ghost(Map::empty()), "time", time);
    put_text(&mut record, Ghost(f1), "action", action);
    put_text_list(&mut record, Ghost(f2), "days", days);
    put_text(&mut record, Ghost(f3), "title", title_text(title));
    named(record, Ghost(f4), "add_schedule_rule")
}

/// The parameters that a changed schedule rule is sent with.
pub open spec fn changed_rule_params(
    id: int,
    time: Seq<char>,
    action: Seq<char>,
    days: Seq<Seq<char>>,
    enabled: bool,
    title: Seq<char>,
) -> Map<Seq<char>, Field> {
    map![
        "id"@ => Field::Integer(id),
        "time"@ => Field::Text(time),
        "action"@ => Field::Text(action),
        "days"@ => Field::TextList(days),
        "enabled"@ => Field::Bool(enabled),
        "title"@ => Field::Text(title),
    ]
}

/// Changes a schedule rule.
pub fn update_schedule_rule(
    id: i32,
    time: &str,
    action: &str,
    days: &Vec<String>,
    enabled: bool,
    title: Option<&str>,
) -> (command: Value)
    ensures
        is_command(
            command,
            "update_schedule_rule"@,
            changed_rule_params(
                id as int,
                time@,
                action@,
                texts_of(days@),
                enabled,
                title_or_empty(title),
            ),
        ),
{
    proof {
        lemma_parameter_names();
    }
    let mut record = empty_record();
    let ghost f1 = map!["id"@ => Field::Integer(id as int)];
    let ghost f2 = f1.insert("time"@, Field::Text(time@));
    let ghost f3 = f2.insert("action"@, Field::Text(action@));
    let ghost f4 = f3.insert("days"@, Field::TextList(texts_of(days@)));
    let ghost f5 = f4.insert("enabled"@, Field::Bool(enabled));
    let ghost f6 = f5.insert("title"@, Field::Text(title_or_empty(title)));
    put_integer(&mut record, Ghost(Map::empty()), "id", id);
    put_text(&mut record, Ghost(f1), "time", time);
    put_text(&mut record, Ghost(f2), "action", action);
    put_text_list(&mut record, Ghost(f3), "days", days);
    put_bool(&mut record, Ghost(f4), "enabled", enabled);
    put_text(&mut record, Ghost(f5), "title", title_text(title));
    named(record, Ghost(f6), "update_schedule_rule")
}

/// Deletes a schedule rule.
pub fn delete_schedule_rule(id: i32) -> (command: Value)
    ensures
        is_command(command, "delete_schedule_rule"@, map!["id"@ => Field::Integer(id as int)]),
{
    proof {
        lemma_parameter_names();
    }
    with_number("delete_schedule_rule", "id", id)
}

/// Resets all break timers; the session stays as it is.
pub fn reset_all_timers() -> (command: Value)
    ensures
        is_command(command, "reset_all_timers"@, Map::empty()),
{
    bare("reset_all_timers")
}

/// Tells the worker to shut down.
pub fn shutdown() -> (command: Value)
    ensures
        is_command(command, "shutdown"@, Map::empty()),
{
    bare("shutdown")
}

/// A command is complete: it is an object that holds its name under `cmd`
/// and every one of its parameters under the parameter's name, each with the
/// value it was given, and it holds nothing else. No parameter is left out,
/// also none without a value.
pub proof fn lemma_command_is_complete(
    value: Value,
    name: Seq<char>,
    params: Map<Seq<char>, Field>,
)
    requires
        is_command(value, name, params),
    ensures
        json_shape(value) is Object,
        json_field(json_shape(value), "cmd"@) is Some,
        json_shape(json_field(json_shape(value), "cmd"@)->Some_0) == JsonShape::Text(name),
        forall|key: Seq<char>| #[trigger]
            params.contains_key(key) ==> json_field(json_shape(value), key) is Some && holds(
                json_field(json_shape(value), key)->Some_0,
                params[key],
            ),
        forall|key: Seq<char>|
            (#[trigger] json_field(json_shape(value), key)) is Some ==> key == "cmd"@
                || params.contains_key(key),
{
    let fields = params.insert("cmd"@, Field::Text(name));
    let members = json_shape(value)->Object_0;
    assert(fields.contains_key("cmd"@));
    assert forall|key: Seq<char>| #[trigger] params.contains_key(key) implies json_field(
        json_shape(value),
        key,
    ) is Some && holds(json_field(json_shape(value), key)->Some_0, params[key]) by {
        assert(fields.contains_key(key));
        assert(members.dom().contains(key));
    }
    assert forall|key: Seq<char>|
        (#[trigger] json_field(json_shape(value), key)) is Some implies key == "cmd"@
        || params.contains_key(key) by {
        assert(members.dom().contains(key));
        assert(fields.dom().contains(key));
    }
}

} // verus!
