//! The names under which hooks are looked up: one name per event of the
//! server and of the timer, derived from the event and, for a cycle, from the
//! cycle's name.

use convert_case::{Case, Casing};
use vstd::prelude::*;
use vstd::string::StringExecFns;
use crate::hooks_config::ServerEvent;
use crate::timer::{EventModel, TimerEvent};

verus! {

/// What `convert_case` makes of a text in kebab case.
pub uninterp spec fn kebab_case(text: Seq<char>) -> Seq<char>;

/// What the standard library makes of a text in lower case.
pub uninterp spec fn lowercase(text: Seq<char>) -> Seq<char>;

/// `convert_case::Casing::to_case` with `Case::Kebab`, which splits a text
/// into words and joins them in lower case with hyphens. The result depends
/// on the text alone; it is named, not stated.
#[verifier::external_body]
fn to_kebab_case(text: &str) -> (kebab: String)
    ensures
        kebab@ == kebab_case(text@),
{
    text.to_case(Case::Kebab)
}

/// `str::to_lowercase`, which returns the lower-case equivalent of a text.
/// The result depends on the text alone; it is named, not stated.
#[verifier::external_body]
fn to_lowercase(text: &str) -> (lower: String)
    ensures
        lower@ == lowercase(text@),
{
    text.to_lowercase()
}

/// The name of the hook of a server event.
pub open spec fn server_hook_name_spec(event: ServerEvent) -> Seq<char> {
    match event {
        ServerEvent::Started => "on-server-start"@,
        ServerEvent::Stopping => "on-server-stopping"@,
        ServerEvent::Stopped => "on-server-stop"@,
    }
}

/// The name of the hook of a server event.
pub fn server_hook_name(event: ServerEvent) -> (name: String)
    ensures
        name@ == server_hook_name_spec(event),
{
    match event {
        ServerEvent::Started => String::from_str("on-server-start"),
        ServerEvent::Stopping => String::from_str("on-server-stopping"),
        ServerEvent::Stopped => String::from_str("on-server-stop"),
    }
}

/// The words `on`, a cycle's name and what happened to it, with hyphens
/// between them.
pub open spec fn hook_phrase_spec(cycle: Seq<char>, happened: Seq<char>) -> Seq<char> {
    "on-"@ + cycle + "-"@ + happened
}

/// Puts `on`, a cycle's name and what happened to it together, with hyphens
/// between them.
pub fn hook_phrase(cycle: &str, happened: &str) -> (phrase: String)
    ensures
        phrase@ == hook_phrase_spec(cycle@, happened@),
{
    let mut phrase = String::from_str("on-");
    phrase.append(cycle);
    phrase.append("-");
    phrase.append(happened);
    phrase
}

/// The name of the hook of a timer event. The start and the stop of the
/// timer have fixed names; the name for a cycle is the phrase made of the
/// cycle's name and of what happened, in kebab case. For the end of a cycle
/// the cycle's name is put in lower case first.
pub open spec fn timer_hook_name_spec(event: EventModel) -> Seq<char> {
    match event {
        EventModel::Started => "on-timer-start"@,
        EventModel::Began(cycle) => kebab_case(hook_phrase_spec(cycle.name, "begin"@)),
        EventModel::Running(cycle) => kebab_case(hook_phrase_spec(cycle.name, "running"@)),
        EventModel::SetTo(cycle) => kebab_case(hook_phrase_spec(cycle.name, "set"@)),
        EventModel::Paused(cycle) => kebab_case(hook_phrase_spec(cycle.name, "pause"@)),
        EventModel::Resumed(cycle) => kebab_case(hook_phrase_spec(cycle.name, "resume"@)),
        EventModel::Ended(cycle) => kebab_case(hook_phrase_spec(lowercase(cycle.name), "end"@)),
        EventModel::Stopped => "on-timer-stop"@,
    }
}

/// The name of the hook of a timer event.
pub fn timer_hook_name(event: &TimerEvent) -> (name: String)
    ensures
        name@ == timer_hook_name_spec(event@),
{
    match event {
        TimerEvent::Started => String::from_str("on-timer-start"),
        TimerEvent::Began(cycle) => to_kebab_case(
            hook_phrase(cycle.name.as_str(), "begin").as_str(),
        ),
        TimerEvent::Running(cycle) => to_kebab_case(
            hook_phrase(cycle.name.as_str(), "running").as_str(),
        ),
        TimerEvent::SetTo(cycle) => to_kebab_case(hook_phrase(cycle.name.as_str(), "set").as_str()),
        TimerEvent::Paused(cycle) => to_kebab_case(
            hook_phrase(cycle.name.as_str(), "pause").as_str(),
        ),
        TimerEvent::Resumed(cycle) => to_kebab_case(
            hook_phrase(cycle.name.as_str(), "resume").as_str(),
        ),
        TimerEvent::Ended(cycle) => {
            let lower = to_lowercase(cycle.name.as_str());
            to_kebab_case(hook_phrase(lower.as_str(), "end").as_str())
        },
        TimerEvent::Stopped => String::from_str("on-timer-stop"),
    }
}

} // verus!
