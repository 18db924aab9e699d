//! Notifications, at most one per quota event.
//!
//! The statusline command runs again and again. Which events were notified of is
//! kept between runs, as event keys only.

use vstd::prelude::*;
use vstd::string::*;
use crate::names::NameSet;
use crate::util;

verus! {

/// The AppleScript that shows a notification.
pub open spec fn notification_script(title: Seq<char>, message: Seq<char>) -> Seq<char> {
    "display notification \""@ + util::applescript_escaped(message) + "\" with title \""@
        + util::applescript_escaped(title) + "\""@
}

/// The script to run for an event, unless it was notified of before.
pub open spec fn due_script(
    notified: Set<Seq<char>>,
    event: Seq<char>,
    title: Seq<char>,
    message: Seq<char>,
) -> Option<Seq<char>> {
    if notified.contains(event) {
        None
    } else {
        Some(notification_script(title, message))
    }
}

/// Note an event as notified of. Gives the script to run, unless the event was
/// noted before.
pub fn notify_once(notified: &mut NameSet, event: &str, title: &str, message: &str) -> (r: Option<
    String,
>)
    ensures
        crate::text::text_of(r) == due_script(old(notified)@, event@, title@, message@),
        final(notified)@ == old(notified)@.insert(event@),
{
    if notified.contains(event) {
        assert(notified@.insert(event@) =~= notified@);
        return None;
    }
    let mut script = "display notification \"".to_owned();
    script.append(util::escape_applescript(message).as_str());
    script.append("\" with title \"");
    script.append(util::escape_applescript(title).as_str());
    script.append("\"");
    notified.insert(event.to_owned());
    Some(script)
}

/// An event that was notified of is not notified of again, whatever other events
/// come between; an event that was not is.
pub proof fn events_notify_once(
    notified: Set<Seq<char>>,
    event: Seq<char>,
    later: Set<Seq<char>>,
    title: Seq<char>,
    message: Seq<char>,
)
    requires
        notified.insert(event).subset_of(later),
    ensures
        due_script(later, event, title, message) is None,
        !notified.contains(event) ==> due_script(notified, event, title, message) == Some(
            notification_script(title, message),
        ),
{
    assert(notified.insert(event).contains(event));
}

} // verus!
