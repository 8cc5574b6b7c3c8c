use vstd::prelude::*;
use vstd::string::StringExecFns;
use crate::message::component::{join_slash, join_slash_exec};
use crate::message::{Level, Message};

verus! {

/// A destination that raises a notification on the local desktop.  What the
/// notification says is decided here; raising it over the session bus is
/// the caller's side of the boundary.
#[derive(Debug)]
pub struct DesktopNotificationReceiver {}

/// Everything a desktop notification for one message says: its summary
/// line, its body, whether it is urgent, and its icon's name.
#[derive(Debug)]
pub struct DesktopNotification {
    pub summary: String,
    pub body: String,
    /// Whether the message's severity asks for a critical notification.
    pub critical: bool,
    pub icon: &'static str,
}

/// The summary line: the title and the component, joined with a dash where
/// both are present and non-empty.
pub open spec fn desktop_summary(m: &Message) -> Seq<char> {
    let title = match m.title {
        Some(ref t) => t@,
        None => Seq::empty(),
    };
    match m.component {
        Some(ref c) => if title.len() > 0 {
            title + " - "@ + join_slash(c.segments())
        } else {
            join_slash(c.segments())
        },
        None => title,
    }
}

/// The body: the message's raw text, then who it came from.
pub open spec fn desktop_body(m: &Message) -> Seq<char> {
    m.message_detail.spec_raw() + "\nFrom: "@ + join_slash(m.author.parts.deep_view())
}

/// The standard icon name shown for each severity.
pub open spec fn spec_desktop_icon(l: Level) -> Seq<char> {
    match l {
        Level::Info => "dialog-information"@,
        Level::Warn => "dialog-warning"@,
        Level::Error => "dialog-error"@,
        Level::SelfError => "dialog-error"@,
    }
}

impl DesktopNotificationReceiver {
    /// Builds the desktop notification for one routed message: the summary
    /// and body above, critical exactly for failures, and the severity's
    /// icon.
    pub fn to_desktop_notification(&self, message: &Message) -> (r: DesktopNotification)
        ensures
            r.summary@ == desktop_summary(message),
            r.body@ == desktop_body(message),
            r.critical == (message.level is Error || message.level is SelfError),
            r.icon@ == spec_desktop_icon(message.level),
    {
        let mut summary = String::new();
        if let Some(message_title) = message.get_title() {
            summary.append(message_title.as_str());
        }
        if let Some(component) = message.get_component() {
            if !summary.as_str().is_empty() {
                summary.append(" - ");
            }
            summary.append(join_slash_exec(&component.parts).as_str());
        }

        let mut body = message.get_message_detail().raw().to_owned();
        body.append("\nFrom: ");
        body.append(join_slash_exec(&message.get_author().parts).as_str());

        let critical = match message.get_level() {
            Level::Info => false,
            Level::Warn => false,
            Level::Error => true,
            Level::SelfError => true,
        };
        let icon = match message.get_level() {
            Level::Info => "dialog-information",
            Level::Warn => "dialog-warning",
            Level::Error => "dialog-error",
            Level::SelfError => "dialog-error",
        };

        proof {
            assert(summary@ =~= desktop_summary(message));
            assert(body@ =~= desktop_body(message));
        }
        DesktopNotification { summary, body, critical, icon }
    }
}

} // verus!
