use vstd::prelude::*;
use crate::message::component::Component;
use crate::message::{level_le, Level, Message};

verus! {

/// A severity window paired with what to notify for messages inside it.  The
/// component, where present, is carried for configuration only; unlike
/// [`MessageCondition`](crate::destination::message_condition_config::MessageCondition),
/// `matches` here looks at the levels alone.
#[derive(Debug)]
pub struct NotificationConfigEntry<T> {
    pub component: Option<Component>,
    pub min_level: Level,
    pub max_level: Level,
    pub notify: T,
}

impl<T> NotificationConfigEntry<T> {
    /// Whether the message's level lies in this entry's inclusive range.
    pub fn matches(&self, m: &Message) -> (r: bool)
        ensures
            r == (level_le(self.min_level, m.level) && level_le(m.level, self.max_level)),
    {
        let lv = *m.get_level();
        self.min_level.le(&lv) && lv.le(&self.max_level)
    }

    pub fn get_notify(&self) -> (t: &T)
        ensures
            t == &self.notify,
    {
        &self.notify
    }
}

} // verus!
