use vstd::prelude::*;
use crate::message::component::{spec_is_child_of, Component};
use crate::message::{level_le, Level, Message};

verus! {

/// A filter for messages: an optional component the message must fall under,
/// and an inclusive severity range.  The default condition matches every
/// message.
#[derive(Debug)]
pub struct MessageCondition {
    /// If present, the message must carry a component that is a child of this
    /// one.
    pub component: Option<Component>,
    /// Messages below this level do not match.
    pub min_level: Level,
    /// Messages above this level do not match.
    pub max_level: Level,
}

/// What [`MessageCondition::matches`] decides: the component filter, if any,
/// admits the message's component, and the message's level lies in the
/// inclusive range.
pub open spec fn condition_matches(c: &MessageCondition, m: &Message) -> bool {
    &&& match c.component {
        Some(ref filter) => match m.component {
            Some(ref mc) => spec_is_child_of(mc.segments(), filter.segments()),
            None => false,
        },
        None => true,
    }
    &&& level_le(c.min_level, m.level)
    &&& level_le(m.level, c.max_level)
}

impl MessageCondition {
    /// A condition that requires all of the given parts at once.
    pub fn new(component: Option<Component>, min_level: Level, max_level: Level) -> (c: Self)
        ensures
            c == (MessageCondition { component, min_level, max_level }),
    {
        MessageCondition { component, min_level, max_level }
    }

    /// A condition only on the component: the message must fall at or below
    /// `component` in the hierarchy.
    pub fn of_component(component: Component) -> (c: Self)
        ensures
            c.component == Some(component),
            c.min_level == Level::Info,
            c.max_level == Level::SelfError,
    {
        MessageCondition { component: Some(component), min_level: Level::min(), max_level: Level::max() }
    }

    /// A condition only on the least severity let through.
    pub fn of_min(min_level: Level) -> (c: Self)
        ensures
            c.component is None,
            c.min_level == min_level,
            c.max_level == Level::SelfError,
    {
        MessageCondition { component: None, min_level, max_level: Level::max() }
    }

    /// A condition only on the greatest severity let through.
    pub fn of_max(max_level: Level) -> (c: Self)
        ensures
            c.component is None,
            c.min_level == Level::Info,
            c.max_level == max_level,
    {
        MessageCondition { component: None, min_level: Level::min(), max_level }
    }

    /// Whether the message passes this filter.
    pub fn matches(&self, m: &Message) -> (r: bool)
        ensures
            r == condition_matches(self, m),
    {
        if let Some(filter) = &self.component {
            match m.get_component() {
                Some(mc) => {
                    if !mc.is_child_of(filter) {
                        return false;
                    }
                },
                None => {
                    return false;
                },
            }
        }
        let lv = *m.get_level();
        self.min_level.le(&lv) && lv.le(&self.max_level)
    }
}

impl Clone for MessageCondition {
    fn clone(&self) -> (c: Self)
        ensures
            c.congruent(self),
    {
        MessageCondition {
            component: match &self.component {
                Some(cc) => Some(cc.clone()),
                None => None,
            },
            min_level: self.min_level,
            max_level: self.max_level,
        }
    }
}

impl MessageCondition {
    /// Two conditions that admit exactly the same messages, field by field.
    pub open spec fn congruent(self, other: &MessageCondition) -> bool {
        &&& match (self.component, other.component) {
            (Some(a), Some(b)) => a.segments() == b.segments(),
            (None, None) => true,
            _ => false,
        }
        &&& self.min_level == other.min_level
        &&& self.max_level == other.max_level
    }
}

impl Default for MessageCondition {
    /// The match-everything condition.
    fn default() -> (c: Self)
        ensures
            c.component is None,
            c.min_level == Level::Info,
            c.max_level == Level::SelfError,
    {
        MessageCondition { component: None, min_level: Level::min(), max_level: Level::max() }
    }
}

/// A message filter paired with what to notify when it matches.
#[derive(Debug)]
pub struct MessageNotifyConditionConfigEntry<T> {
    pub message_condition: MessageCondition,
    pub notify: T,
}

impl<T> MessageNotifyConditionConfigEntry<T> {
    pub fn matches(&self, m: &Message) -> (r: bool)
        ensures
            r == condition_matches(&self.message_condition, m),
    {
        self.message_condition.matches(m)
    }

    pub fn get_notify(&self) -> (t: &T)
        ensures
            t == &self.notify,
    {
        &self.notify
    }
}

} // verus!
