use vstd::prelude::*;
use crate::destination::message_condition_config::{condition_matches, MessageCondition};
use crate::destination::routed_destination::{
    spec_always_send, spec_receives_errors, MessageRoutingBehaviour, RoutedDestinationBase,
};
use crate::destination::MessageDestination;
use crate::message::{Level, Message};
use crate::send_error::borrowed::{is_report_message, SendErrorBorrowed};
use crate::send_error::owned::SendErrorOwned;
use crate::send_error::reported::{ErrorReportSummary, ReportedSendError};
use crate::send_error::SendErrors;

verus! {

broadcast use vstd::set::group_set_axioms;

/// The routing policy of one destination: its behaviour, and an optional
/// condition restricting which messages it receives.
#[derive(Debug)]
pub struct RoutingInfo {
    pub routing_type: MessageRoutingBehaviour,
    pub applies_to: Option<MessageCondition>,
}

/// Whether the routing policy admits the message: its condition matches, or
/// there is no condition.
pub open spec fn spec_applies(info: &RoutingInfo, m: &Message) -> bool {
    match info.applies_to {
        Some(ref c) => condition_matches(c, m),
        None => true,
    }
}

impl RoutingInfo {
    pub fn of(routing_type: MessageRoutingBehaviour) -> (r: Self)
        ensures
            r.routing_type == routing_type,
            r.applies_to is None,
    {
        RoutingInfo { routing_type, applies_to: None }
    }

    /// The policy of a root destination with no condition.
    pub fn root() -> (r: Self)
        ensures
            r.routing_type is Root,
            r.applies_to is None,
    {
        RoutingInfo::of(MessageRoutingBehaviour::Root)
    }

    pub fn get_routing_behaviour(&self) -> (r: &MessageRoutingBehaviour)
        ensures
            r == &self.routing_type,
    {
        &self.routing_type
    }

    /// Whether this policy admits the message.
    pub fn applies_to(&self, message: &Message) -> (r: bool)
        ensures
            r == spec_applies(self, message),
    {
        match &self.applies_to {
            Some(filter) => filter.matches(message),
            None => true,
        }
    }

    /// Two policies that route exactly alike.
    pub open spec fn congruent(self, other: &RoutingInfo) -> bool {
        &&& self.routing_type == other.routing_type
        &&& match (self.applies_to, other.applies_to) {
            (Some(a), Some(b)) => a.congruent(&b),
            (None, None) => true,
            _ => false,
        }
    }
}

impl Clone for RoutingInfo {
    fn clone(&self) -> (r: Self)
        ensures
            r.congruent(self),
    {
        RoutingInfo {
            routing_type: self.routing_type,
            applies_to: match &self.applies_to {
                Some(c) => Some(c.clone()),
                None => None,
            },
        }
    }
}

/// The routing engine: an ordered list of destinations, read-only during a
/// routing call.  Order matters only for report presentation; delivery to
/// eligible destinations is independent and order-free.
pub struct MessageRouter<D> {
    pub destinations: Vec<RoutedDestinationBase<D>>,
}

/// Eligible for the primary pass: behaviour Root or Additive, and the policy
/// admits the message.
pub open spec fn primary_eligible<D>(d: &RoutedDestinationBase<D>, m: &Message) -> bool {
    spec_always_send(d.routing_info.routing_type) && spec_applies(&d.routing_info, m)
}

/// Eligible for the fallback pass: behaviour Drain, and the policy admits the
/// message.
pub open spec fn drain_eligible<D>(d: &RoutedDestinationBase<D>, m: &Message) -> bool {
    d.routing_info.routing_type is Drain && spec_applies(&d.routing_info, m)
}

/// A destination that receives escalated failure reports.
pub open spec fn is_root_dest<D>(d: &RoutedDestinationBase<D>) -> bool {
    spec_receives_errors(d.routing_info.routing_type)
}

/// How many destinations the primary pass attempts.
pub open spec fn count_primary<D>(reg: Seq<RoutedDestinationBase<D>>, m: &Message) -> int
    decreases reg.len(),
{
    if reg.len() == 0 {
        0
    } else {
        count_primary(reg.drop_last(), m) + if primary_eligible(&reg.last(), m) {
            1int
        } else {
            0int
        }
    }
}

/// How many destinations the fallback pass attempts, when it runs.
pub open spec fn count_drain<D>(reg: Seq<RoutedDestinationBase<D>>, m: &Message) -> int
    decreases reg.len(),
{
    if reg.len() == 0 {
        0
    } else {
        count_drain(reg.drop_last(), m) + if drain_eligible(&reg.last(), m) {
            1int
        } else {
            0int
        }
    }
}

/// How many root destinations the registry holds.
pub open spec fn count_root<D>(reg: Seq<RoutedDestinationBase<D>>) -> int
    decreases reg.len(),
{
    if reg.len() == 0 {
        0
    } else {
        count_root(reg.drop_last()) + if is_root_dest(&reg.last()) {
            1int
        } else {
            0int
        }
    }
}

/// Whether, with `failed` the set of failed registry indices, some non-root
/// destination of the primary pass succeeded.  Only then was the message
/// "meaningfully routed"; a root success alone does not suppress the drain.
pub open spec fn reached_non_root<D>(
    reg: Seq<RoutedDestinationBase<D>>,
    m: &Message,
    failed: Set<int>,
) -> bool {
    exists|k: int|
        0 <= k < reg.len() && primary_eligible(&reg[k], m) && !is_root_dest(&reg[k])
            && !failed.contains(k)
}

/// Whether the destination at index `i` is attempted at all, given the failed
/// set: every primary-eligible destination is, and the drain-eligible ones
/// exactly when no non-root primary delivery succeeded.
pub open spec fn attempted<D>(
    reg: Seq<RoutedDestinationBase<D>>,
    m: &Message,
    failed: Set<int>,
    i: int,
) -> bool {
    primary_eligible(&reg[i], m) || (!reached_non_root(reg, m, failed) && drain_eligible(
        &reg[i],
        m,
    ))
}

/// How many destinations are attempted in total, given the failed set.
pub open spec fn attempted_count<D>(
    reg: Seq<RoutedDestinationBase<D>>,
    m: &Message,
    failed: Set<int>,
) -> int {
    count_primary(reg, m) + if reached_non_root(reg, m, failed) {
        0int
    } else {
        count_drain(reg, m)
    }
}

/// The escalation record of one failure is consistent with the registry:
/// the report failures name distinct root destinations in registry order,
/// each carrying the synthetic self-diagnostic message, and the failure
/// counts as reported exactly when some root destination accepted it —
/// equivalently, when fewer roots failed than exist.  With no root
/// destinations at all, nothing is attempted: not reported, no failures.
pub open spec fn escalation_consistent<D>(
    reg: Seq<RoutedDestinationBase<D>>,
    re: &ReportedSendError,
) -> bool {
    let fails = re.error_report_summary.error_report_failures@;
    &&& fails.len() <= count_root(reg)
    &&& (re.error_report_summary.reported <==> fails.len() < count_root(reg))
    &&& exists|ridx: Seq<int>| root_fail_indices_ok(reg, re, ridx)
}

/// The indices `ridx` witness which root destinations failed during
/// escalation of `re`: strictly increasing registry indices of root
/// destinations, one per report failure, with matching ids, and each failed
/// report carrying the synthetic message for `re`'s own failure.
pub open spec fn root_fail_indices_ok<D>(
    reg: Seq<RoutedDestinationBase<D>>,
    re: &ReportedSendError,
    ridx: Seq<int>,
) -> bool {
    let fails = re.error_report_summary.error_report_failures@;
    &&& ridx.len() == fails.len()
    &&& forall|a: int, b: int| 0 <= a < b < ridx.len() ==> ridx[a] < ridx[b]
    &&& forall|k: int|
        0 <= k < ridx.len() ==> {
            &&& 0 <= ridx[k] < reg.len()
            &&& is_root_dest(&reg[ridx[k]])
            &&& fails[k].destination_id@ == reg[ridx[k]].id@
            &&& is_report_message(
                fails[k].message,
                re.send_err.message.message_detail.spec_raw(),
                re.send_err.destination_id@,
                re.send_err.err.msg@,
                re.send_err.message.unix_timestamp_millis,
            )
        }
}

/// The errors stand in presentation order: up to some split point the
/// primary pass's failures by ascending registry index, after it the
/// fallback pass's, again by ascending index.
pub open spec fn failure_order_ok<D>(
    reg: Seq<RoutedDestinationBase<D>>,
    m: &Message,
    fidx: Seq<int>,
    p: int,
) -> bool {
    &&& 0 <= p <= fidx.len()
    &&& forall|a: int, b: int| 0 <= a < b < p ==> #[trigger] fidx[a] < #[trigger] fidx[b]
    &&& forall|a: int, b: int| p <= a < b < fidx.len() ==> #[trigger] fidx[a] < #[trigger] fidx[b]
    &&& forall|j: int| 0 <= j < p ==> primary_eligible(&reg[#[trigger] fidx[j]], m)
    &&& forall|j: int| p <= j < fidx.len() ==> drain_eligible(&reg[#[trigger] fidx[j]], m)
}

/// The indices `fidx` witness which deliveries failed: distinct registry
/// indices, one per error in presentation order, each attempted for this
/// message, with matching destination ids, each error holding the routed
/// message itself, and the success count making up the difference to the
/// attempted total.
pub open spec fn failure_indices_ok<D>(
    reg: Seq<RoutedDestinationBase<D>>,
    m: &Message,
    se: &SendErrors,
    fidx: Seq<int>,
) -> bool {
    &&& fidx.len() == se.errors@.len()
    &&& forall|a: int, b: int| 0 <= a < b < fidx.len() ==> fidx[a] != fidx[b]
    &&& exists|p: int| failure_order_ok(reg, m, fidx, p)
    &&& forall|j: int| 0 <= j < fidx.len() ==> 0 <= #[trigger] fidx[j] < reg.len()
    &&& forall|j: int| 0 <= j < fidx.len() ==> attempted(reg, m, fidx.to_set(), #[trigger] fidx[j])
    &&& forall|j: int|
        0 <= j < fidx.len() ==> se.errors@[j].send_err.destination_id@ == reg[fidx[j]].id@
    &&& forall|j: int| 0 <= j < fidx.len() ==> se.errors@[j].send_err.message == m
    &&& se.successfully_sent + fidx.len() == attempted_count(reg, m, fidx.to_set())
}

/// Everything `route` promises.  On success, the count of deliveries equals
/// the number of attempted destinations for the no-failure outcome.  On
/// failure, the report names the original message, holds at least one error,
/// its errors are witnessed by a consistent set of failed indices, and each
/// error's escalation record is consistent with the registry's roots.
pub open spec fn route_ensures<D>(
    reg: Seq<RoutedDestinationBase<D>>,
    m: &Message,
    result: &Result<usize, SendErrors>,
) -> bool {
    match result {
        Ok(n) => *n == attempted_count(reg, m, Set::empty()),
        Err(se) => {
            &&& se.original_message == m
            &&& se.errors@.len() > 0
            &&& exists|fidx: Seq<int>| failure_indices_ok(reg, m, se, fidx)
            &&& forall|j: int| 0 <= j < se.errors@.len() ==> escalation_consistent(reg, &se.errors@[j])
        },
    }
}

/// A drain destination is attempted only as a last resort: whenever a drain
/// delivery was attempted at all, no non-root destination of the primary
/// pass had succeeded.
pub proof fn lemma_drain_is_last_resort<D>(
    reg: Seq<RoutedDestinationBase<D>>,
    m: &Message,
    failed: Set<int>,
    i: int,
)
    requires
        0 <= i < reg.len(),
        drain_eligible(&reg[i], m),
        attempted(reg, m, failed, i),
    ensures
        !reached_non_root(reg, m, failed),
{
}

/// The drain is not suppressed by root successes: when no non-root primary
/// delivery succeeded, every drain destination admitting the message is
/// attempted, whatever the root destinations did.
pub proof fn lemma_drain_attempted_without_non_root_success<D>(
    reg: Seq<RoutedDestinationBase<D>>,
    m: &Message,
    failed: Set<int>,
    i: int,
)
    requires
        0 <= i < reg.len(),
        drain_eligible(&reg[i], m),
        !reached_non_root(reg, m, failed),
    ensures
        attempted(reg, m, failed, i),
{
}

/// The counts over a two-entry registry, one summand per entry.
proof fn lemma_counts_pair<D>(reg: Seq<RoutedDestinationBase<D>>, m: &Message)
    requires
        reg.len() == 2,
    ensures
        count_primary(reg, m) == (if primary_eligible(&reg[0], m) {
            1int
        } else {
            0int
        }) + (if primary_eligible(&reg[1], m) {
            1int
        } else {
            0int
        }),
        count_drain(reg, m) == (if drain_eligible(&reg[0], m) {
            1int
        } else {
            0int
        }) + (if drain_eligible(&reg[1], m) {
            1int
        } else {
            0int
        }),
        count_root(reg) == (if is_root_dest(&reg[0]) {
            1int
        } else {
            0int
        }) + (if is_root_dest(&reg[1]) {
            1int
        } else {
            0int
        }),
{
    lemma_count_step(reg, m, 0);
    lemma_count_step(reg, m, 1);
    assert(reg.take(0) =~= Seq::<RoutedDestinationBase<D>>::empty());
    assert(count_primary(reg.take(0), m) == 0);
    assert(count_drain(reg.take(0), m) == 0);
    assert(count_root(reg.take(0)) == 0);
    assert(reg.take(2) =~= reg);
}

/// With one Additive and one Drain destination, both admitting the message,
/// a routing call that succeeds delivered to the Additive destination alone:
/// the result is one delivery, and the drain was never among the attempted
/// destinations.  The call's success stands for the premise that the
/// additive delivery succeeded — an outside outcome no contract can assume
/// directly.
pub proof fn lemma_additive_success_excludes_drain<D>(
    reg: Seq<RoutedDestinationBase<D>>,
    m: &Message,
    result: &Result<usize, SendErrors>,
)
    requires
        reg.len() == 2,
        primary_eligible(&reg[0], m),
        !is_root_dest(&reg[0]),
        drain_eligible(&reg[1], m),
        route_ensures(reg, m, result),
        result is Ok,
    ensures
        result == Ok::<usize, SendErrors>(1usize),
        !attempted(reg, m, Set::empty(), 1),
{
    lemma_counts_pair(reg, m);
    assert(reached_non_root(reg, m, Set::empty())) by {
        assert(!Set::<int>::empty().contains(0));
        assert(0 < reg.len() && primary_eligible(&reg[0], m) && !is_root_dest(&reg[0])
            && !Set::<int>::empty().contains(0));
    }
}

/// With one Root and one Drain destination, both admitting the message and
/// no Additive destination at all, a routing call that succeeds delivered
/// twice: the root's success does not count as reaching a non-root
/// destination, so the drain is attempted too.  The call's success stands
/// for the premise that both deliveries succeeded.
pub proof fn lemma_root_success_keeps_drain<D>(
    reg: Seq<RoutedDestinationBase<D>>,
    m: &Message,
    result: &Result<usize, SendErrors>,
)
    requires
        reg.len() == 2,
        primary_eligible(&reg[0], m),
        is_root_dest(&reg[0]),
        drain_eligible(&reg[1], m),
        route_ensures(reg, m, result),
        result is Ok,
    ensures
        result == Ok::<usize, SendErrors>(2usize),
        attempted(reg, m, Set::empty(), 1),
{
    lemma_counts_pair(reg, m);
    assert(!reached_non_root(reg, m, Set::empty())) by {
        assert forall|k: int|
            0 <= k < reg.len() && primary_eligible(&reg[k], m) implies is_root_dest(&reg[k]) by {
            if k == 1 {
                assert(!spec_always_send(reg[1].routing_info.routing_type));
            }
        }
    }
}

/// With one Additive and one Root destination, both admitting the message,
/// a report holding one failure with no escalation failures says the
/// failure was reported — the lone root accepted it — and one delivery
/// succeeded.  The report's shape stands for the premises that the additive
/// delivery failed and the root accepted both the message and the report.
pub proof fn lemma_one_failure_reported_at_root<D>(
    reg: Seq<RoutedDestinationBase<D>>,
    m: &Message,
    result: &Result<usize, SendErrors>,
)
    requires
        reg.len() == 2,
        primary_eligible(&reg[0], m),
        !is_root_dest(&reg[0]),
        primary_eligible(&reg[1], m),
        is_root_dest(&reg[1]),
        route_ensures(reg, m, result),
        result matches Err(se) && se.errors@.len() == 1
            && se.errors@[0].error_report_summary.error_report_failures@.len() == 0,
    ensures
        result matches Err(se) && se.errors@[0].error_report_summary.reported
            && se.successfully_sent == 1,
{
    lemma_counts_pair(reg, m);
    match result {
        Ok(_) => {},
        Err(se) => {
            assert(escalation_consistent(reg, &se.errors@[0]));
            let fidx = choose|fidx: Seq<int>| failure_indices_ok(reg, m, se, fidx);
            assert(se.successfully_sent + fidx.len() == attempted_count(reg, m, fidx.to_set()));
            assert(count_drain(reg, m) == 0);
        },
    }
}

/// With one Additive destination admitting the message and one Root
/// destination not admitting it, a report holding one failure with one
/// escalation failure pins everything: the additive delivery is the one
/// that failed, it was not reported — the only root refused the report —
/// the escalation failure names that root and carries the synthetic
/// self-diagnostic message, nothing was delivered, and no further
/// escalation record exists beyond that single level.
pub proof fn lemma_broken_escalation_recorded_once<D>(
    reg: Seq<RoutedDestinationBase<D>>,
    m: &Message,
    result: &Result<usize, SendErrors>,
)
    requires
        reg.len() == 2,
        primary_eligible(&reg[0], m),
        !is_root_dest(&reg[0]),
        !primary_eligible(&reg[1], m),
        !drain_eligible(&reg[1], m),
        is_root_dest(&reg[1]),
        route_ensures(reg, m, result),
        result matches Err(se) && se.errors@.len() == 1
            && se.errors@[0].error_report_summary.error_report_failures@.len() == 1,
    ensures
        result matches Err(se) && {
            let failure = se.errors@[0];
            let escalation = failure.error_report_summary.error_report_failures@[0];
            &&& !failure.error_report_summary.reported
            &&& failure.send_err.destination_id@ == reg[0].id@
            &&& escalation.destination_id@ == reg[1].id@
            &&& escalation.message.level == Level::SelfError
            &&& se.successfully_sent == 0
        },
{
    lemma_counts_pair(reg, m);
    match result {
        Ok(_) => {},
        Err(se) => {
            assert(escalation_consistent(reg, &se.errors@[0]));
            let ridx = choose|ridx: Seq<int>| root_fail_indices_ok(reg, &se.errors@[0], ridx);
            assert(is_root_dest(&reg[ridx[0]]));
            assert(ridx[0] == 1);
            let fidx = choose|fidx: Seq<int>| failure_indices_ok(reg, m, se, fidx);
            assert(attempted(reg, m, fidx.to_set(), fidx[0]));
            assert(fidx[0] == 0);
            assert(se.successfully_sent + fidx.len() == attempted_count(reg, m, fidx.to_set()));
            assert(count_primary(reg, m) == 1);
            assert(count_drain(reg, m) == 0);
        },
    }
}

/// Routing is stateless across calls: two calls with the same message and
/// registry that both succeed return the same count, since each equals the
/// number of attempted destinations for the all-success outcome — and the
/// router is only ever read, so nothing survives from one call to the next.
pub proof fn lemma_route_twice_same_success<D>(
    reg: Seq<RoutedDestinationBase<D>>,
    m: &Message,
    first: &Result<usize, SendErrors>,
    second: &Result<usize, SendErrors>,
)
    requires
        route_ensures(reg, m, first),
        route_ensures(reg, m, second),
        first is Ok,
        second is Ok,
    ensures
        first == second,
{
}

/// Counting one more registry entry adds one to the matching count exactly
/// when that entry qualifies.
proof fn lemma_count_step<D>(reg: Seq<RoutedDestinationBase<D>>, m: &Message, i: int)
    requires
        0 <= i < reg.len(),
    ensures
        count_primary(reg.take(i + 1), m) == count_primary(reg.take(i), m) + if primary_eligible(
            &reg[i],
            m,
        ) {
            1int
        } else {
            0int
        },
        count_drain(reg.take(i + 1), m) == count_drain(reg.take(i), m) + if drain_eligible(
            &reg[i],
            m,
        ) {
            1int
        } else {
            0int
        },
        count_root(reg.take(i + 1)) == count_root(reg.take(i)) + if is_root_dest(&reg[i]) {
            1int
        } else {
            0int
        },
{
    assert(reg.take(i + 1).drop_last() =~= reg.take(i));
    assert(reg.take(i + 1).last() == reg[i]);
}

/// Each count is between zero and the number of entries.
proof fn lemma_count_bounds<D>(reg: Seq<RoutedDestinationBase<D>>, m: &Message)
    ensures
        0 <= count_primary(reg, m),
        0 <= count_drain(reg, m),
        0 <= count_root(reg),
        count_primary(reg, m) + count_drain(reg, m) <= reg.len(),
    decreases reg.len(),
{
    if reg.len() > 0 {
        lemma_count_bounds(reg.drop_last(), m);
    }
}

/// Counting a prefix never counts more than the whole.
proof fn lemma_count_take_le<D>(reg: Seq<RoutedDestinationBase<D>>, m: &Message, j: int)
    requires
        0 <= j <= reg.len(),
    ensures
        count_primary(reg.take(j), m) <= count_primary(reg, m),
        count_drain(reg.take(j), m) <= count_drain(reg, m),
    decreases reg.len() - j,
{
    if j == reg.len() {
        assert(reg.take(j) =~= reg);
    } else {
        lemma_count_take_le(reg, m, j + 1);
        lemma_count_step(reg, m, j);
    }
}

/// Membership in a pushed sequence: the new element, or one already there.
proof fn lemma_push_contains(s: Seq<int>, x: int)
    ensures
        forall|y: int| #[trigger] s.push(x).contains(y) <==> s.contains(y) || y == x,
{
    assert forall|y: int| #[trigger] s.push(x).contains(y) implies s.contains(y) || y == x by {
        let a = choose|a: int| 0 <= a < s.push(x).len() && s.push(x)[a] == y;
        if a < s.len() {
            assert(s[a] == y);
        }
    }
    assert forall|y: int| s.contains(y) || y == x implies #[trigger] s.push(x).contains(y) by {
        if s.contains(y) {
            let a = choose|a: int| 0 <= a < s.len() && s[a] == y;
            assert(s.push(x)[a] == y);
        } else {
            assert(s.push(x)[s.len() as int] == x);
        }
    }
}

impl<D: MessageDestination> MessageRouter<D> {
    /// A router with no destinations.
    pub fn empty() -> (r: Self)
        ensures
            r.destinations@.len() == 0,
    {
        MessageRouter { destinations: Vec::new() }
    }

    /// The registered destinations, in insertion order.
    pub fn get_destinations(&self) -> (r: &Vec<RoutedDestinationBase<D>>)
        ensures
            r == &self.destinations,
    {
        &self.destinations
    }

    /// Registers one more destination, after the existing ones.
    pub fn add_destination(&mut self, destination: RoutedDestinationBase<D>)
        ensures
            final (self).destinations@ == old(self).destinations@.push(destination),
    {
        self.destinations.push(destination)
    }

    /// Routes one message.
    ///
    /// The primary pass attempts every Root or Additive destination whose
    /// condition admits the message, each independently.  Only if no
    /// non-root destination succeeded does the fallback pass attempt the
    /// Drain destinations.  If nothing failed, the call returns the number
    /// of successful deliveries.  Otherwise each failure is converted into a
    /// synthetic self-diagnostic message and redelivered to every root
    /// destination — failures of that redelivery are recorded, never
    /// escalated further — and the whole is returned as a report.
    pub fn route<'a>(&self, message: &'a Message) -> (result: Result<usize, SendErrors<'a>>)
        ensures
            route_ensures(self.destinations@, message, &result),
    {
        let ghost reg = self.destinations@;
        let n = self.destinations.len();
        let mut errors: Vec<SendErrorBorrowed<'a>> = Vec::new();
        let ghost mut fidx: Seq<int> = Seq::empty();
        let mut sent_to_non_root_dest = false;
        let mut successful: usize = 0;

        let mut i: usize = 0;
        while i < n
            invariant
                n == reg.len(),
                reg == self.destinations@,
                i <= n,
                fidx.len() == errors@.len(),
                forall|a: int, b: int| 0 <= a < b < fidx.len() ==> fidx[a] < fidx[b],
                forall|j: int|
                    0 <= j < fidx.len() ==> 0 <= fidx[j] < i && primary_eligible(
                        &reg[fidx[j]],
                        message,
                    ),
                forall|j: int|
                    0 <= j < fidx.len() ==> errors@[j].destination_id@ == reg[fidx[j]].id@
                        && errors@[j].message == message,
                successful + fidx.len() == count_primary(reg.take(i as int), message),
                successful <= i,
                sent_to_non_root_dest <==> exists|k: int|
                    0 <= k < i && primary_eligible(&reg[k], message) && !is_root_dest(&reg[k])
                        && !fidx.contains(k),
            decreases n - i,
        {
            proof {
                lemma_count_step(reg, message, i as int);
            }
            let ghost prev_fidx = fidx;
            let ghost prev_flag = sent_to_non_root_dest;
            let dest = &self.destinations[i];
            if dest.get_routing_type().always_send_messages() && dest.should_receive(message) {
                match dest.send(message) {
                    Ok(_) => {
                        if !dest.is_root() {
                            sent_to_non_root_dest = true;
                        }
                        successful += 1;
                    },
                    Err(send_err) => {
                        errors.push(
                            SendErrorBorrowed::create(send_err, dest.get_id().to_owned(), message),
                        );
                        proof {
                            fidx = fidx.push(i as int);
                        }
                    },
                }
            }
            proof {
                let d = i as int;
                lemma_push_contains(prev_fidx, d);
                if sent_to_non_root_dest {
                    if prev_flag {
                        let k0 = choose|k0: int|
                            0 <= k0 < d && primary_eligible(&reg[k0], message) && !is_root_dest(
                                &reg[k0],
                            ) && !prev_fidx.contains(k0);
                        assert(!fidx.contains(k0));
                        assert(0 <= k0 < d + 1 && primary_eligible(&reg[k0], message)
                            && !is_root_dest(&reg[k0]) && !fidx.contains(k0));
                    } else {
                        // The flag was set just now, by a successful non-root
                        // delivery at this index, which therefore is not among
                        // the failed ones.
                        assert(fidx == prev_fidx);
                        assert(!fidx.contains(d));
                        assert(0 <= d < d + 1 && primary_eligible(&reg[d], message)
                            && !is_root_dest(&reg[d]) && !fidx.contains(d));
                    }
                } else {
                    assert forall|k: int|
                        0 <= k < d + 1 && primary_eligible(&reg[k], message) && !is_root_dest(
                            &reg[k],
                        ) implies fidx.contains(k) by {
                        if k < d {
                            assert(prev_fidx.contains(k));
                        } else {
                            // Eligible, non-root, and the flag stayed clear:
                            // the send failed, so this index was recorded.
                            assert(fidx == prev_fidx.push(d));
                        }
                    }
                }
            }
            i += 1;
        }
        proof {
            assert(reg.take(n as int) =~= reg);
        }
        let ghost primary_fidx = fidx;
        let ghost pass2_ran = !sent_to_non_root_dest;

        if !sent_to_non_root_dest {
            let mut j: usize = 0;
            while j < n
                invariant
                    n == reg.len(),
                    reg == self.destinations@,
                    j <= n,
                    fidx.len() == errors@.len(),
                    primary_fidx.len() <= fidx.len(),
                    primary_fidx == fidx.take(primary_fidx.len() as int),
                    forall|a: int, b: int| 0 <= a < b < primary_fidx.len() ==> fidx[a] < fidx[b],
                    forall|a: int, b: int|
                        primary_fidx.len() <= a < b < fidx.len() ==> fidx[a] < fidx[b],
                    forall|jj: int|
                        0 <= jj < primary_fidx.len() ==> 0 <= fidx[jj] < n && primary_eligible(
                            &reg[fidx[jj]],
                            message,
                        ),
                    forall|jj: int|
                        primary_fidx.len() <= jj < fidx.len() ==> 0 <= fidx[jj] < j
                            && drain_eligible(&reg[fidx[jj]], message),
                    forall|jj: int|
                        0 <= jj < fidx.len() ==> errors@[jj].destination_id@ == reg[fidx[jj]].id@
                            && errors@[jj].message == message,
                    successful + fidx.len() == count_primary(reg, message) + count_drain(
                        reg.take(j as int),
                        message,
                    ),
                    successful <= n,
                    !(exists|k: int|
                        0 <= k < n && primary_eligible(&reg[k], message) && !is_root_dest(&reg[k])
                            && !primary_fidx.contains(k)),
                decreases n - j,
            {
                proof {
                    lemma_count_step(reg, message, j as int);
                    lemma_count_bounds(reg, message);
                    lemma_count_bounds(reg.take(j as int), message);
                    lemma_count_take_le(reg, message, j + 1);
                }
                let ghost prev_fidx = fidx;
                let dest = &self.destinations[j];
                let is_drain = matches!(dest.get_routing_type(), MessageRoutingBehaviour::Drain);
                if is_drain && dest.should_receive(message) {
                    match dest.send(message) {
                        Ok(_) => {
                            proof {
                                // One more drain delivery still fits under the
                                // count of all eligible destinations.
                                assert(successful + 1 + fidx.len() == count_primary(reg, message)
                                    + count_drain(reg.take(j + 1), message));
                                assert(count_primary(reg, message) + count_drain(
                                    reg.take(j + 1),
                                    message,
                                ) <= n);
                            }
                            successful += 1;
                        },
                        Err(send_err) => {
                            errors.push(
                                SendErrorBorrowed::create(
                                    send_err,
                                    dest.get_id().to_owned(),
                                    message,
                                ),
                            );
                            proof {
                                fidx = fidx.push(j as int);
                                assert(fidx.take(primary_fidx.len() as int) =~= prev_fidx.take(
                                    primary_fidx.len() as int,
                                ));
                            }
                        },
                    }
                }
                j += 1;
            }
            proof {
                assert(reg.take(n as int) =~= reg);
            }
        }

        proof {
            // The failed indices are distinct: within each pass they increase,
            // and across the passes primary and drain eligibility exclude each
            // other.
            assert forall|a: int, b: int| 0 <= a < b < fidx.len() implies fidx[a] != fidx[b] by {
                if b < primary_fidx.len() || primary_fidx.len() <= a {
                } else {
                    assert(primary_eligible(&reg[fidx[a]], message));
                    assert(drain_eligible(&reg[fidx[b]], message));
                }
            }
            // Whether a non-root primary delivery succeeded reads the same off
            // the final failed set as off the primary pass's, since the drain
            // indices are never primary-eligible.
            if pass2_ran {
                assert forall|k: int|
                    0 <= k < reg.len() && primary_eligible(&reg[k], message) && !is_root_dest(
                        &reg[k],
                    ) implies fidx.to_set().contains(k) by {
                    assert(primary_fidx.contains(k));
                    let jj = choose|jj: int|
                        0 <= jj < primary_fidx.len() && primary_fidx[jj] == k;
                    assert(fidx[jj] == k);
                    assert(fidx.contains(k));
                }
                assert(!reached_non_root(reg, message, fidx.to_set()));
            } else {
                let k0 = choose|k0: int|
                    0 <= k0 < reg.len() && primary_eligible(&reg[k0], message) && !is_root_dest(
                        &reg[k0],
                    ) && !fidx.contains(k0);
                assert(!fidx.to_set().contains(k0));
                assert(reached_non_root(reg, message, fidx.to_set()));
            }
            assert(reached_non_root(reg, message, fidx.to_set()) <==> !pass2_ran);
        }

        if errors.is_empty() {
            proof {
                assert(fidx.len() == 0);
                assert(fidx.to_set() =~= Set::<int>::empty());
            }
            return Ok(successful);
        }

        let ghost fails_snapshot = errors@;
        let mut reported_errors: Vec<ReportedSendError<'a>> = Vec::new();
        let mut e: usize = 0;
        while e < errors.len()
            invariant
                n == reg.len(),
                reg == self.destinations@,
                e <= errors.len(),
                errors@ == fails_snapshot,
                reported_errors@.len() == e,
                forall|k: int|
                    0 <= k < e ==> reported_errors@[k].send_err == fails_snapshot[k]
                        && escalation_consistent(reg, &reported_errors@[k]),
            decreases errors.len() - e,
        {
            let error = &errors[e];
            let report_message = error.create_report_message();
            let mut any_report_success = false;
            let mut report_fails: Vec<SendErrorOwned> = Vec::new();
            let ghost mut ridx: Seq<int> = Seq::empty();

            let mut j: usize = 0;
            while j < n
                invariant
                    n == reg.len(),
                    reg == self.destinations@,
                    j <= n,
                    ridx.len() == report_fails@.len(),
                    forall|a: int, b: int| 0 <= a < b < ridx.len() ==> ridx[a] < ridx[b],
                    forall|k: int|
                        0 <= k < ridx.len() ==> 0 <= ridx[k] < j && is_root_dest(&reg[ridx[k]]),
                    forall|k: int|
                        0 <= k < ridx.len() ==> report_fails@[k].destination_id@
                            == reg[ridx[k]].id@,
                    forall|k: int|
                        0 <= k < ridx.len() ==> is_report_message(
                            report_fails@[k].message,
                            error.message.message_detail.spec_raw(),
                            error.destination_id@,
                            error.err.msg@,
                            error.message.unix_timestamp_millis,
                        ),
                    is_report_message(
                        report_message,
                        error.message.message_detail.spec_raw(),
                        error.destination_id@,
                        error.err.msg@,
                        error.message.unix_timestamp_millis,
                    ),
                    report_fails@.len() <= count_root(reg.take(j as int)),
                    any_report_success <==> report_fails@.len() < count_root(reg.take(j as int)),
                decreases n - j,
            {
                proof {
                    lemma_count_step(reg, message, j as int);
                }
                let dest = &self.destinations[j];
                if dest.is_root() {
                    match dest.send(&report_message) {
                        Ok(_) => {
                            any_report_success = true;
                        },
                        Err(send_err) => {
                            let report_clone = report_message.clone();
                            proof {
                                assert(is_report_message(
                                    report_clone,
                                    error.message.message_detail.spec_raw(),
                                    error.destination_id@,
                                    error.err.msg@,
                                    error.message.unix_timestamp_millis,
                                ));
                            }
                            report_fails.push(
                                SendErrorOwned::create(
                                    send_err,
                                    dest.get_id().to_owned(),
                                    report_clone,
                                ),
                            );
                            proof {
                                ridx = ridx.push(j as int);
                            }
                        },
                    }
                }
                j += 1;
            }
            proof {
                assert(reg.take(n as int) =~= reg);
            }

            let reported = ReportedSendError::new(
                error.clone(),
                ErrorReportSummary::new(any_report_success, report_fails),
            );
            proof {
                assert(root_fail_indices_ok(reg, &reported, ridx));
                assert(reported.error_report_summary.error_report_failures@.len() <= count_root(
                    reg,
                ));
                assert(reported.error_report_summary.reported
                    <==> reported.error_report_summary.error_report_failures@.len() < count_root(
                    reg,
                ));
                assert(escalation_consistent(reg, &reported));
            }
            reported_errors.push(reported);
            e += 1;
        }

        let send_errors = SendErrors::new(message, reported_errors, successful);
        proof {
            assert(fidx.len() == send_errors.errors@.len());
            assert(forall|a: int, b: int| 0 <= a < b < fidx.len() ==> fidx[a] != fidx[b]);
            assert(forall|j: int| 0 <= j < fidx.len() ==> 0 <= #[trigger] fidx[j] < reg.len());
            assert forall|j: int| 0 <= j < fidx.len() implies attempted(
                reg,
                message,
                fidx.to_set(),
                #[trigger] fidx[j],
            ) by {
                if j >= primary_fidx.len() {
                    assert(drain_eligible(&reg[fidx[j]], message));
                    assert(!reached_non_root(reg, message, fidx.to_set()));
                } else {
                    assert(primary_eligible(&reg[fidx[j]], message));
                }
            }
            assert forall|j: int|
                0 <= j < fidx.len() implies send_errors.errors@[j].send_err.destination_id@
                == reg[#[trigger] fidx[j]].id@ by {
                assert(send_errors.errors@[j].send_err == fails_snapshot[j]);
                assert(fails_snapshot[j].destination_id@ == reg[fidx[j]].id@);
            }
            assert forall|j: int|
                0 <= j < fidx.len() implies #[trigger] send_errors.errors@[j].send_err.message
                == message by {
                assert(send_errors.errors@[j].send_err == fails_snapshot[j]);
                assert(fails_snapshot[j].message == message);
            }
            assert(send_errors.successfully_sent + fidx.len() == attempted_count(
                reg,
                message,
                fidx.to_set(),
            ));
            assert(failure_order_ok(reg, message, fidx, primary_fidx.len() as int));
            assert(failure_indices_ok(reg, message, &send_errors, fidx));
            assert(send_errors.original_message == message);
            assert(send_errors.errors@.len() > 0);
            assert forall|j: int| 0 <= j < send_errors.errors@.len() implies escalation_consistent(
                reg,
                &send_errors.errors@[j],
            ) by {
                assert(send_errors.errors@[j] == reported_errors@[j]);
                assert(reported_errors@[j].send_err == fails_snapshot[j]);
                assert(escalation_consistent(reg, &reported_errors@[j]));
            }
        }
        Err(send_errors)
    }
}

/// With no eligible entries, the counts are zero.
proof fn lemma_counts_zero_when_none_eligible<D>(reg: Seq<RoutedDestinationBase<D>>, m: &Message)
    requires
        forall|i: int|
            0 <= i < reg.len() ==> !primary_eligible(&reg[i], m) && !drain_eligible(&reg[i], m),
    ensures
        count_primary(reg, m) == 0,
        count_drain(reg, m) == 0,
    decreases reg.len(),
{
    if reg.len() > 0 {
        assert(!primary_eligible(&reg[reg.len() - 1], m));
        lemma_counts_zero_when_none_eligible(reg.drop_last(), m);
    }
}

/// For a message and a registry with no eligible destination at all, `route`
/// returns zero successes and zero failures: a no-op, not an error.
pub proof fn lemma_route_no_eligible_is_noop<D>(
    reg: Seq<RoutedDestinationBase<D>>,
    m: &Message,
    result: &Result<usize, SendErrors>,
)
    requires
        forall|i: int|
            0 <= i < reg.len() ==> !primary_eligible(&reg[i], m) && !drain_eligible(&reg[i], m),
        route_ensures(reg, m, result),
    ensures
        result matches Ok(n) && n == 0,
{
    lemma_counts_zero_when_none_eligible(reg, m);
    match result {
        Ok(n) => {},
        Err(se) => {
            let fidx = choose|fidx: Seq<int>| failure_indices_ok(reg, m, se, fidx);
            assert(fidx.len() > 0);
            assert(attempted(reg, m, fidx.to_set(), fidx[0]));
        },
    }
}

impl<D: MessageDestination> Default for MessageRouter<D> {
    fn default() -> (r: Self)
        ensures
            r.destinations@.len() == 0,
    {
        MessageRouter::empty()
    }
}

} // verus!
