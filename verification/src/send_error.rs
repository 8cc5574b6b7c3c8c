pub mod borrowed;
pub mod owned;
pub mod reported;

use vstd::prelude::*;
use vstd::string::StringExecFns;
use crate::message::Message;
use crate::send_error::owned::SendErrorOwned;
use crate::send_error::reported::ReportedSendError;
use crate::util::decimal::{dec_rep, usize_to_dec};

verus! {

/// The delivery report handed back when a routing attempt had failures: how
/// many deliveries succeeded, the message that was being routed, and one
/// entry per failed delivery with its escalation outcome.
#[derive(Debug)]
pub struct SendErrors<'a> {
    pub successfully_sent: usize,
    pub original_message: &'a Message,
    pub errors: Vec<ReportedSendError<'a>>,
}

impl<'a> SendErrors<'a> {
    pub fn new(message: &'a Message, errors: Vec<ReportedSendError<'a>>, successfully_sent: usize) -> (r:
        Self)
        ensures
            r == (SendErrors { successfully_sent, original_message: message, errors }),
    {
        SendErrors { successfully_sent, original_message: message, errors }
    }

    /// The message whose routing produced these errors.
    pub fn get_message(&self) -> (m: &Message)
        ensures
            m == self.original_message,
    {
        self.original_message
    }

    /// Writes the report as operator-facing text: the summary counts, then
    /// one block per failure with its escalation detail.  A pure function of
    /// the report's data; it attempts no delivery.
    pub fn render(&self) -> (r: String)
        ensures
            r@ == render_report(self),
    {
        let mut r = ("-----\nSummary:\nSuccessfully sent to ").to_owned();
        r.append(usize_to_dec(self.successfully_sent).as_str());
        r.append(" destinations\nFailed to send to ");
        r.append(usize_to_dec(self.errors.len()).as_str());
        r.append(" destinations\nMessage: '");
        r.append(self.original_message.get_message_detail().raw());
        r.append("'\n");
        let ghost head = r@;
        let mut i: usize = 0;
        while i < self.errors.len()
            invariant
                i <= self.errors@.len(),
                r@ == head + render_error_blocks(self.errors@.take(i as int)),
            decreases self.errors@.len() - i,
        {
            let block = render_error_block_exec(&self.errors[i]);
            r.append(block.as_str());
            i += 1;
            proof {
                assert(self.errors@.take(i as int).drop_last() =~= self.errors@.take(i - 1));
                assert(r@ =~= head + render_error_blocks(self.errors@.take(i as int)));
            }
        }
        r.append("-----\n");
        proof {
            assert(self.errors@.take(self.errors@.len() as int) =~= self.errors@);
            assert(r@ =~= render_report(self));
        }
        r
    }
}

/// One line of escalation detail: the root destination that also failed, and
/// its error.
pub open spec fn render_escalation_line(f: SendErrorOwned) -> Seq<char> {
    "   - "@ + f.destination_id@ + ": "@ + f.err.msg@ + "\n"@
}

/// The escalation detail lines, in order.
pub open spec fn render_escalation_lines(fs: Seq<SendErrorOwned>) -> Seq<char>
    decreases fs.len(),
{
    if fs.len() == 0 {
        Seq::empty()
    } else {
        render_escalation_lines(fs.drop_last()) + render_escalation_line(fs.last())
    }
}

/// One failure block: which destination failed and why, whether the failure
/// was reported, and the escalation detail.  A failure that was not reported
/// and has no escalation failures had no root destination to turn to, and
/// the block says so.
pub open spec fn render_error_block(re: ReportedSendError) -> Seq<char> {
    "--\nFailed to send a message to destination '"@ + re.send_err.destination_id@ + "'\n"@
        + "Due to error: "@ + re.send_err.err.msg@ + "\n"@ + (if re.error_report_summary.reported {
        "This was reported to atleast one destination.\n"@
    } else if re.error_report_summary.error_report_failures@.len() == 0 {
        "No error receiving destinations were applicable to send this error to.\n"@
    } else {
        Seq::empty()
    }) + (if re.error_report_summary.error_report_failures@.len() > 0 {
        "Some error receiving destinations failed to be reported to.\n"@ + render_escalation_lines(
            re.error_report_summary.error_report_failures@,
        )
    } else {
        Seq::empty()
    })
}

/// All failure blocks, in report order.
pub open spec fn render_error_blocks(res: Seq<ReportedSendError>) -> Seq<char>
    decreases res.len(),
{
    if res.len() == 0 {
        Seq::empty()
    } else {
        render_error_blocks(res.drop_last()) + render_error_block(res.last())
    }
}

/// The whole report: summary counts, the routed message's raw text, one
/// block per failure, and a closing rule.
pub open spec fn render_report(se: &SendErrors) -> Seq<char> {
    "-----\nSummary:\nSuccessfully sent to "@ + dec_rep(se.successfully_sent as nat)
        + " destinations\nFailed to send to "@ + dec_rep(se.errors@.len())
        + " destinations\nMessage: '"@ + se.original_message.message_detail.spec_raw() + "'\n"@
        + render_error_blocks(se.errors@) + "-----\n"@
}

fn render_error_block_exec(re: &ReportedSendError) -> (r: String)
    ensures
        r@ == render_error_block(*re),
{
    let mut r = ("--\nFailed to send a message to destination '").to_owned();
    r.append(re.send_err.destination_id.as_str());
    r.append("'\n");
    r.append("Due to error: ");
    r.append(re.send_err.err.msg.as_str());
    r.append("\n");
    let fails = &re.error_report_summary.error_report_failures;
    if re.error_report_summary.reported {
        r.append("This was reported to atleast one destination.\n");
    } else if fails.len() == 0 {
        r.append("No error receiving destinations were applicable to send this error to.\n");
    }
    let ghost head = r@;
    if fails.len() > 0 {
        r.append("Some error receiving destinations failed to be reported to.\n");
        let mut k: usize = 0;
        while k < fails.len()
            invariant
                k <= fails@.len(),
                r@ == head + "Some error receiving destinations failed to be reported to.\n"@
                    + render_escalation_lines(fails@.take(k as int)),
            decreases fails@.len() - k,
        {
            r.append("   - ");
            r.append(fails[k].destination_id.as_str());
            r.append(": ");
            r.append(fails[k].err.msg.as_str());
            r.append("\n");
            k += 1;
            proof {
                assert(fails@.take(k as int).drop_last() =~= fails@.take(k - 1));
                assert(r@ =~= head
                    + "Some error receiving destinations failed to be reported to.\n"@
                    + render_escalation_lines(fails@.take(k as int)));
            }
        }
        proof {
            assert(fails@.take(fails@.len() as int) =~= fails@);
            assert(r@ =~= render_error_block(*re));
        }
    } else {
        proof {
            assert(r@ =~= render_error_block(*re));
        }
    }
    r
}

} // verus!
