//! Numbering and queueing of the commands the core sends on its own
//! initiative.

use vstd::prelude::*;
use vstd::string::*;
use crate::messages::{OcppCommandToAsset, CommandView, command_views, lemma_command_views_push};
use crate::ocpp_types::{EOutgoingOcppMessage, ChangeConfigurationReqPayload, MessageView};
use crate::text::{append_decimal, decimal_of};

verus! {

/// The message id `{prefix}_{n}`.
pub open spec fn message_id_text(prefix: Seq<char>, n: nat) -> Seq<char> {
    prefix + "_"@ + decimal_of(n)
}

/// Builds the message id `{prefix}_{n}`.
pub fn message_id(prefix: &str, n: u64) -> (r: String)
    ensures
        r@ == message_id_text(prefix@, n as nat),
{
    let mut s = String::from_str(prefix);
    s.append("_");
    append_decimal(&mut s, n);
    s
}

/// The view of a self-initiated command numbered `n` in its category.
pub open spec fn numbered_command(cp: Seq<char>, message: MessageView, prefix: Seq<char>, n: nat) -> CommandView {
    CommandView { charge_point_id: cp, message, ocpp_message_id: Some(message_id_text(prefix, n)) }
}

/// Queues a command under the next number of its category.
pub fn send_ocpp_command_helper(
    charge_point_id: &str,
    message: EOutgoingOcppMessage,
    out: &mut Vec<OcppCommandToAsset>,
    counter: &mut u64,
    prefix: &str,
)
    requires
        *old(counter) < u64::MAX,
    ensures
        *final(counter) == *old(counter) + 1,
        command_views(final(out)@) == command_views(old(out)@).push(
            numbered_command(charge_point_id@, message@, prefix@, (*old(counter) + 1) as nat),
        ),
{
    *counter = *counter + 1;
    let id = message_id(prefix, *counter);
    let cmd = OcppCommandToAsset {
        charge_point_id: String::from_str(charge_point_id),
        message_type: message,
        ocpp_message_id: Some(id),
    };
    proof {
        lemma_command_views_push(out@, cmd);
    }
    out.push(cmd);
}

/// A `ChangeConfiguration` request.
pub fn change_configuration(key: &str, value: &str) -> (r: EOutgoingOcppMessage)
    ensures
        r@ == (MessageView::ChangeConfigurationRequest { key: key@, value: value@ }),
{
    EOutgoingOcppMessage::ChangeConfigurationRequest(ChangeConfigurationReqPayload {
        key: String::from_str(key),
        value: String::from_str(value),
    })
}

} // verus!
