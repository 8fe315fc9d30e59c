//! Flow-priority policy.
//!
//! When the shaper announces a newly classified flow inside the bundle,
//! a [`Prioritizer`] picks a priority for it and the answer goes back to
//! the shaper as an [`UpdatePrioMsg`].  The default policy gives every
//! flow priority 1.

use vstd::prelude::*;
use crate::serialize::{QDiscPrioMsg, UpdatePrioMsg, UPDATE_PRIO_MSG_TYPE};

verus! {

/// The four-tuple of a flow inside the bundle, with the addresses as
/// host-order integers.
#[derive(Clone, Copy, Debug, PartialEq, Eq, Structural)]
pub struct FlowInfo {
    pub src_ip: u32,
    pub src_port: u16,
    pub dst_ip: u32,
    pub dst_port: u16,
}

impl FlowInfo {
    /// Package a flow's four-tuple.
    pub fn new(src_ip: u32, src_port: u16, dst_ip: u32, dst_port: u16) -> (r: Self)
        ensures
            r == (FlowInfo { src_ip, src_port, dst_ip, dst_port }),
    {
        FlowInfo { src_ip, src_port, dst_ip, dst_port }
    }

    /// The four-tuple a flow announcement describes.
    pub fn from_announcement(msg: &QDiscPrioMsg) -> (r: Self)
        ensures
            r == (FlowInfo {
                src_ip: msg.src_ip,
                src_port: msg.src_port,
                dst_ip: msg.dst_ip,
                dst_port: msg.dst_port,
            }),
    {
        FlowInfo {
            src_ip: msg.src_ip,
            src_port: msg.src_port,
            dst_ip: msg.dst_ip,
            dst_port: msg.dst_port,
        }
    }
}

/// A pluggable priority policy, consulted once per announced flow.
pub trait Prioritizer {
    /// The priority to assign to `flow`.
    fn assign_priority(&mut self, flow: FlowInfo) -> u16;
}

/// The default policy: every flow gets priority 1.
#[derive(Clone, Copy, Debug, PartialEq, Eq, Structural)]
pub struct DefaultPrioritizer;

impl Prioritizer for DefaultPrioritizer {
    fn assign_priority(&mut self, flow: FlowInfo) -> (r: u16)
        ensures
            r == 1,
    {
        1
    }
}

/// The priority directive answering a flow announcement: same bundle,
/// same flow, the chosen priority.
pub fn flow_priority_response(msg: &QDiscPrioMsg, prio: u16) -> (r: UpdatePrioMsg)
    ensures
        r == (UpdatePrioMsg {
            msg_type: UPDATE_PRIO_MSG_TYPE,
            bundle_id: msg.bundle_id,
            flow_id: msg.flow_id,
            flow_prio: prio,
        }),
{
    UpdatePrioMsg {
        msg_type: UPDATE_PRIO_MSG_TYPE,
        bundle_id: msg.bundle_id,
        flow_id: msg.flow_id,
        flow_prio: prio,
    }
}

} // verus!
