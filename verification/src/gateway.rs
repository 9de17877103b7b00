//! The ingestion loop's first look at a delivery: what kind of gateway
//! payload it is, before anything is decoded.

use crate::trusted::{frame_parts_view, heartbeat_ack_opcode, reconnect_opcode, scan_frame};
use crate::trusted::{scanned_frame, FrameParts, FramePartsView};
use vstd::prelude::*;

verus! {

/// What the ingestion loop does with a delivery.
#[derive(Debug, PartialEq, Eq)]
pub enum Frame {
    /// The payload names no opcode: it is logged and dropped, and the loop
    /// goes on with the next delivery.
    Unreadable,
    /// The acknowledgement of a heartbeat. There is nothing to decode.
    HeartbeatAck,
    /// The gateway asks for a reconnect. There is nothing to decode.
    Reconnect,
    /// Any other payload: it is decoded in full, with the parts that the
    /// scan found.
    Payload { op: u8, sequence: Option<u64>, event_type: Option<String> },
}

/// A [`Frame`] as specifications see it.
pub enum FrameView {
    Unreadable,
    HeartbeatAck,
    Reconnect,
    Payload { op: u8, sequence: Option<u64>, event_type: Option<Seq<char>> },
}

impl DeepView for Frame {
    type V = FrameView;

    open spec fn deep_view(&self) -> FrameView {
        match *self {
            Frame::Unreadable => FrameView::Unreadable,
            Frame::HeartbeatAck => FrameView::HeartbeatAck,
            Frame::Reconnect => FrameView::Reconnect,
            Frame::Payload { op, sequence, event_type } => FrameView::Payload {
                op,
                sequence,
                event_type: match event_type {
                    Some(name) => Some(name@),
                    None => None,
                },
            },
        }
    }
}

/// The frame that scanned parts make.
pub open spec fn frame_of(parts: Option<FramePartsView>) -> FrameView {
    match parts {
        None => FrameView::Unreadable,
        Some((op, sequence, event_type)) => {
            if op == 11 {
                FrameView::HeartbeatAck
            } else if op == 7 {
                FrameView::Reconnect
            } else {
                FrameView::Payload { op, sequence, event_type }
            }
        },
    }
}

/// Decides what a delivery is from the parts that a scan of it found.
pub fn classify(parts: Option<FrameParts>) -> (frame: Frame)
    ensures
        frame.deep_view() == frame_of(frame_parts_view(parts)),
{
    match parts {
        None => Frame::Unreadable,
        Some((op, sequence, event_type)) => {
            if op == heartbeat_ack_opcode() {
                Frame::HeartbeatAck
            } else if op == reconnect_opcode() {
                Frame::Reconnect
            } else {
                Frame::Payload { op, sequence, event_type }
            }
        },
    }
}

/// Scans a delivery and decides what it is.
pub fn inspect(json: &str) -> (frame: Frame)
    ensures
        frame.deep_view() == frame_of(scanned_frame(json@)),
{
    classify(scan_frame(json))
}

} // verus!
