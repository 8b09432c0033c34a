//! The messages that travel over a connection.

use vstd::prelude::*;
use crate::build_context::{BuildContext, Files};
use crate::build_status::{BuildStatus, StatusView};
use crate::tagged::Tagged;

verus! {

/// The answer to a build request: whether it was admitted, and how much
/// capacity the admission controller had when it decided.
#[derive(Debug, Clone, Copy, PartialEq, Eq, Structural)]
pub struct QueueInfo {
    /// The request was admitted and its build has started.
    pub accepted: bool,
    /// Permits that were available at decision time.
    pub slots_available: usize,
}

/// A packet, transmissible over the wire.
///
/// | Direction | Variant       | Meaning                                        |
/// |-----------|---------------|------------------------------------------------|
/// | receive   | `Request`     | a client asks for a build of its files         |
/// | send      | `Acknowledge` | the request was admitted, or turned away       |
/// | send      | `Response`    | the outcome of an admitted build               |
/// | both      | `Heartbeat`   | the peer is alive                              |
#[derive(Debug)]
pub enum Packet {
    Request(Tagged<BuildContext>),
    Acknowledge(Tagged<QueueInfo>),
    Response(Tagged<BuildStatus>),
    Heartbeat,
}

/// A [`Packet`] with its texts and collections as sequences.
pub enum PacketView {
    Request { uuid: u128, files: Files },
    Acknowledge { uuid: u128, info: QueueInfo },
    Response { uuid: u128, status: StatusView },
    Heartbeat,
}

impl View for Packet {
    type V = PacketView;

    open spec fn view(&self) -> PacketView {
        match *self {
            Packet::Request(request) => PacketView::Request {
                uuid: request.uuid,
                files: request.inner@,
            },
            Packet::Acknowledge(ack) => PacketView::Acknowledge { uuid: ack.uuid, info: ack.inner },
            Packet::Response(response) => PacketView::Response {
                uuid: response.uuid,
                status: response.inner@,
            },
            Packet::Heartbeat => PacketView::Heartbeat,
        }
    }
}

} // verus!
