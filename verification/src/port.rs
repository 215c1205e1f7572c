//! The communication substrate: a directional port of a core is either
//! disconnected or one end of a bounded, capacity-one, two-party channel
//! shared with exactly one neighbouring core.
//!
//! The channel itself is `std::sync::mpsc`'s bounded channel, taken on
//! trust behind the small wrappers below; what the library verifies about
//! ports is their connection state and the register effects of the
//! instructions around them. The values a channel carries are outside the
//! verified model, so `read` and `write` promise nothing about them.

use vstd::prelude::*;

verus! {

#[verifier::external_type_specification]
#[verifier::external_body]
#[verifier::reject_recursive_types(T)]
pub struct ExReceiver<T>(std::sync::mpsc::Receiver<T>);

#[verifier::external_type_specification]
#[verifier::external_body]
#[verifier::reject_recursive_types(T)]
pub struct ExSyncSender<T>(std::sync::mpsc::SyncSender<T>);

/// Relies on std::sync::mpsc::sync_channel: builds one bounded channel
/// whose `send` blocks once `bound` values are in flight.
#[verifier::external_body]
pub(crate) fn new_channel(bound: usize) -> (r: (
    std::sync::mpsc::SyncSender<i16>,
    std::sync::mpsc::Receiver<i16>,
)) {
    std::sync::mpsc::sync_channel(bound)
}

/// Relies on std::sync::mpsc::SyncSender::send: blocks while the channel
/// is full, and reports whether the far end still exists.
#[verifier::external_body]
pub(crate) fn chan_send(tx: &std::sync::mpsc::SyncSender<i16>, val: i16) -> (r: bool) {
    tx.send(val).is_ok()
}

/// Relies on std::sync::mpsc::Receiver::recv: blocks until a value is
/// available, and yields nothing once the far end is gone.
#[verifier::external_body]
pub(crate) fn chan_recv(rx: &std::sync::mpsc::Receiver<i16>) -> (r: Option<i16>) {
    rx.recv().ok()
}

/// The two channel ends a connected port holds: the stream it consumes
/// and the stream its neighbour consumes.
pub struct PortInterface {
    pub inbound: std::sync::mpsc::Receiver<i16>,
    pub outbound: std::sync::mpsc::SyncSender<i16>,
}

/// One directional endpoint of a core. `Dsc` is the initial, dangling
/// state in which any access blocks its caller forever; `Conn` holds the
/// two ends of the channel pair shared with exactly one neighbour.
pub enum Port {
    Dsc,
    Conn(PortInterface),
}

impl Port {
    /// Whether this port has been bound to a neighbour.
    pub open spec fn is_conn(&self) -> bool {
        self is Conn
    }

    pub fn new(
        inbound: std::sync::mpsc::Receiver<i16>,
        outbound: std::sync::mpsc::SyncSender<i16>,
    ) -> (r: Self)
        ensures
            r.is_conn(),
    {
        Self::Conn(PortInterface { inbound, outbound })
    }

    /// Send one value to the neighbour, blocking while a previous value is
    /// still in flight; on a disconnected port, never return. The far end
    /// of a bound pair outliving its core is outside the model, so a send
    /// whose receiver is gone is silently dropped.
    pub fn write(&self, val: i16) {
        match self {
            Port::Conn(x) => {
                let _ok = chan_send(&x.outbound, val);
            }
            Port::Dsc => {
                block_forever();
            }
        }
    }

    /// Receive one value from the neighbour, blocking until one arrives;
    /// on a disconnected port, never return. The far end of a bound pair
    /// outliving its core is outside the model, so a receive whose sender
    /// is gone parks the thread for good rather than failing.
    pub fn read(&self) -> i16 {
        match self {
            Port::Conn(x) => {
                match chan_recv(&x.inbound) {
                    Option::Some(v) => v,
                    Option::None => {
                        block_forever();
                        0
                    }
                }
            }
            Port::Dsc => {
                block_forever();
                0
            }
        }
    }
}

/// Park the calling thread for good by waiting on a channel whose sender
/// is held right here and never used: the wait never ends, and no cycles
/// are burnt spinning. (Were the wait ever to end, the caller would merely
/// carry on; nothing is promised about it.)
fn block_forever() {
    let pair = new_channel(1);
    let _never = chan_recv(&pair.1);
}

} // verus!
