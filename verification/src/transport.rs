//! The transport adapter: a non-blocking datagram source and sink over a pair
//! of queues, for a polling engine to read and write.
//!
//! One worker fills the inbound queue with what the transport received;
//! another drains the outbound queue into the transport's send path. The
//! adapter never waits for either.
use crate::channel::{open_queue, queue_send, queue_try_recv, QueueError};
use crate::PeerHandle;
use crossbeam_channel::{Receiver, Sender};
use vstd::prelude::*;
use vstd::slice::slice_to_vec;

verus! {

/// A datagram as the transport carries it: the remote address and the bytes.
#[derive(Debug, Clone, PartialEq, Eq)]
pub struct Datagram {
    pub address: PeerHandle,
    pub payload: Vec<u8>,
}

/// Why the adapter moved no datagram.
#[derive(Debug, Clone, Copy, PartialEq, Eq, Structural)]
pub enum TransportError {
    /// No datagram is queued this poll. This is the steady state, not a fault.
    WouldBlock,
    /// The outbound queue has lost its reader: the sending worker has ended.
    BrokenPipe,
    /// The inbound queue has lost its writers: the receiving worker has ended.
    NotConnected,
    /// The datagram taken off the queue is longer than the buffer offered for
    /// it. The datagram is lost.
    BufferTooSmall,
}

/// The adapter itself. `bind_address` is the address the server listens on.
///
/// [`LaminarDatagramSocketForNaia::open`] makes both queues without a
/// capacity limit, so a send never waits. An adapter put together by hand
/// around a queue with a limit would wait in `send_packet` while that queue
/// is full.
#[derive(Debug)]
pub struct LaminarDatagramSocketForNaia {
    pub bind_address: PeerHandle,
    pub naia_packet_receiver: Receiver<Datagram>,
    pub naia_payload_sender: Sender<Datagram>,
}

/// What `buffer` holds once `payload` has been written over its start.
pub open spec fn overwritten(buffer: Seq<u8>, payload: Seq<u8>) -> Seq<u8> {
    payload + buffer.skip(payload.len() as int)
}

/// What a receive answers to each thing the inbound queue can say.
pub open spec fn receive_outcome(polled: Result<Datagram, QueueError>, room: nat) -> Result<
    (usize, PeerHandle),
    TransportError,
> {
    match polled {
        Ok(datagram) => if datagram.payload@.len() <= room {
            Ok((datagram.payload@.len() as usize, datagram.address))
        } else {
            Err(TransportError::BufferTooSmall)
        },
        Err(QueueError::Empty) => Err(TransportError::WouldBlock),
        Err(QueueError::Disconnected) => Err(TransportError::NotConnected),
    }
}

/// What `buffer` holds after a receive that the inbound queue answered with
/// `polled`: a datagram that fits is written over its start, anything else
/// leaves it as it was.
pub open spec fn buffer_after(polled: Result<Datagram, QueueError>, buffer: Seq<u8>) -> Seq<u8> {
    match polled {
        Ok(datagram) => if datagram.payload@.len() <= buffer.len() {
            overwritten(buffer, datagram.payload@)
        } else {
            buffer
        },
        Err(_) => buffer,
    }
}

/// Writes `payload` over the start of `buffer`.
fn copy_into(payload: &Vec<u8>, buffer: &mut [u8])
    requires
        payload@.len() <= old(buffer)@.len(),
    ensures
        final(buffer)@ == overwritten(old(buffer)@, payload@),
{
    let ghost before = buffer@;
    let mut i: usize = 0;
    while i < payload.len()
        invariant
            i <= payload@.len() <= before.len(),
            buffer@.len() == before.len(),
            forall|k: int| 0 <= k < i ==> buffer@[k] == payload@[k],
            forall|k: int| i <= k < before.len() ==> buffer@[k] == before[k],
        decreases payload@.len() - i,
    {
        buffer[i] = payload[i];
        i += 1;
    }
    assert(buffer@ =~= overwritten(before, payload@));
}

/// Answers a receive from what the inbound queue said: a datagram that fits
/// is written over the start of `buffer` and reported with its length and
/// sender; anything else leaves `buffer` as it was.
pub fn deliver(polled: Result<Datagram, QueueError>, buffer: &mut [u8]) -> (received: Result<
    (usize, PeerHandle),
    TransportError,
>)
    ensures
        received == receive_outcome(polled, old(buffer)@.len()),
        final(buffer)@ == buffer_after(polled, old(buffer)@),
{
    match polled {
        Ok(datagram) => {
            if datagram.payload.len() <= buffer.len() {
                copy_into(&datagram.payload, buffer);
                Ok((datagram.payload.len(), datagram.address))
            } else {
                Err(TransportError::BufferTooSmall)
            }
        },
        Err(QueueError::Empty) => Err(TransportError::WouldBlock),
        Err(QueueError::Disconnected) => Err(TransportError::NotConnected),
    }
}

/// Answers a send of `length` bytes from what the outbound queue said.
pub fn sent(queued: Result<(), Datagram>, length: usize) -> (sent: Result<usize, TransportError>)
    ensures
        sent == match queued {
            Ok(()) => Ok::<usize, TransportError>(length),
            Err(_) => Err::<usize, TransportError>(TransportError::BrokenPipe),
        },
{
    match queued {
        Ok(()) => Ok(length),
        Err(_) => Err(TransportError::BrokenPipe),
    }
}

impl Datagram {
    pub fn new(address: PeerHandle, payload: Vec<u8>) -> (datagram: Datagram)
        ensures
            datagram.address == address,
            datagram.payload == payload,
    {
        Datagram { address, payload }
    }
}

impl LaminarDatagramSocketForNaia {
    /// A new adapter for `bind_address`, with the far ends of its two queues:
    /// the one the receiving worker writes to and the one the sending worker
    /// reads from.
    pub fn open(bind_address: PeerHandle) -> (opened: (
        LaminarDatagramSocketForNaia,
        Sender<Datagram>,
        Receiver<Datagram>,
    ))
        ensures
            opened.0.bind_address == bind_address,
    {
        let (inbound, naia_packet_receiver) = open_queue();
        let (naia_payload_sender, outbound) = open_queue();
        let socket = LaminarDatagramSocketForNaia {
            bind_address,
            naia_packet_receiver,
            naia_payload_sender,
        };
        (socket, inbound, outbound)
    }

    /// Queues `payload` for `addr`. The call does not wait; it fails only when
    /// the sending worker is gone.
    pub fn send_packet(&mut self, addr: &PeerHandle, payload: &[u8]) -> (sent: Result<
        usize,
        TransportError,
    >)
        ensures
            *final(self) == *old(self),
            sent matches Ok(length) ==> length == payload@.len(),
            sent matches Err(error) ==> error == TransportError::BrokenPipe,
    {
        let datagram = Datagram::new(*addr, slice_to_vec(payload));
        self::sent(queue_send(&self.naia_payload_sender, datagram), payload.len())
    }

    /// Takes the oldest queued datagram, if there is one, and writes it over
    /// the start of `buffer`. An empty queue answers `WouldBlock`.
    ///
    /// Which answer the queue gives is the queue's to say. Whatever it is, the
    /// result and the buffer are what [`deliver`] makes of it.
    pub fn receive_packet(&mut self, buffer: &mut [u8]) -> (received: Result<
        (usize, PeerHandle),
        TransportError,
    >)
        ensures
            *final(self) == *old(self),
            exists|polled: Result<Datagram, QueueError>|
                received == #[trigger] receive_outcome(polled, old(buffer)@.len())
                    && final(buffer)@ == buffer_after(polled, old(buffer)@),
            final(buffer)@.len() == old(buffer)@.len(),
            match received {
                Ok((length, _)) => length <= old(buffer)@.len() && final(buffer)@.skip(
                    length as int,
                ) == old(buffer)@.skip(length as int),
                Err(_) => final(buffer)@ == old(buffer)@,
            },
    {
        let polled = queue_try_recv(&self.naia_packet_receiver);
        let ghost asked = polled;
        let received = deliver(polled, buffer);
        proof {
            assert(received == receive_outcome(asked, old(buffer)@.len()));
            if let (Ok(datagram), Ok(_)) = (asked, received) {
                let written = overwritten(old(buffer)@, datagram.payload@);
                let length = datagram.payload@.len() as int;
                assert(datagram.payload.len() == length);
                assert(written.skip(length) =~= old(buffer)@.skip(length));
            }
        }
        received
    }

    pub fn local_addr(&self) -> (addr: Result<PeerHandle, TransportError>)
        ensures
            addr == Ok::<PeerHandle, TransportError>(self.bind_address),
    {
        Ok(self.bind_address)
    }

    /// The adapter never waits.
    pub fn is_blocking_mode(&self) -> (blocking: bool)
        ensures
            !blocking,
    {
        false
    }
}

} // verus!
