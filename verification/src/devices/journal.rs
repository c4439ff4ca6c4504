//! The library's edge, kept on record.
//!
//! What a device's driver cannot know in advance — what a stream or a
//! socket returns, what the shutdown flag holds — reaches it through the
//! few functions here, and what it sends out leaves through them. Each
//! makes one call and enters into a journal what the call was given and
//! what it did. The drivers sit in other files and cannot reach past these
//! functions, so a journal says nothing that did not happen and leaves out
//! nothing that did.

use crate::devices::smartsocket::ReadWrite;
use crate::devices::smartsocket::Traffic;
use crate::devices::termo::Event;
use crate::devices::termo::Temperature;
use crate::devices::termo::UdpLike;
use crate::devices::termo::SAMPLE_LEN;
use std::sync::atomic::AtomicBool;
use std::sync::atomic::Ordering;
use std::sync::Arc;
use vstd::prelude::*;

verus! {

/// A byte stream to a peer and the record of the traffic on it.
pub(crate) struct Link {
    stream: Box<dyn ReadWrite>,
    journal: Ghost<Seq<Traffic>>,
}

impl Link {
    /// Every write and read so far, oldest first.
    pub closed spec fn journal(&self) -> Seq<Traffic> {
        self.journal@
    }

    /// A link over `stream` on which nothing has happened yet.
    pub fn open<S: ReadWrite + 'static>(stream: S) -> (link: Link)
        ensures
            link.journal() == Seq::<Traffic>::empty(),
    {
        Link { stream: Box::new(stream), journal: Ghost(Seq::empty()) }
    }

    /// Writes all of `bytes` to the peer, or fails.
    pub fn send(&mut self, bytes: &[u8]) -> (outcome: Result<(), std::io::Error>)
        ensures
            final(self).journal() == old(self).journal().push(
                if outcome is Ok {
                    Traffic::Wrote(bytes@)
                } else {
                    Traffic::WriteFailed(bytes@)
                },
            ),
    {
        let outcome = self.stream.write_all(bytes);
        let ghost entry = if outcome is Ok {
            Traffic::Wrote(bytes@)
        } else {
            Traffic::WriteFailed(bytes@)
        };
        self.journal = Ghost(self.journal@.push(entry));
        outcome
    }

    /// Reads five bytes from the peer, or fails.
    pub fn receive(&mut self) -> (outcome: Result<[u8; 5], std::io::Error>)
        ensures
            final(self).journal() == old(self).journal().push(
                match outcome {
                    Ok(frame) => Traffic::Read(frame@),
                    Err(_) => Traffic::ReadFailed,
                },
            ),
    {
        let mut frame: [u8; 5] = [0u8; 5];
        match self.stream.read_exact(&mut frame) {
            Ok(()) => {
                self.journal = Ghost(self.journal@.push(Traffic::Read(frame@)));
                Ok(frame)
            },
            Err(failure) => {
                self.journal = Ghost(self.journal@.push(Traffic::ReadFailed));
                Err(failure)
            },
        }
    }
}

/// What a sampler works with — the socket it listens at, the shutdown flag
/// it looks at and the cell it writes to — and the record of its work.
pub(crate) struct Station<S> {
    socket: S,
    flag: Arc<AtomicBool>,
    cell: Arc<Temperature>,
    journal: Ghost<Seq<Event>>,
}

impl<S: UdpLike> Station<S> {
    /// Every look, listen and write so far, oldest first.
    pub closed spec fn journal(&self) -> Seq<Event> {
        self.journal@
    }

    /// What a listen is entered as, given what the socket returned and the
    /// buffer it filled.
    pub open spec fn delivery(outcome: Result<usize, std::io::Error>, buf: Seq<u8>) -> Event {
        match outcome {
            Ok(received) => if received >= SAMPLE_LEN {
                Event::Heard(buf)
            } else {
                Event::Short(received)
            },
            Err(_) => Event::Missed,
        }
    }

    /// A station at which nothing has happened yet.
    pub fn new(socket: S, flag: Arc<AtomicBool>, cell: Arc<Temperature>) -> (station: Station<S>)
        ensures
            station.journal() == Seq::<Event>::empty(),
    {
        Station { socket, flag, cell, journal: Ghost(Seq::empty()) }
    }

    /// Looks at the shutdown flag.
    pub fn look(&mut self) -> (raised: bool)
        ensures
            final(self).journal() == old(self).journal().push(Event::Looked(raised)),
    {
        let raised = self.flag.load(Ordering::SeqCst);
        self.journal = Ghost(self.journal@.push(Event::Looked(raised)));
        raised
    }

    /// Waits for one datagram. Returns what the socket returned and a
    /// buffer with the first four bytes of the datagram, if it had as many.
    pub fn listen(&mut self) -> (delivery: ([u8; 4], Result<usize, std::io::Error>))
        ensures
            final(self).journal() == old(self).journal().push(
                Station::<S>::delivery(delivery.1, delivery.0@),
            ),
    {
        let mut buf: [u8; 4] = [0u8; 4];
        let outcome = self.socket.recv_from(&mut buf);
        self.journal = Ghost(self.journal@.push(Station::<S>::delivery(outcome, buf@)));
        (buf, outcome)
    }

    /// Writes `bits` to the shared cell.
    pub fn publish(&mut self, bits: u32)
        ensures
            final(self).journal() == old(self).journal().push(Event::Published(bits)),
    {
        self.cell.set(bits);
        self.journal = Ghost(self.journal@.push(Event::Published(bits)));
    }
}

} // verus!
