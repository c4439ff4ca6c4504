//! The remote thermometer: a client handle that reports the latest reading
//! without blocking, and the sampler that listens for readings on a
//! datagram socket and publishes each one it hears.
//!
//! The two halves share a cell and a shutdown flag. Dropping the handle
//! raises the flag; the sampler looks at the flag at the start of every
//! round, so it stops within one round of the drop, not at once.

use crate::devices::journal::Station;
use crate::devices::wire::from_be_bytes;
use crate::devices::wire::spec_from_be_bytes;
use crate::devices::wire::ZERO_BITS;
use std::sync::atomic::AtomicBool;
use std::sync::atomic::AtomicU32;
use std::sync::atomic::Ordering;
use std::sync::Arc;
use vstd::prelude::*;

verus! {

/// The number of bytes of a datagram that carry the reading.
pub const SAMPLE_LEN: usize = 4;

/// A datagram socket that a sampler can listen on.
pub trait UdpLike {
    /// Waits for the next datagram, copies its first bytes into `buf` and
    /// returns how many it copied, or fails, as it does when the wait
    /// times out.
    fn recv_from(&mut self, buf: &mut [u8]) -> Result<usize, std::io::Error>;
}

/// The latest reading, as the 32 bits of a single-precision number, in a
/// cell that is read and written whole.
#[derive(Debug)]
pub(crate) struct Temperature {
    bits: AtomicU32,
}

impl Temperature {
    /// The reading that was published last.
    pub fn get(&self) -> u32 {
        self.bits.load(Ordering::SeqCst)
    }

    /// Publishes `val`, replacing the reading before it.
    pub fn set(&self, val: u32) {
        self.bits.store(val, Ordering::SeqCst)
    }
}

/// `AtomicBool::store` with `true` and sequentially consistent ordering: it
/// returns, and it neither unwinds nor touches anything but the flag.
#[verifier::external_body]
fn raise(flag: &AtomicBool)
    opens_invariants none
    no_unwind
{
    flag.store(true, Ordering::SeqCst)
}

/// The client's handle on a thermometer.
#[derive(Debug)]
pub struct SmartThermometer {
    temperature: Arc<Temperature>,
    finished: Arc<AtomicBool>,
}

impl SmartThermometer {
    /// A thermometer that reads 0.0, and the sampler that will feed it from
    /// `stream`. The sampler has done nothing yet; whoever runs it calls
    /// `sample_once` round after round until it reports `Tick::Stopped`.
    pub fn new<S: UdpLike>(stream: S) -> (pair: (SmartThermometer, Sampler<S>))
        ensures
            !pair.1.is_stopped(),
            pair.1.journal() == Seq::<Event>::empty(),
            pair.1.orderly(),
    {
        let temperature = Arc::new(Temperature { bits: AtomicU32::new(ZERO_BITS) });
        let finished = Arc::new(AtomicBool::new(false));
        let sampler = Sampler {
            station: Station::new(stream, finished.clone(), temperature.clone()),
            stopped: false,
        };
        (SmartThermometer { temperature, finished }, sampler)
    }

    /// The reading that was published last, as the 32 bits of a
    /// single-precision number; 0.0 until the first one arrives. Never blocks.
    pub fn get_temperature(&self) -> u32 {
        self.temperature.get()
    }
}

impl Drop for SmartThermometer {
    /// Tells the sampler to stop.
    fn drop(&mut self)
        opens_invariants none
        no_unwind
    {
        raise(&self.finished);
    }
}

/// What one round of sampling came to.
#[derive(Debug)]
pub enum Tick {
    /// The handle is gone: the sampler has stopped for good.
    Stopped,
    /// No datagram was received; the failure is inside.
    Missed(std::io::Error),
    /// A datagram was received that is too short to carry a reading; the
    /// number of bytes it had is inside.
    Short(usize),
    /// A datagram was received and the reading it carries was published.
    Published(u32),
}

/// The reading that a datagram of `received` bytes carries, the first four
/// of which are `buf`: the word that they spell, if there are four.
pub open spec fn spec_reading(received: usize, buf: Seq<u8>) -> Option<u32> {
    if received >= SAMPLE_LEN {
        Some(spec_from_be_bytes(buf))
    } else {
        None
    }
}

/// The reading that a datagram carries, given how many bytes were received
/// and the buffer that holds the first four of them.
pub fn reading(received: usize, buf: &[u8; 4]) -> (sample: Option<u32>)
    ensures
        sample == spec_reading(received, buf@),
{
    if received >= SAMPLE_LEN {
        Some(from_be_bytes(buf))
    } else {
        None
    }
}

/// One thing that a sampler did or found.
pub enum Event {
    /// It looked at the shutdown flag and found it raised, or not.
    Looked(bool),
    /// It listened and no datagram was received.
    Missed,
    /// It listened and received a datagram too short to carry a reading;
    /// the number of bytes it had is inside.
    Short(usize),
    /// It listened and received a datagram; its first four bytes are inside.
    Heard(Seq<u8>),
    /// It wrote a reading to the shared cell.
    Published(u32),
}

/// The background half of a thermometer.
pub struct Sampler<S> {
    station: Station<S>,
    stopped: bool,
}

impl<S: UdpLike> Sampler<S> {
    /// The sampler has seen the shutdown flag raised.
    pub closed spec fn is_stopped(&self) -> bool {
        self.stopped
    }

    /// Everything that the sampler has done and found so far, oldest first.
    pub closed spec fn journal(&self) -> Seq<Event> {
        self.station.journal()
    }

    /// The journal is in order: the sampler has stopped exactly if the last
    /// thing it did was to find the shutdown flag raised, it did nothing
    /// after it found the flag raised, and every reading it wrote is the
    /// word spelled by the datagram it had received just before.
    pub open spec fn orderly(&self) -> bool {
        let journal = self.journal();
        &&& self.is_stopped() <==> journal.len() > 0 && journal.last() == Event::Looked(true)
        &&& forall|i: int|
            0 <= i < journal.len() - 1 ==> #[trigger] journal[i] != Event::Looked(true)
        &&& forall|i: int|
            0 <= i < journal.len() && (#[trigger] journal[i]) is Published ==> i > 0 && journal[i
                - 1] is Heard && journal[i]->Published_0 == spec_from_be_bytes(
                journal[i - 1]->Heard_0,
            )
    }

    /// The datagram in the entry before the last of `journal`, if that
    /// entry is a datagram.
    pub open spec fn datagram_before_last(journal: Seq<Event>) -> Seq<u8> {
        match journal[journal.len() - 2] {
            Event::Heard(datagram) => datagram,
            _ => Seq::empty(),
        }
    }

    /// One round of sampling. A sampler that has stopped does nothing.
    /// Any other looks at the shutdown flag once. If it finds the flag
    /// raised it stops, without listening. If not, it listens once and,
    /// if a datagram of at least four bytes arrives, publishes the reading
    /// spelled by its first four bytes; if none does, it publishes nothing
    /// and is ready for the next round.
    pub fn sample_once(&mut self) -> (tick: Tick)
        ensures
            final(self).is_stopped() == (tick is Stopped),
            old(self).orderly() ==> final(self).orderly(),
            old(self).is_stopped() ==> tick is Stopped && final(self).journal() == old(
                self,
            ).journal(),
            !old(self).is_stopped() ==> match tick {
                Tick::Stopped => final(self).journal() == old(self).journal().push(
                    Event::Looked(true),
                ),
                Tick::Missed(_) => final(self).journal() == old(self).journal().push(
                    Event::Looked(false),
                ).push(Event::Missed),
                Tick::Short(received) => received < SAMPLE_LEN && final(self).journal() == old(
                    self,
                ).journal().push(Event::Looked(false)).push(Event::Short(received)),
                Tick::Published(bits) => {
                    let datagram = Sampler::<S>::datagram_before_last(final(self).journal());
                    &&& datagram.len() == SAMPLE_LEN
                    &&& bits == spec_from_be_bytes(datagram)
                    &&& final(self).journal() == old(self).journal().push(
                        Event::Looked(false),
                    ).push(Event::Heard(datagram)).push(Event::Published(bits))
                },
            },
    {
        if self.stopped {
            return Tick::Stopped;
        }
        if self.station.look() {
            self.stopped = true;
            return Tick::Stopped;
        }
        let (buf, outcome) = self.station.listen();
        match outcome {
            Ok(received) => match reading(received, &buf) {
                Some(bits) => {
                    self.station.publish(bits);
                    Tick::Published(bits)
                },
                None => Tick::Short(received),
            },
            Err(failure) => Tick::Missed(failure),
        }
    }
}

} // verus!
