//! The transport's state: the bytes of the line that has not ended yet,
//! and the bus on which every completed line and every heartbeat is
//! published. The stream itself belongs to the caller, who hands over
//! what was read and writes what `send_request` returns.

use crate::bus::{Bus, BusEntry, BusEntryView, BusView, Subscription};
use crate::signald::signaldrequest::SignaldRequest;
use vstd::prelude::*;

verus! {

/// The byte that ends a line.
pub const LINE_FEED: u8 = 10;

/// The bytes after the last line feed of `stream`: the line that has
/// begun and not ended.
pub open spec fn remainder(stream: Seq<u8>) -> Seq<u8>
    decreases stream.len(),
{
    if stream.len() == 0 {
        Seq::empty()
    } else if stream.last() == LINE_FEED {
        Seq::empty()
    } else {
        remainder(stream.drop_last()).push(stream.last())
    }
}

/// The lines of `stream` that have ended, in order, each without its
/// line feed.
pub open spec fn complete_lines(stream: Seq<u8>) -> Seq<Seq<u8>>
    decreases stream.len(),
{
    if stream.len() == 0 {
        Seq::empty()
    } else if stream.last() == LINE_FEED {
        complete_lines(stream.drop_last()).push(remainder(stream.drop_last()))
    } else {
        complete_lines(stream.drop_last())
    }
}

/// The lines, each followed by a line feed, one after the other.
pub open spec fn terminated(lines: Seq<Seq<u8>>) -> Seq<u8>
    decreases lines.len(),
{
    if lines.len() == 0 {
        Seq::empty()
    } else {
        terminated(lines.drop_last()) + lines.last().push(LINE_FEED)
    }
}

/// Whether `bytes` holds no line feed.
pub open spec fn unbroken(bytes: Seq<u8>) -> bool {
    forall|i: int| 0 <= i < bytes.len() ==> bytes[i] != LINE_FEED
}

/// The bus after `lines` were published on it, one after the other.
pub open spec fn publish_lines(bus: BusView, lines: Seq<Seq<u8>>) -> BusView
    decreases lines.len(),
{
    if lines.len() == 0 {
        bus
    } else {
        publish_lines(bus, lines.drop_last()).publish(BusEntryView::Line(lines.last()))
    }
}

/// Splitting loses nothing and invents nothing: the completed lines,
/// each with its line feed, followed by the unfinished line, are the
/// stream; and no line, finished or not, holds a line feed.
pub proof fn lemma_split_is_exact(stream: Seq<u8>)
    ensures
        terminated(complete_lines(stream)) + remainder(stream) == stream,
        unbroken(remainder(stream)),
        forall|i: int|
            0 <= i < complete_lines(stream).len() ==> unbroken(#[trigger] complete_lines(stream)[i]),
        complete_lines(stream).len() <= stream.len(),
    decreases stream.len(),
{
    if stream.len() > 0 {
        let front = stream.drop_last();
        lemma_split_is_exact(front);
        if stream.last() == LINE_FEED {
            let lines = complete_lines(stream);
            assert(lines.drop_last() =~= complete_lines(front));
            assert(lines.last() == remainder(front));
            assert(terminated(lines) == terminated(complete_lines(front)) + remainder(front).push(
                LINE_FEED,
            ));
            assert(terminated(complete_lines(front)) + remainder(front).push(LINE_FEED) =~= (
            terminated(complete_lines(front)) + remainder(front)).push(LINE_FEED));
            assert(front.push(LINE_FEED) =~= stream);
            assert(terminated(lines) + remainder(stream) =~= stream);
        } else {
            assert(terminated(complete_lines(stream)) + remainder(stream) =~= (terminated(
                complete_lines(front),
            ) + remainder(front)).push(stream.last()));
            assert(front.push(stream.last()) =~= stream);
        }
    } else {
        assert(terminated(complete_lines(stream)) + remainder(stream) =~= stream);
    }
}

/// How the stream is cut into reads does not matter: reading `first`
/// and then `second` completes the same lines, and leaves the same
/// unfinished line, as reading both at once.
pub proof fn lemma_reads_compose(first: Seq<u8>, second: Seq<u8>)
    ensures
        remainder(remainder(first) + second) == remainder(first + second),
        complete_lines(first) + complete_lines(remainder(first) + second) == complete_lines(
            first + second,
        ),
    decreases second.len(),
{
    if second.len() == 0 {
        assert(first + second =~= first);
        assert(remainder(first) + second =~= remainder(first));
        lemma_remainder_idempotent(first);
        assert(complete_lines(first) + complete_lines(remainder(first)) =~= complete_lines(first));
    } else {
        let front = second.drop_last();
        lemma_reads_compose(first, front);
        assert((first + second).drop_last() =~= first + front);
        assert((remainder(first) + second).drop_last() =~= remainder(first) + front);
        assert((first + second).last() == second.last());
        assert((remainder(first) + second).last() == second.last());
        if second.last() == LINE_FEED {
            assert(complete_lines(first) + complete_lines(remainder(first) + second)
                =~= complete_lines(first + second));
        }
    }
}

/// An unfinished line completes no line and is its own remainder.
pub proof fn lemma_remainder_idempotent(stream: Seq<u8>)
    ensures
        remainder(remainder(stream)) == remainder(stream),
        complete_lines(remainder(stream)) == Seq::<Seq<u8>>::empty(),
{
    lemma_split_is_exact(stream);
    lemma_unbroken_is_remainder(remainder(stream));
}

/// Bytes without a line feed complete no line and are all unfinished.
pub proof fn lemma_unbroken_is_remainder(bytes: Seq<u8>)
    requires
        unbroken(bytes),
    ensures
        remainder(bytes) == bytes,
        complete_lines(bytes) == Seq::<Seq<u8>>::empty(),
    decreases bytes.len(),
{
    if bytes.len() > 0 {
        lemma_unbroken_is_remainder(bytes.drop_last());
        assert(bytes.drop_last().push(bytes.last()) =~= bytes);
    } else {
        assert(remainder(bytes) =~= bytes);
    }
}

/// Publishing lines on a bus moves its end by the number of lines, and
/// keeps its capacity.
pub proof fn lemma_publish_lines_end(bus: BusView, lines: Seq<Seq<u8>>)
    ensures
        publish_lines(bus, lines).end() == bus.end() + lines.len(),
        publish_lines(bus, lines).capacity == bus.capacity,
    decreases lines.len(),
{
    if lines.len() > 0 {
        lemma_publish_lines_end(bus, lines.drop_last());
    }
}

/// The transport's state.
#[derive(Debug)]
pub struct SignaldSocket {
    socket_path: String,
    bus: Bus,
    partial: Vec<u8>,
}

/// The mathematical value of a `SignaldSocket`.
pub struct SocketView {
    pub socket_path: Seq<char>,
    pub bus: BusView,
    pub partial: Seq<u8>,
}

impl SocketView {
    /// The state after `bytes` were read: the lines that they complete
    /// are published, and what follows the last line feed is kept.
    pub open spec fn received(self, bytes: Seq<u8>) -> SocketView {
        SocketView {
            bus: publish_lines(self.bus, complete_lines(self.partial + bytes)),
            partial: remainder(self.partial + bytes),
            ..self
        }
    }
}

impl View for SignaldSocket {
    type V = SocketView;

    closed spec fn view(&self) -> SocketView {
        SocketView { socket_path: self.socket_path@, bus: self.bus@, partial: self.partial@ }
    }
}

impl SignaldSocket {
    /// The representation invariant: the bus is well formed and the
    /// unfinished line holds no line feed.
    pub closed spec fn wf(&self) -> bool {
        &&& self.bus.wf()
        &&& unbroken(self.partial@)
    }

    /// What the invariant means for the value.
    pub proof fn lemma_wf(&self)
        requires
            self.wf(),
        ensures
            unbroken(self@.partial),
    {
    }

    /// The bus never retains more than its capacity.
    pub proof fn lemma_bus_wf(&self)
        requires
            self.wf(),
        ensures
            self@.bus.entries.len() <= self@.bus.capacity,
    {
        self.bus.lemma_wf();
    }

    /// The state of a transport for the endpoint `socket_path`, with an
    /// empty bus that retains `bus_size` entries and no bytes read yet.
    pub fn connect(socket_path: String, bus_size: usize) -> (socket: SignaldSocket)
        ensures
            socket.wf(),
            socket@ == (SocketView {
                socket_path: socket_path@,
                bus: BusView { capacity: bus_size as nat, first: 0, entries: Seq::empty() },
                partial: Seq::empty(),
            }),
    {
        SignaldSocket { socket_path, bus: Bus::new(bus_size), partial: Vec::new() }
    }

    /// The endpoint.
    pub fn socket_path(&self) -> (path: &String)
        ensures
            path@ == self@.socket_path,
    {
        &self.socket_path
    }

    /// The bus.
    pub fn bus(&self) -> (bus: &Bus)
        requires
            self.wf(),
        ensures
            bus.wf(),
            bus@ == self@.bus,
    {
        &self.bus
    }

    /// The bytes to write for `request`: its wire form and a line feed.
    pub fn send_request(&self, request: &SignaldRequest) -> (bytes: String)
        ensures
            bytes@ == request.deep_view().line().push('\n'),
    {
        proof {
            reveal_strlit("\n");
        }
        let mut bytes = request.to_json_string();
        bytes.append("\n");
        assert(bytes@ =~= request.deep_view().line().push('\n'));
        bytes
    }

    /// Opens a subscription to everything published from now on.
    pub fn get_rx(&self) -> (rx: Subscription)
        requires
            self.wf(),
        ensures
            rx@ == self@.bus.end(),
    {
        self.bus.subscribe()
    }

    /// Takes in bytes read from the stream. Every line that these bytes
    /// complete is published, in order and without its line feed; what
    /// follows the last line feed is kept until its line ends.
    pub fn receive(&mut self, bytes: &[u8])
        requires
            old(self).wf(),
            old(self)@.bus.end() + bytes@.len() <= u64::MAX,
        ensures
            final(self).wf(),
            final(self)@ == old(self)@.received(bytes@),
    {
        let ghost start = self@.partial;
        let ghost bus = self@.bus;
        proof {
            lemma_unbroken_is_remainder(start);
            assert(start + bytes@.take(0) =~= start);
        }
        let mut i: usize = 0;
        while i < bytes.len()
            invariant
                i <= bytes@.len(),
                self.bus.wf(),
                bus.end() + bytes@.len() <= u64::MAX,
                self@.socket_path == old(self)@.socket_path,
                self@.partial == remainder(start + bytes@.take(i as int)),
                self@.bus == publish_lines(bus, complete_lines(start + bytes@.take(i as int))),
                complete_lines(start + bytes@.take(i as int)).len() <= i,
            decreases bytes.len() - i,
        {
            let byte = bytes[i];
            proof {
                let seen = start + bytes@.take(i as int);
                let next = start + bytes@.take(i as int + 1);
                assert(next.drop_last() =~= seen);
                assert(next.last() == byte);
                lemma_publish_lines_end(bus, complete_lines(seen));
                if byte == LINE_FEED {
                    assert(complete_lines(next).drop_last() =~= complete_lines(seen));
                }
            }
            if byte == LINE_FEED {
                let mut line: Vec<u8> = Vec::new();
                std::mem::swap(&mut line, &mut self.partial);
                self.bus.publish(BusEntry::Line(line));
            } else {
                self.partial.push(byte);
            }
            i += 1;
        }
        proof {
            assert(bytes@.take(i as int) =~= bytes@);
            lemma_split_is_exact(start + bytes@);
        }
    }

    /// Publishes the heartbeat.
    pub fn heartbeat(&mut self)
        requires
            old(self).wf(),
            old(self)@.bus.end() < u64::MAX,
        ensures
            final(self).wf(),
            final(self)@ == (SocketView {
                bus: old(self)@.bus.publish(BusEntryView::Heartbeat),
                ..old(self)@
            }),
    {
        self.bus.publish(BusEntry::Heartbeat);
    }
}

/// Publishing two runs of lines one after the other is publishing them
/// as one run.
pub proof fn lemma_publish_lines_concat(bus: BusView, first: Seq<Seq<u8>>, second: Seq<Seq<u8>>)
    ensures
        publish_lines(bus, first + second) == publish_lines(publish_lines(bus, first), second),
    decreases second.len(),
{
    if second.len() == 0 {
        assert(first + second =~= first);
    } else {
        lemma_publish_lines_concat(bus, first, second.drop_last());
        assert((first + second).drop_last() =~= first + second.drop_last());
        assert((first + second).last() == second.last());
    }
}

/// Partial reads are buffered, not delivered early, and nothing depends
/// on where the reads fall: taking in `first` and then `second` leaves
/// the transport as taking in both at once does.
pub proof fn lemma_chunks_do_not_matter(socket: SocketView, first: Seq<u8>, second: Seq<u8>)
    ensures
        socket.received(first).received(second) == socket.received(first + second),
{
    let stream = socket.partial + first;
    lemma_reads_compose(stream, second);
    assert(stream + second =~= socket.partial + (first + second));
    lemma_publish_lines_concat(
        socket.bus,
        complete_lines(stream),
        complete_lines(remainder(stream) + second),
    );
}

} // verus!
