use vstd::prelude::*;

verus! {

/// The two-operation bus capability the driver is built over. Implementors
/// supply the physical transactions; the driver only relies on what the
/// contracts below state.
///
/// The history of a transport is modelled by two ghost logs: the payloads
/// successfully written, and the write-then-read round trips issued. A
/// transport that can promise more than an arbitrary bus — that it never
/// fails, or that it answers every read with the same known bytes — says so
/// through `infallible` and `response_known`; the defaults, right for a real
/// bus, promise nothing.
pub trait Transport: Sized {
    /// The transport's own error type, surfaced unchanged by the driver.
    type Error;

    /// The payloads successfully written so far, each with its target
    /// address.
    open spec fn writes(&self) -> Seq<(u8, Seq<u8>)> {
        Seq::empty()
    }

    /// The write-then-read round trips issued so far: target address, bytes
    /// written, and the number of bytes asked for.
    open spec fn round_trips(&self) -> Seq<(u8, Seq<u8>, nat)> {
        Seq::empty()
    }

    /// Whether every operation on this transport is known to succeed.
    open spec fn infallible(&self) -> bool {
        false
    }

    /// Whether the bytes this transport answers reads with are known: the
    /// same ones on every read, position by position.
    open spec fn response_known(&self) -> bool {
        false
    }

    /// The byte with which position `i` of a read is answered, when the
    /// response is known.
    open spec fn response_at(&self, i: int) -> u8 {
        arbitrary()
    }

    /// Writes `data` to the device at `addr` in one transaction.
    fn write(&mut self, addr: u8, data: &[u8]) -> (r: Result<(), Self::Error>)
        ensures
            final(self).round_trips() == old(self).round_trips(),
            final(self).infallible() == old(self).infallible(),
            final(self).response_known() == old(self).response_known(),
            forall|i: int| final(self).response_at(i) == old(self).response_at(i),
            old(self).infallible() ==> r is Ok,
            r is Ok ==> final(self).writes() == old(self).writes().push((addr, data@)),
            r is Err ==> final(self).writes() == old(self).writes(),
    ;

    /// Writes `out` to the device at `addr`, then reads enough bytes to fill
    /// `buffer`, in one transaction.
    fn write_read(&mut self, addr: u8, out: &[u8], buffer: &mut Vec<u8>) -> (r: Result<
        (),
        Self::Error,
    >)
        ensures
            final(self).writes() == old(self).writes(),
            final(self).infallible() == old(self).infallible(),
            final(self).response_known() == old(self).response_known(),
            forall|i: int| final(self).response_at(i) == old(self).response_at(i),
            final(self).round_trips() == old(self).round_trips().push(
                (addr, out@, old(buffer)@.len()),
            ),
            old(self).infallible() ==> r is Ok,
            r is Ok ==> final(buffer)@.len() == old(buffer)@.len(),
            r is Ok && old(self).response_known() ==> forall|i: int|
                0 <= i < final(buffer)@.len() ==> final(buffer)@[i] == old(self).response_at(i),
    ;
}

/// The error type of a transport that cannot fail; no value of it is ever
/// made.
#[derive(Clone, Copy, Debug, PartialEq, Eq)]
pub struct NoError;

/// A transport that never fails and answers every position of every read
/// with one fixed byte, whatever the length asked for. Its ghost logs let
/// every claim the driver makes about bus traffic be checked against a known
/// history.
pub struct FixedTransport {
    /// The byte with which every read position is answered.
    pub byte: u8,
    /// History of successful writes.
    pub write_log: Ghost<Seq<(u8, Seq<u8>)>>,
    /// History of write-then-read round trips.
    pub trip_log: Ghost<Seq<(u8, Seq<u8>, nat)>>,
}

impl FixedTransport {
    /// A fresh transport with an empty history that answers every read with
    /// `byte`.
    pub fn new(byte: u8) -> (r: FixedTransport)
        ensures
            r.byte == byte,
            r.writes() == Seq::<(u8, Seq<u8>)>::empty(),
            r.round_trips() == Seq::<(u8, Seq<u8>, nat)>::empty(),
            r.infallible(),
            r.response_known(),
            forall|i: int| r.response_at(i) == byte,
    {
        FixedTransport { byte, write_log: Ghost(Seq::empty()), trip_log: Ghost(Seq::empty()) }
    }
}

impl Transport for FixedTransport {
    type Error = NoError;

    open spec fn writes(&self) -> Seq<(u8, Seq<u8>)> {
        self.write_log@
    }

    open spec fn round_trips(&self) -> Seq<(u8, Seq<u8>, nat)> {
        self.trip_log@
    }

    open spec fn infallible(&self) -> bool {
        true
    }

    open spec fn response_known(&self) -> bool {
        true
    }

    open spec fn response_at(&self, i: int) -> u8 {
        self.byte
    }

    fn write(&mut self, addr: u8, data: &[u8]) -> (r: Result<(), NoError>) {
        self.write_log = Ghost(self.write_log@.push((addr, data@)));
        Ok(())
    }

    fn write_read(&mut self, addr: u8, out: &[u8], buffer: &mut Vec<u8>) -> (r: Result<
        (),
        NoError,
    >) {
        self.trip_log = Ghost(self.trip_log@.push((addr, out@, buffer@.len())));
        let b: u8 = self.byte;
        let n: usize = buffer.len();
        let mut i: usize = 0;
        while i < n
            invariant
                i <= n,
                buffer@.len() == n,
                forall|j: int| 0 <= j < i ==> buffer@[j] == b,
            decreases n - i,
        {
            buffer.set(i, b);
            i = i + 1;
        }
        Ok(())
    }
}

/// A transport that never fails and answers every read with the same known
/// script of bytes: position `i` of every read gets the script's byte `i`,
/// or zero past the script's end.
pub struct ScriptedTransport {
    /// The bytes with which read positions are answered.
    pub bytes: Vec<u8>,
    /// History of successful writes.
    pub write_log: Ghost<Seq<(u8, Seq<u8>)>>,
    /// History of write-then-read round trips.
    pub trip_log: Ghost<Seq<(u8, Seq<u8>, nat)>>,
}

impl ScriptedTransport {
    /// A fresh transport with an empty history that answers every read from
    /// `bytes`.
    pub fn new(bytes: Vec<u8>) -> (r: ScriptedTransport)
        ensures
            r.bytes@ == bytes@,
            r.writes() == Seq::<(u8, Seq<u8>)>::empty(),
            r.round_trips() == Seq::<(u8, Seq<u8>, nat)>::empty(),
            r.infallible(),
            r.response_known(),
            forall|i: int|
                0 <= i < bytes@.len() ==> #[trigger] r.response_at(i) == bytes@[i],
    {
        ScriptedTransport { bytes, write_log: Ghost(Seq::empty()), trip_log: Ghost(Seq::empty()) }
    }
}

impl Transport for ScriptedTransport {
    type Error = NoError;

    open spec fn writes(&self) -> Seq<(u8, Seq<u8>)> {
        self.write_log@
    }

    open spec fn round_trips(&self) -> Seq<(u8, Seq<u8>, nat)> {
        self.trip_log@
    }

    open spec fn infallible(&self) -> bool {
        true
    }

    open spec fn response_known(&self) -> bool {
        true
    }

    open spec fn response_at(&self, i: int) -> u8 {
        if 0 <= i < self.bytes@.len() {
            self.bytes@[i]
        } else {
            0
        }
    }

    fn write(&mut self, addr: u8, data: &[u8]) -> (r: Result<(), NoError>) {
        self.write_log = Ghost(self.write_log@.push((addr, data@)));
        Ok(())
    }

    fn write_read(&mut self, addr: u8, out: &[u8], buffer: &mut Vec<u8>) -> (r: Result<
        (),
        NoError,
    >) {
        self.trip_log = Ghost(self.trip_log@.push((addr, out@, buffer@.len())));
        let n: usize = buffer.len();
        let mut i: usize = 0;
        let ghost script = self.bytes@;
        while i < n
            invariant
                i <= n,
                buffer@.len() == n,
                self.bytes@ == script,
                forall|j: int|
                    0 <= j < i ==> buffer@[j] == (if 0 <= j < script.len() {
                        script[j]
                    } else {
                        0u8
                    }),
            decreases n - i,
        {
            let v: u8 = if i < self.bytes.len() {
                self.bytes[i]
            } else {
                0
            };
            buffer.set(i, v);
            i = i + 1;
        }
        proof {
            assert forall|k: int| 0 <= k < buffer@.len() implies buffer@[k] == old(
                self,
            ).response_at(k) by {
                assert(buffer@[k] == (if 0 <= k < script.len() {
                    script[k]
                } else {
                    0u8
                }));
            }
        }
        Ok(())
    }
}

} // verus!
