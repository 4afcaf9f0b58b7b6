//! The wire codec: encoding and decoding of the fixed packet vocabulary
//! (`FreshIPRequest`, `Ok`, `Error`, `Event`, `SetRenewingAvailable`) and its
//! embedded value types (`RenewAvailability`, `Event`) to and from byte
//! sequences, using one leading tag byte per structure and network-byte-order
//! length-prefixed strings.

use vstd::prelude::*;
use vstd::slice::*;
use vstd::string::*;
use vstd::utf8::*;

verus! {

/// A notification event, encoded on the wire as a single code byte.
#[derive(Copy, Clone, Debug, PartialEq, Eq, Structural)]
pub enum Event {
    IPRenewed,
}

impl Event {
    /// The wire code of this event. Codes are hand-assigned and never reused.
    pub fn code(&self) -> (c: u8)
        ensures
            c == spec_event_code(*self),
    {
        match *self {
            Event::IPRenewed => 0,
        }
    }

    /// A human-readable description of this event.
    pub fn extended_descr(&self) -> (d: &'static str)
        ensures
            d@ == spec_event_extended_descr(*self),
    {
        match *self {
            Event::IPRenewed => "An IP renewal has been requested",
        }
    }
}

/// The wire code of an event.
pub open spec fn spec_event_code(e: Event) -> u8 {
    match e {
        Event::IPRenewed => 0,
    }
}

/// The description returned by [`Event::extended_descr`].
pub open spec fn spec_event_extended_descr(e: Event) -> Seq<char> {
    match e {
        Event::IPRenewed => "An IP renewal has been requested"@,
    }
}

/// Whether the renewal action is currently honored by the server.
///
/// `Unavailable` must carry a non-empty reason: on the wire an empty reason is
/// indistinguishable from an absent string and is rejected at decode time.
#[derive(Debug, Clone, PartialEq, Eq)]
pub enum RenewAvailability {
    Available,
    Unavailable(String),
}

/// Mathematical model of a [`RenewAvailability`] value.
pub enum AvailabilityView {
    Available,
    Unavailable(Seq<char>),
}

impl View for RenewAvailability {
    type V = AvailabilityView;

    open spec fn view(&self) -> AvailabilityView {
        match self {
            RenewAvailability::Available => AvailabilityView::Available,
            RenewAvailability::Unavailable(reason) => AvailabilityView::Unavailable(reason@),
        }
    }
}

/// One framed unit of the wire protocol, tag-prefixed.
#[derive(Debug, Clone, PartialEq, Eq)]
pub enum Packet {
    /// Client asks the server to renew its IP address (tag 0, no payload).
    FreshIPRequest,
    /// Client updates the server's availability gate (tag 4).
    SetRenewingAvailable(RenewAvailability),
    /// Server reports success (tag 1, no payload).
    Okay,
    /// Server reports failure with a reason (tag 2).
    Error(String),
    /// Notification broadcast to listeners (tag 3).
    Event(Event),
}

/// Mathematical model of a [`Packet`] value.
pub enum PacketView {
    FreshIPRequest,
    SetRenewingAvailable(AvailabilityView),
    Okay,
    Error(Seq<char>),
    Event(Event),
}

impl View for Packet {
    type V = PacketView;

    open spec fn view(&self) -> PacketView {
        match self {
            Packet::FreshIPRequest => PacketView::FreshIPRequest,
            Packet::SetRenewingAvailable(a) => PacketView::SetRenewingAvailable(a@),
            Packet::Okay => PacketView::Okay,
            Packet::Error(msg) => PacketView::Error(msg@),
            Packet::Event(e) => PacketView::Event(*e),
        }
    }
}

/// A failure while turning an in-memory value into bytes.
#[derive(Debug, Clone, Copy, PartialEq, Eq, Structural)]
pub enum EncodeError {
    /// A string payload exceeds the 65535 bytes representable by the
    /// two-byte length prefix.
    PayloadTooLarge,
}

/// A failure while turning bytes back into an in-memory value.
#[derive(Debug, Clone, PartialEq, Eq)]
pub enum DecodeError {
    /// A tag or code byte that no variant uses.
    UnknownVariant(u8),
    /// The stream ended before the advertised number of bytes arrived.
    TruncatedStream,
    /// A string field holds bytes that are not valid UTF-8.
    InvalidUtf8,
    /// A mandatory sub-field decoded as absent; the name of the field.
    MissingField(&'static str),
}

/// Mathematical model of a [`DecodeError`] value.
pub enum DecodeErrorView {
    UnknownVariant(u8),
    TruncatedStream,
    InvalidUtf8,
    MissingField(Seq<char>),
}

impl View for DecodeError {
    type V = DecodeErrorView;

    open spec fn view(&self) -> DecodeErrorView {
        match self {
            DecodeError::UnknownVariant(tag) => DecodeErrorView::UnknownVariant(*tag),
            DecodeError::TruncatedStream => DecodeErrorView::TruncatedStream,
            DecodeError::InvalidUtf8 => DecodeErrorView::InvalidUtf8,
            DecodeError::MissingField(name) => DecodeErrorView::MissingField(name@),
        }
    }
}

// ---------------------------------------------------------------------------
// The wire format, as spec functions on byte sequences.
// ---------------------------------------------------------------------------

/// The two bytes of `n` in network (big-endian) order.
pub open spec fn spec_u16_be(n: u16) -> Seq<u8> {
    seq![(n / 256) as u8, (n % 256) as u8]
}

/// Whether a string's UTF-8 encoding fits behind a two-byte length prefix.
pub open spec fn string_encodable(s: Seq<char>) -> bool {
    encode_utf8(s).len() <= 0xffff
}

/// The length-prefixed encoding of a byte payload.
pub open spec fn spec_length_prefixed(b: Seq<u8>) -> Seq<u8>
    recommends
        b.len() <= 0xffff,
{
    spec_u16_be(b.len() as u16) + b
}

/// The wire bytes of an optional string: a two-byte big-endian length followed
/// by the string's UTF-8 bytes, or a zero length with no bytes when absent.
pub open spec fn spec_string_bytes(s: Option<Seq<char>>) -> Seq<u8> {
    match s {
        None => spec_length_prefixed(Seq::<u8>::empty()),
        Some(cs) => spec_length_prefixed(encode_utf8(cs)),
    }
}

/// The wire bytes of a [`RenewAvailability`] value.
pub open spec fn spec_availability_bytes(a: AvailabilityView) -> Seq<u8> {
    match a {
        AvailabilityView::Available => seq![0u8],
        AvailabilityView::Unavailable(reason) => seq![1u8] + spec_string_bytes(Some(reason)),
    }
}

/// The wire bytes of a [`Packet`].
pub open spec fn spec_packet_bytes(p: PacketView) -> Seq<u8> {
    match p {
        PacketView::FreshIPRequest => seq![0u8],
        PacketView::Okay => seq![1u8],
        PacketView::Error(msg) => seq![2u8] + spec_string_bytes(Some(msg)),
        PacketView::Event(e) => seq![3u8, spec_event_code(e)],
        PacketView::SetRenewingAvailable(a) => seq![4u8] + spec_availability_bytes(a),
    }
}

/// Whether every string payload of `a` fits its length prefix, so that
/// encoding succeeds.
pub open spec fn spec_availability_encodable(a: AvailabilityView) -> bool {
    a matches AvailabilityView::Unavailable(reason) ==> string_encodable(reason)
}

/// Whether every string payload of `p` fits its length prefix, so that
/// encoding succeeds.
pub open spec fn spec_packet_encodable(p: PacketView) -> bool {
    match p {
        PacketView::Error(msg) => string_encodable(msg),
        PacketView::SetRenewingAvailable(a) => spec_availability_encodable(a),
        _ => true,
    }
}

/// A well-formed availability value: an unavailability reason is non-empty
/// and fits the wire format. Decoding only ever produces such values.
pub open spec fn spec_availability_valid(a: AvailabilityView) -> bool {
    a matches AvailabilityView::Unavailable(reason) ==> reason.len() > 0 && string_encodable(
        reason,
    )
}

/// A well-formed packet: every embedded string is non-empty and fits the wire
/// format. These are exactly the packets whose encoding decodes back to the
/// same value: an empty `Error` message is encoded as an absent string, which
/// decodes to the fixed fallback message instead.
pub open spec fn spec_packet_valid(p: PacketView) -> bool {
    match p {
        PacketView::Error(msg) => msg.len() > 0 && string_encodable(msg),
        PacketView::SetRenewingAvailable(a) => spec_availability_valid(a),
        _ => true,
    }
}

// ---------------------------------------------------------------------------
// The decoder, as spec functions on byte sequences. Each returns the decoded
// value and the number of bytes consumed, or the error the wire data forces.
// ---------------------------------------------------------------------------

/// Reads a two-byte big-endian length from the front of `b`.
pub open spec fn spec_read_u16(b: Seq<u8>) -> Result<(u16, int), DecodeErrorView> {
    if b.len() < 2 {
        Err(DecodeErrorView::TruncatedStream)
    } else {
        Ok((((b[0] as int) * 256 + (b[1] as int)) as u16, 2))
    }
}

/// Reads a length-prefixed optional string from the front of `b`: a zero
/// length decodes as absent, fewer content bytes than advertised is a
/// truncation, and content that is not UTF-8 is rejected.
pub open spec fn spec_read_string(b: Seq<u8>) -> Result<(Option<Seq<char>>, int), DecodeErrorView> {
    match spec_read_u16(b) {
        Err(e) => Err(e),
        Ok((len, _)) => {
            let n = len as int;
            if b.len() < 2 + n {
                Err(DecodeErrorView::TruncatedStream)
            } else if n == 0 {
                Ok((None, 2))
            } else {
                let content = b.subrange(2, 2 + n);
                if valid_utf8(content) {
                    Ok((Some(decode_utf8(content)), 2 + n))
                } else {
                    Err(DecodeErrorView::InvalidUtf8)
                }
            }
        },
    }
}

/// Reads a [`RenewAvailability`] from the front of `b`. An absent reason
/// string after the `Unavailable` tag is a missing mandatory field.
pub open spec fn spec_read_availability(b: Seq<u8>) -> Result<
    (AvailabilityView, int),
    DecodeErrorView,
> {
    if b.len() < 1 {
        Err(DecodeErrorView::TruncatedStream)
    } else if b[0] == 0 {
        Ok((AvailabilityView::Available, 1))
    } else if b[0] == 1 {
        match spec_read_string(b.skip(1)) {
            Err(e) => Err(e),
            Ok((None, _)) => Err(DecodeErrorView::MissingField("reason"@)),
            Ok((Some(reason), n)) => Ok((AvailabilityView::Unavailable(reason), 1 + n)),
        }
    } else {
        Err(DecodeErrorView::UnknownVariant(b[0]))
    }
}

/// Reads a [`Packet`] from the front of `b`. For an `Error` packet an absent
/// message decodes to the fixed fallback message: this is the one place
/// absence is valid input, to tolerate terse error reports from peers.
pub open spec fn spec_read_packet(b: Seq<u8>) -> Result<(PacketView, int), DecodeErrorView> {
    if b.len() < 1 {
        Err(DecodeErrorView::TruncatedStream)
    } else {
        let tag = b[0];
        let rest = b.skip(1);
        if tag == 0 {
            Ok((PacketView::FreshIPRequest, 1))
        } else if tag == 1 {
            Ok((PacketView::Okay, 1))
        } else if tag == 2 {
            match spec_read_string(rest) {
                Err(e) => Err(e),
                Ok((None, n)) => Ok((PacketView::Error("Unknown error"@), 1 + n)),
                Ok((Some(msg), n)) => Ok((PacketView::Error(msg), 1 + n)),
            }
        } else if tag == 3 {
            if rest.len() < 1 {
                Err(DecodeErrorView::TruncatedStream)
            } else if rest[0] == 0 {
                Ok((PacketView::Event(Event::IPRenewed), 2))
            } else {
                Err(DecodeErrorView::UnknownVariant(rest[0]))
            }
        } else if tag == 4 {
            match spec_read_availability(rest) {
                Err(e) => Err(e),
                Ok((a, n)) => Ok((PacketView::SetRenewingAvailable(a), 1 + n)),
            }
        } else {
            Err(DecodeErrorView::UnknownVariant(tag))
        }
    }
}

// ---------------------------------------------------------------------------
// Reading primitives over a byte buffer.
// ---------------------------------------------------------------------------

/// The model of an `Option<&str>` argument.
pub open spec fn spec_opt_str(s: Option<&str>) -> Option<Seq<char>> {
    match s {
        Option::None => None,
        Option::Some(t) => Some(t@),
    }
}

/// The model of an `Option<String>` result.
pub open spec fn spec_opt_string(s: &Option<String>) -> Option<Seq<char>> {
    match s {
        Option::None => None,
        Option::Some(t) => Some(t@),
    }
}

/// An ordered byte stream backed by a buffer, consumed from the front.
///
/// This is the abstract read side of the codec: the transport layer hands it
/// the bytes it received, and the decoders below consume them. A read past the
/// end of the buffer is the stream's truncation condition.
pub struct ByteReader<'a> {
    data: &'a [u8],
    pos: usize,
}

impl<'a> ByteReader<'a> {
    /// The whole underlying buffer.
    pub closed spec fn spec_data(&self) -> Seq<u8> {
        self.data@
    }

    /// How many bytes have been consumed so far.
    pub closed spec fn spec_pos(&self) -> int {
        self.pos as int
    }

    /// The reader's position never passes the end of its buffer.
    pub open spec fn wf(&self) -> bool {
        0 <= self.spec_pos() <= self.spec_data().len()
    }

    /// The bytes not yet consumed.
    pub open spec fn remaining(&self) -> Seq<u8>
        recommends
            self.wf(),
    {
        self.spec_data().skip(self.spec_pos())
    }

    /// A reader over the whole of `data`.
    pub fn new(data: &'a [u8]) -> (r: Self)
        ensures
            r.wf(),
            r.spec_data() == data@,
            r.spec_pos() == 0,
            r.remaining() == data@,
    {
        proof {
            assert(data@.skip(0) =~= data@);
        }
        ByteReader { data, pos: 0 }
    }

    /// How many bytes are left to read.
    pub fn remaining_len(&self) -> (n: usize)
        requires
            self.wf(),
        ensures
            n == self.remaining().len(),
    {
        self.data.len() - self.pos
    }

    /// Reads the next byte; the stream is truncated when none is left.
    pub fn read_u8(&mut self) -> (r: Result<u8, DecodeError>)
        requires
            old(self).wf(),
        ensures
            final(self).wf(),
            final(self).spec_data() == old(self).spec_data(),
            old(self).remaining().len() >= 1 ==> r == Ok::<u8, DecodeError>(
                old(self).remaining()[0],
            ) && final(self).spec_pos() == old(self).spec_pos() + 1,
            old(self).remaining().len() == 0 ==> r == Err::<u8, DecodeError>(
                DecodeError::TruncatedStream,
            ) && final(self).spec_pos() == old(self).spec_pos(),
    {
        if self.pos < self.data.len() {
            let b = *slice_index_get(self.data, self.pos);
            self.pos = self.pos + 1;
            Ok(b)
        } else {
            Err(DecodeError::TruncatedStream)
        }
    }

    /// Reads exactly `n` bytes; fewer than `n` left is a truncation, and then
    /// nothing is consumed.
    pub fn read_bytes(&mut self, n: usize) -> (r: Result<Vec<u8>, DecodeError>)
        requires
            old(self).wf(),
        ensures
            final(self).wf(),
            final(self).spec_data() == old(self).spec_data(),
            old(self).remaining().len() >= n ==> ({
                &&& r matches Ok(v) && v@ == old(self).remaining().take(n as int)
                &&& final(self).spec_pos() == old(self).spec_pos() + n
            }),
            old(self).remaining().len() < n ==> r == Err::<Vec<u8>, DecodeError>(
                DecodeError::TruncatedStream,
            ) && final(self).spec_pos() == old(self).spec_pos(),
    {
        if n <= self.data.len() - self.pos {
            let out = slice_to_vec(slice_subrange(self.data, self.pos, self.pos + n));
            proof {
                assert(self.spec_data().subrange(
                    self.spec_pos(),
                    self.spec_pos() + n,
                ) =~= self.remaining().take(n as int));
            }
            self.pos = self.pos + n;
            Ok(out)
        } else {
            Err(DecodeError::TruncatedStream)
        }
    }

    /// Reads a two-byte big-endian integer; fewer than two bytes left is a
    /// truncation, and then nothing is consumed.
    pub fn read_u16_be(&mut self) -> (r: Result<u16, DecodeError>)
        requires
            old(self).wf(),
        ensures
            final(self).wf(),
            final(self).spec_data() == old(self).spec_data(),
            match r {
                Ok(v) => spec_read_u16(old(self).remaining()) == Ok::<(u16, int), DecodeErrorView>(
                    (v, 2),
                ) && final(self).spec_pos() == old(self).spec_pos() + 2,
                Err(e) => spec_read_u16(old(self).remaining()) == Err::<(u16, int), DecodeErrorView>(
                    e@,
                ) && final(self).spec_pos() == old(self).spec_pos(),
            },
    {
        if self.remaining_len() < 2 {
            return Err(DecodeError::TruncatedStream);
        }
        let ghost rem = self.remaining();
        let hi = match self.read_u8() {
            Ok(b) => b,
            Err(e) => return Err(e),
        };
        let lo = match self.read_u8() {
            Ok(b) => b,
            Err(e) => return Err(e),
        };
        proof {
            assert(rem.skip(1)[0] == rem[1]);
        }
        Ok((hi as u16) * 256 + (lo as u16))
    }
}

// ---------------------------------------------------------------------------
// The string codec shared by all packet payloads.
// ---------------------------------------------------------------------------

/// Relies on `String::from_utf8`: it returns the decoded string exactly when
/// the bytes are valid UTF-8, as vstd's UTF-8 specification defines it, and
/// rejects them otherwise.
#[verifier::external_body]
fn bytes_to_string(bytes: Vec<u8>) -> (r: Option<String>)
    ensures
        r is Some <==> valid_utf8(bytes@),
        r matches Some(s) ==> s@ == decode_utf8(bytes@),
{
    match String::from_utf8(bytes) {
        Ok(s) => Some(s),
        Err(_) => None,
    }
}

/// Writes the length-prefixed encoding of an optional string: a two-byte
/// big-endian byte length followed by the UTF-8 bytes, or a zero length with
/// no bytes when the string is absent.
///
/// Fails, and then appends nothing at all, exactly when the string's UTF-8
/// byte length exceeds 65535.
pub fn encode_string(out: &mut Vec<u8>, s: Option<&str>) -> (r: Result<(), EncodeError>)
    ensures
        match r {
            Ok(_) => ({
                &&& (s matches Some(t) ==> string_encodable(t@))
                &&& final(out)@ == old(out)@ + spec_string_bytes(spec_opt_str(s))
            }),
            Err(e) => ({
                &&& e == EncodeError::PayloadTooLarge
                &&& (s matches Some(t) && !string_encodable(t@))
                &&& final(out)@ == old(out)@
            }),
        },
{
    match s {
        None => {
            out.push(0);
            out.push(0);
            proof {
                assert(final(out)@ =~= old(out)@ + spec_string_bytes(None));
            }
            Ok(())
        },
        Some(t) => {
            let mut bytes = t.as_bytes_vec();
            if bytes.len() > 65535 {
                return Err(EncodeError::PayloadTooLarge);
            }
            let len = bytes.len() as u16;
            out.push((len / 256) as u8);
            out.push((len % 256) as u8);
            out.append(&mut bytes);
            proof {
                assert(final(out)@ =~= old(out)@ + spec_string_bytes(Some(t@)));
            }
            Ok(())
        },
    }
}

/// Reads a length-prefixed optional string: a zero length decodes as absent,
/// fewer content bytes than advertised is a truncation, and content that is
/// not valid UTF-8 is rejected.
pub fn decode_string(reader: &mut ByteReader) -> (r: Result<Option<String>, DecodeError>)
    requires
        old(reader).wf(),
    ensures
        final(reader).wf(),
        final(reader).spec_data() == old(reader).spec_data(),
        old(reader).spec_pos() <= final(reader).spec_pos(),
        match r {
            Ok(s) => ({
                &&& spec_read_string(old(reader).remaining()) matches Ok(pair)
                &&& spec_opt_string(&s) == pair.0
                &&& final(reader).spec_pos() == old(reader).spec_pos() + pair.1
            }),
            Err(e) => ({
                &&& spec_read_string(old(reader).remaining()) matches Err(ev)
                &&& e@ == ev
            }),
        },
{
    let ghost rem = reader.remaining();
    let len = match reader.read_u16_be() {
        Ok(v) => v,
        Err(e) => return Err(e),
    };
    let content = match reader.read_bytes(len as usize) {
        Ok(v) => v,
        Err(e) => return Err(e),
    };
    proof {
        assert(content@ =~= rem.subrange(2, 2 + len as int));
    }
    if len == 0 {
        Ok(None)
    } else {
        match bytes_to_string(content) {
            Some(s) => Ok(Some(s)),
            None => Err(DecodeError::InvalidUtf8),
        }
    }
}

// ---------------------------------------------------------------------------
// The value codecs.
// ---------------------------------------------------------------------------

/// The tag byte of an availability variant.
pub open spec fn spec_availability_tag(a: AvailabilityView) -> u8 {
    match a {
        AvailabilityView::Available => 0,
        AvailabilityView::Unavailable(_) => 1,
    }
}

impl RenewAvailability {
    /// The tag byte that starts this variant's encoding.
    pub fn repr(&self) -> (t: u8)
        ensures
            t == spec_availability_tag(self@),
    {
        match *self {
            RenewAvailability::Available => 0,
            RenewAvailability::Unavailable(_) => 1,
        }
    }

    /// A human-readable description of this availability state.
    pub fn describe(&self) -> (d: String)
        ensures
            self@ is Available ==> d@ == "available"@,
            self@ matches AvailabilityView::Unavailable(reason) ==> d@ == "unavailable due to \""@
                + reason + "\""@,
    {
        match self {
            RenewAvailability::Available => "available".to_owned(),
            RenewAvailability::Unavailable(reason) => {
                let mut d = "unavailable due to \"".to_owned();
                d.append(reason.as_str());
                d.append("\"");
                d
            },
        }
    }

    /// Decodes an availability value: tag byte, then for `Unavailable` the
    /// mandatory reason string, whose absence is a missing-field error.
    pub fn read(reader: &mut ByteReader) -> (r: Result<RenewAvailability, DecodeError>)
        requires
            old(reader).wf(),
        ensures
            final(reader).wf(),
            final(reader).spec_data() == old(reader).spec_data(),
            old(reader).spec_pos() <= final(reader).spec_pos(),
            match r {
                Ok(a) => ({
                    &&& spec_read_availability(old(reader).remaining()) matches Ok(pair)
                    &&& a@ == pair.0
                    &&& spec_availability_valid(a@)
                    &&& final(reader).spec_pos() == old(reader).spec_pos() + pair.1
                }),
                Err(e) => ({
                    &&& spec_read_availability(old(reader).remaining()) matches Err(ev)
                    &&& e@ == ev
                }),
            },
    {
        let ghost rem = reader.remaining();
        let tag = match reader.read_u8() {
            Ok(b) => b,
            Err(e) => return Err(e),
        };
        proof {
            assert(reader.remaining() =~= rem.skip(1));
        }
        if tag == 0 {
            Ok(RenewAvailability::Available)
        } else if tag == 1 {
            match decode_string(reader) {
                Err(e) => Err(e),
                Ok(None) => Err(DecodeError::MissingField("reason")),
                Ok(Some(reason)) => {
                    proof {
                        lemma_decoded_string_encodable(rem.skip(1));
                    }
                    Ok(RenewAvailability::Unavailable(reason))
                },
            }
        } else {
            Err(DecodeError::UnknownVariant(tag))
        }
    }

    /// Encodes this value: its tag byte, then for `Unavailable` the reason as
    /// a length-prefixed string. Fails, and then appends nothing at all,
    /// exactly when the reason's UTF-8 byte length exceeds 65535.
    pub fn write(&self, out: &mut Vec<u8>) -> (r: Result<(), EncodeError>)
        ensures
            match r {
                Ok(_) => ({
                    &&& spec_availability_encodable(self@)
                    &&& final(out)@ == old(out)@ + spec_availability_bytes(self@)
                }),
                Err(e) => ({
                    &&& e == EncodeError::PayloadTooLarge
                    &&& !spec_availability_encodable(self@)
                    &&& final(out)@ == old(out)@
                }),
            },
    {
        match self {
            RenewAvailability::Available => {
                out.push(0);
                proof {
                    assert(final(out)@ =~= old(out)@ + spec_availability_bytes(self@));
                }
                Ok(())
            },
            RenewAvailability::Unavailable(reason) => {
                let mut payload: Vec<u8> = Vec::new();
                match encode_string(&mut payload, Some(reason.as_str())) {
                    Err(e) => Err(e),
                    Ok(_) => {
                        out.push(1);
                        out.append(&mut payload);
                        proof {
                            assert(final(out)@ =~= old(out)@ + spec_availability_bytes(self@));
                        }
                        Ok(())
                    },
                }
            },
        }
    }
}

/// A string produced by the string decoder always fits the wire format again:
/// its UTF-8 encoding is the content that was read, at most 65535 bytes.
proof fn lemma_decoded_string_encodable(b: Seq<u8>)
    requires
        spec_read_string(b) matches Ok((Some(s), _)),
    ensures
        spec_read_string(b) matches Ok((Some(s), _)) ==> string_encodable(s) && s.len() > 0,
{
    let (opt, n) = spec_read_string(b)->Ok_0;
    let len = spec_read_u16(b)->Ok_0.0 as int;
    let content = b.subrange(2, 2 + len);
    broadcast use decode_utf8_encode_utf8;

    assert(encode_utf8(opt->0) == content);
}

/// The tag byte of a packet variant.
pub open spec fn spec_packet_tag(p: PacketView) -> u8 {
    match p {
        PacketView::FreshIPRequest => 0,
        PacketView::Okay => 1,
        PacketView::Error(_) => 2,
        PacketView::Event(_) => 3,
        PacketView::SetRenewingAvailable(_) => 4,
    }
}

impl Packet {
    /// The tag byte that starts this packet's encoding.
    pub fn packet_no(&self) -> (t: u8)
        ensures
            t == spec_packet_tag(self@),
    {
        match *self {
            Packet::FreshIPRequest => 0,
            Packet::Okay => 1,
            Packet::Error(_) => 2,
            Packet::Event(_) => 3,
            Packet::SetRenewingAvailable(_) => 4,
        }
    }

    /// Decodes one packet from the front of the stream: the tag byte, then
    /// the payload the tag calls for. An unknown tag is a decode error, never
    /// a default variant; an absent `Error` message decodes to the fixed
    /// fallback message.
    pub fn read(reader: &mut ByteReader) -> (r: Result<Packet, DecodeError>)
        requires
            old(reader).wf(),
        ensures
            final(reader).wf(),
            final(reader).spec_data() == old(reader).spec_data(),
            old(reader).spec_pos() <= final(reader).spec_pos(),
            match r {
                Ok(p) => ({
                    &&& spec_read_packet(old(reader).remaining()) matches Ok(pair)
                    &&& p@ == pair.0
                    &&& spec_packet_valid(p@)
                    &&& final(reader).spec_pos() == old(reader).spec_pos() + pair.1
                }),
                Err(e) => ({
                    &&& spec_read_packet(old(reader).remaining()) matches Err(ev)
                    &&& e@ == ev
                }),
            },
    {
        let ghost rem = reader.remaining();
        let tag = match reader.read_u8() {
            Ok(b) => b,
            Err(e) => return Err(e),
        };
        proof {
            assert(reader.remaining() =~= rem.skip(1));
        }
        if tag == 0 {
            Ok(Packet::FreshIPRequest)
        } else if tag == 1 {
            Ok(Packet::Okay)
        } else if tag == 2 {
            match decode_string(reader) {
                Err(e) => Err(e),
                Ok(None) => {
                    proof {
                        lemma_fallback_message_wf();
                    }
                    Ok(Packet::Error("Unknown error".to_owned()))
                },
                Ok(Some(msg)) => {
                    proof {
                        lemma_decoded_string_encodable(rem.skip(1));
                    }
                    Ok(Packet::Error(msg))
                },
            }
        } else if tag == 3 {
            let code = match reader.read_u8() {
                Ok(b) => b,
                Err(e) => return Err(e),
            };
            proof {
                assert(rem.skip(1)[0] == rem[1]);
            }
            if code == 0 {
                Ok(Packet::Event(Event::IPRenewed))
            } else {
                Err(DecodeError::UnknownVariant(code))
            }
        } else if tag == 4 {
            match RenewAvailability::read(reader) {
                Err(e) => Err(e),
                Ok(a) => Ok(Packet::SetRenewingAvailable(a)),
            }
        } else {
            Err(DecodeError::UnknownVariant(tag))
        }
    }

    /// Encodes this packet: its tag byte, then the payload per the wire
    /// format. Fails, and then appends nothing at all, exactly when a string
    /// payload's UTF-8 byte length exceeds 65535.
    pub fn write(&self, out: &mut Vec<u8>) -> (r: Result<(), EncodeError>)
        ensures
            match r {
                Ok(_) => ({
                    &&& spec_packet_encodable(self@)
                    &&& final(out)@ == old(out)@ + spec_packet_bytes(self@)
                }),
                Err(e) => ({
                    &&& e == EncodeError::PayloadTooLarge
                    &&& !spec_packet_encodable(self@)
                    &&& final(out)@ == old(out)@
                }),
            },
    {
        match self {
            Packet::FreshIPRequest => {
                out.push(0);
                proof {
                    assert(final(out)@ =~= old(out)@ + spec_packet_bytes(self@));
                }
                Ok(())
            },
            Packet::Okay => {
                out.push(1);
                proof {
                    assert(final(out)@ =~= old(out)@ + spec_packet_bytes(self@));
                }
                Ok(())
            },
            Packet::Error(msg) => {
                let mut payload: Vec<u8> = Vec::new();
                match encode_string(&mut payload, Some(msg.as_str())) {
                    Err(e) => Err(e),
                    Ok(_) => {
                        out.push(2);
                        out.append(&mut payload);
                        proof {
                            assert(final(out)@ =~= old(out)@ + spec_packet_bytes(self@));
                        }
                        Ok(())
                    },
                }
            },
            Packet::Event(e) => {
                out.push(3);
                out.push(e.code());
                proof {
                    assert(final(out)@ =~= old(out)@ + spec_packet_bytes(self@));
                }
                Ok(())
            },
            Packet::SetRenewingAvailable(a) => {
                let mut payload: Vec<u8> = Vec::new();
                match a.write(&mut payload) {
                    Err(e) => Err(e),
                    Ok(_) => {
                        out.push(4);
                        out.append(&mut payload);
                        proof {
                            assert(final(out)@ =~= old(out)@ + spec_packet_bytes(self@));
                        }
                        Ok(())
                    },
                }
            },
        }
    }
}

/// The fixed fallback message substituted for an absent `Error` payload is
/// itself a well-formed payload: non-empty and within the wire length limit.
proof fn lemma_fallback_message_wf()
    ensures
        spec_packet_valid(PacketView::Error("Unknown error"@)),
{
    reveal_strlit("Unknown error");
    assert(is_ascii_chars("Unknown error"@));
    is_ascii_chars_encode_utf8("Unknown error"@);
}

// ---------------------------------------------------------------------------
// Laws of the codec.
// ---------------------------------------------------------------------------

/// Reading a big-endian length finds the value the encoder wrote, whatever
/// follows it on the stream.
proof fn lemma_u16_round_trip(n: u16, rest: Seq<u8>)
    ensures
        spec_read_u16(spec_u16_be(n) + rest) == Ok::<(u16, int), DecodeErrorView>((n, 2)),
{
    let b = spec_u16_be(n) + rest;
    assert(b[0] == n / 256 && b[1] == n % 256);
    assert((n / 256) * 256 + (n % 256) == n) by (nonlinear_arith);
}

/// A non-empty character sequence has a non-empty UTF-8 encoding.
proof fn lemma_encode_utf8_nonempty(cs: Seq<char>)
    requires
        cs.len() > 0,
    ensures
        encode_utf8(cs).len() > 0,
{
    assert(encode_scalar(cs[0] as u32).len() >= 1);
}

/// Decoding a string immediately after encoding it finds the same string,
/// whatever follows it on the stream, for every non-empty string that fits
/// the wire format. (An empty string is encoded as a zero length, which
/// decodes as an absent string.)
pub proof fn lemma_string_round_trip(cs: Seq<char>, rest: Seq<u8>)
    requires
        cs.len() > 0,
        string_encodable(cs),
    ensures
        spec_read_string(spec_string_bytes(Some(cs)) + rest) == Ok::<
            (Option<Seq<char>>, int),
            DecodeErrorView,
        >((Some(cs), 2 + encode_utf8(cs).len() as int)),
{
    let bytes = encode_utf8(cs);
    let b = spec_string_bytes(Some(cs)) + rest;
    assert(b =~= spec_u16_be(bytes.len() as u16) + (bytes + rest));
    lemma_u16_round_trip(bytes.len() as u16, bytes + rest);
    lemma_encode_utf8_nonempty(cs);
    assert(b.subrange(2, 2 + bytes.len() as int) =~= bytes);
    encode_utf8_valid_utf8(cs);
    encode_utf8_decode_utf8(cs);
}

/// Decoding an absent (or empty) string immediately after encoding it finds
/// an absent string, whatever follows it on the stream.
pub proof fn lemma_absent_string_round_trip(rest: Seq<u8>)
    ensures
        spec_read_string(spec_string_bytes(None) + rest) == Ok::<
            (Option<Seq<char>>, int),
            DecodeErrorView,
        >((None, 2)),
{
    let b = spec_string_bytes(None) + rest;
    assert(b =~= spec_u16_be(0) + rest);
    lemma_u16_round_trip(0, rest);
}

/// Decoding an availability value immediately after encoding it finds the
/// same value, whatever follows it on the stream, for every well-formed
/// value.
pub proof fn lemma_availability_round_trip(a: AvailabilityView, rest: Seq<u8>)
    requires
        spec_availability_valid(a),
    ensures
        spec_read_availability(spec_availability_bytes(a) + rest) == Ok::<
            (AvailabilityView, int),
            DecodeErrorView,
        >((a, spec_availability_bytes(a).len() as int)),
{
    let b = spec_availability_bytes(a) + rest;
    match a {
        AvailabilityView::Available => {
            assert(b[0] == 0);
        },
        AvailabilityView::Unavailable(reason) => {
            assert(b[0] == 1);
            assert(b.skip(1) =~= spec_string_bytes(Some(reason)) + rest);
            lemma_string_round_trip(reason, rest);
        },
    }
}

/// **Round-trip law.** Decoding a packet immediately after encoding it finds
/// the same packet and consumes exactly its bytes, whatever follows it on the
/// stream, for every well-formed packet: every variant, with any payload
/// whose strings are non-empty and fit the two-byte length prefix. (A packet
/// whose `Error` message or unavailability reason is empty is excluded: its
/// encoding is an absent string, which decodes to the fallback message or to
/// a missing-field error respectively.)
pub proof fn lemma_packet_round_trip(p: PacketView, rest: Seq<u8>)
    requires
        spec_packet_valid(p),
    ensures
        spec_read_packet(spec_packet_bytes(p) + rest) == Ok::<(PacketView, int), DecodeErrorView>(
            (p, spec_packet_bytes(p).len() as int),
        ),
{
    let b = spec_packet_bytes(p) + rest;
    match p {
        PacketView::FreshIPRequest => {
            assert(b[0] == 0);
        },
        PacketView::Okay => {
            assert(b[0] == 1);
        },
        PacketView::Error(msg) => {
            assert(b[0] == 2);
            assert(b.skip(1) =~= spec_string_bytes(Some(msg)) + rest);
            lemma_string_round_trip(msg, rest);
        },
        PacketView::Event(e) => {
            assert(b[0] == 3);
            assert(b.skip(1)[0] == spec_event_code(e));
        },
        PacketView::SetRenewingAvailable(a) => {
            assert(b[0] == 4);
            assert(b.skip(1) =~= spec_availability_bytes(a) + rest);
            lemma_availability_round_trip(a, rest);
        },
    }
}

/// **Tag exhaustiveness.** A stream whose first byte is not one of the five
/// packet tags decodes to an `UnknownVariant` error naming that byte, never
/// to a default variant, whatever follows it.
pub proof fn lemma_unknown_tag_rejected(b: Seq<u8>)
    requires
        b.len() >= 1,
        b[0] > 4,
    ensures
        spec_read_packet(b) == Err::<(PacketView, int), DecodeErrorView>(
            DecodeErrorView::UnknownVariant(b[0]),
        ),
{
}

/// **Truncation.** A stream that advertises a string length but holds fewer
/// content bytes than advertised decodes to a truncation error, never to a
/// silently short string.
pub proof fn lemma_truncated_string_rejected(b: Seq<u8>)
    requires
        b.len() >= 2,
        (b[0] as int) * 256 + (b[1] as int) > b.len() - 2,
    ensures
        spec_read_string(b) == Err::<(Option<Seq<char>>, int), DecodeErrorView>(
            DecodeErrorView::TruncatedStream,
        ),
{
}

/// **Empty-reason rejection.** An `Unavailable` payload whose embedded string
/// length is zero decodes to a missing-field error, not to an unavailability
/// with an empty reason.
pub proof fn lemma_empty_reason_rejected(b: Seq<u8>)
    requires
        b.len() >= 3,
        b[0] == 1,
        b[1] == 0,
        b[2] == 0,
    ensures
        spec_read_availability(b) == Err::<(AvailabilityView, int), DecodeErrorView>(
            DecodeErrorView::MissingField("reason"@),
        ),
{
    assert(b.skip(1)[0] == 0 && b.skip(1)[1] == 0);
}

} // verus!
