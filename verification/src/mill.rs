//! The Mill Gen 2 wire protocol.
//!
//! The Mill's own microcontroller keeps the temperature sensor, the triac and the
//! whole control loop; the board this library runs on only *talks* to it, over a
//! 9600 8N1 UART. This module is that conversation, and nothing else: no
//! peripherals, no device state beyond the receive [`Decoder`]'s own byte buffer.
//!
//! Both directions use the same envelope, and the checksum is a plain additive
//! one - the sum of the payload bytes, truncated to 8 bits:
//!
//! ```text
//! 0x5A  <payload bytes...>  <checksum>  0x5B
//! ```
//!
//! Two rules are strict on purpose. A frame ends at `0x5B` and at nothing else -
//! notably not at `0x0A`, which is an ordinary payload byte, being a temperature of
//! 10 degC. And every received checksum is verified before the frame is believed.

use vstd::prelude::*;

use crate::hex::spaced_hex;

verus! {

/// The Mill UART's line rate. The frame format is 8N1.
pub const BAUD_RATE: u32 = 9600;

/// The byte that opens a frame.
pub const START: u8 = 0x5A;

/// The byte that closes a frame.
pub const END: u8 = 0x5B;

/// Payload offset of the frame type, in both directions.
pub const OFFSET_OPCODE: usize = 4;

/// Payload offset of the Mill's own setpoint, in whole degC. `0` means "no reading".
pub const OFFSET_SETPOINT: usize = 6;

/// Payload offset of the measured room temperature, in whole degC. `0` means "no
/// reading".
pub const OFFSET_ROOM: usize = 7;

/// Payload offset of the mode: `0x00` off, `0x01` heat.
pub const OFFSET_MODE: usize = 9;

/// Payload offset of the element's state: `0x00` idle, anything else heating.
pub const OFFSET_ELEMENT: usize = 11;

/// The only inbound frame type that carries anything we understand.
pub const OPCODE_STATUS: u8 = 0xC9;

/// The shortest status frame that can be parsed: [`OFFSET_ELEMENT`] has to be there.
pub const STATUS_MIN_LEN: usize = 12;

/// The longest run of bytes between the markers the [`Decoder`] will buffer.
///
/// The real length of a status frame is not known, so this is generous rather than
/// exact. A frame that overruns it is reported as [`Received::TooLong`] rather than
/// silently truncated.
pub const MAX_PAYLOAD: usize = 32;

/// Every outbound payload: twelve bytes of command and a thirteenth `0x00` pad, with
/// the checksum computed over all thirteen.
pub const COMMAND_PAYLOAD_LEN: usize = 13;

/// Every outbound frame is the same size: the start marker, the payload, the
/// checksum and the end marker.
pub const COMMAND_LEN: usize = 16;

/// Power on/off. The argument is payload byte [`SET_POWER_ARG`].
pub const OPCODE_SET_POWER: u8 = 0x47;

/// Where the power command carries its argument.
pub const SET_POWER_ARG: usize = 5;

/// Set the target temperature, in whole degC. The argument is payload byte
/// [`SET_SETPOINT_ARG`].
pub const OPCODE_SET_SETPOINT: u8 = 0x46;

/// Where the setpoint command carries its argument. The `0x06` the template holds
/// there is a placeholder and is always overwritten.
pub const SET_SETPOINT_ARG: usize = 7;

/// The fixed template the power command is built from.
pub const POWER_TEMPLATE: [u8; 13] = [
    0x00, 0x10, 0x06, 0x00, 0x47, 0x00, 0x00, 0x00, 0x00, 0x00, 0x00, 0x00, 0x00,
];

/// The fixed template the setpoint command is built from.
pub const SETPOINT_TEMPLATE: [u8; 13] = [
    0x00, 0x10, 0x22, 0x00, 0x46, 0x01, 0x00, 0x06, 0x00, 0x00, 0x00, 0x00, 0x00,
];

/// The sum of the bytes of `payload`.
pub open spec fn byte_sum(payload: Seq<u8>) -> nat
    decreases payload.len(),
{
    if payload.len() == 0 {
        0
    } else {
        byte_sum(payload.drop_last()) + payload.last() as nat
    }
}

/// The additive checksum of `payload`: its sum, truncated to 8 bits.
pub open spec fn checksum_of(payload: Seq<u8>) -> u8 {
    (byte_sum(payload) % 256) as u8
}

/// `payload` in its envelope: the bytes that go over the wire.
pub open spec fn framed(payload: Seq<u8>) -> Seq<u8> {
    seq![START] + payload + seq![checksum_of(payload), END]
}

/// The payload of the command that turns heating on or off.
pub open spec fn power_payload(heat: bool) -> Seq<u8> {
    seq![
        0x00u8, 0x10, 0x06, 0x00, 0x47, if heat { 0x01 } else { 0x00 }, 0x00, 0x00, 0x00, 0x00,
        0x00, 0x00, 0x00,
    ]
}

/// The payload of the command that asks for a target of `celsius` whole degrees.
pub open spec fn setpoint_payload(celsius: u8) -> Seq<u8> {
    seq![
        0x00u8, 0x10, 0x22, 0x00, 0x46, 0x01, 0x00, celsius, 0x00, 0x00, 0x00, 0x00, 0x00,
    ]
}

/// The sum of `payload`, truncated to 8 bits.
pub fn checksum(payload: &[u8]) -> (sum: u8)
    ensures
        sum == checksum_of(payload@),
{
    let mut sum: u8 = 0;
    let mut i: usize = 0;

    while i < payload.len()
        invariant
            i <= payload@.len(),
            sum == byte_sum(payload@.take(i as int)) % 256,
        decreases payload@.len() - i,
    {
        proof {
            assert(payload@.take(i + 1).drop_last() =~= payload@.take(i as int));
        }
        sum = sum.wrapping_add(payload[i]);
        i += 1;
    }
    proof {
        assert(payload@.take(i as int) =~= payload@);
    }

    sum
}

/// Wrap a command payload in the envelope.
pub fn envelope(payload: [u8; COMMAND_PAYLOAD_LEN]) -> (frame: [u8; COMMAND_LEN])
    ensures
        frame@ == framed(payload@),
{
    let mut frame: [u8; COMMAND_LEN] = [0u8; COMMAND_LEN];
    let mut i: usize = 0;

    frame[0] = START;

    while i < COMMAND_PAYLOAD_LEN
        invariant
            i <= COMMAND_PAYLOAD_LEN,
            frame@[0] == START,
            forall|j: int| 0 <= j < i ==> frame@[j + 1] == #[trigger] payload@[j],
        decreases COMMAND_PAYLOAD_LEN - i,
    {
        frame[i + 1] = payload[i];
        i += 1;
    }

    frame[COMMAND_LEN - 2] = checksum(&payload);
    frame[COMMAND_LEN - 1] = END;
    proof {
        assert forall|k: int| 0 <= k < COMMAND_LEN implies frame@[k] == framed(payload@)[k] by {
            if 1 <= k <= COMMAND_PAYLOAD_LEN {
                assert(frame@[k] == payload@[k - 1]);
            }
        }
        assert(frame@ =~= framed(payload@));
    }

    frame
}

/// The `0x47` frame: ask the Mill to turn heating on or off.
pub fn power_command(heat: bool) -> (frame: [u8; COMMAND_LEN])
    ensures
        frame@ == framed(power_payload(heat)),
{
    let mut payload: [u8; COMMAND_PAYLOAD_LEN] = POWER_TEMPLATE;

    payload[SET_POWER_ARG] = if heat { 0x01 } else { 0x00 };
    proof {
        assert(payload@ =~= power_payload(heat));
    }

    envelope(payload)
}

/// The `0x46` frame: ask the Mill for a target temperature, in whole degC.
pub fn setpoint_command(celsius: u8) -> (frame: [u8; COMMAND_LEN])
    ensures
        frame@ == framed(setpoint_payload(celsius)),
{
    let mut payload: [u8; COMMAND_PAYLOAD_LEN] = SETPOINT_TEMPLATE;

    payload[SET_SETPOINT_ARG] = celsius;
    proof {
        assert(payload@ =~= setpoint_payload(celsius));
    }

    envelope(payload)
}

/// Whether two byte strings are the same.
pub fn bytes_eq(a: &[u8], b: &[u8]) -> (same: bool)
    ensures
        same == (a@ == b@),
{
    if a.len() != b.len() {
        return false;
    }
    let mut i: usize = 0;

    while i < a.len()
        invariant
            i <= a@.len(),
            a@.len() == b@.len(),
            forall|j: int| 0 <= j < i ==> a@[j] == b@[j],
        decreases a@.len() - i,
    {
        if a[i] != b[i] {
            return false;
        }
        i += 1;
    }
    proof {
        assert(a@ =~= b@);
    }

    true
}

/// What the Mill says it is doing, as of one status frame.
///
/// Every field is what the heater *reports*, never what it was asked for.
#[derive(Clone, Copy, Debug, Default, PartialEq, Eq, Structural)]
pub struct Status {
    /// The Mill's own target temperature in whole degC, or `None` when the frame
    /// carried `0` - the protocol's "no reading".
    pub setpoint_c: Option<u8>,
    /// The measured room temperature in whole degC, or `None` for "no reading".
    pub room_c: Option<u8>,
    /// Whether the Mill is in heat mode, or `None` if the mode byte held something
    /// other than `0x00`/`0x01`.
    pub heat_mode: Option<bool>,
    /// Whether the element is drawing power *right now*.
    pub element_on: bool,
}

/// A temperature byte as a reading: `0` is the protocol's null rather than 0 degC.
pub open spec fn reading_of(byte: u8) -> Option<u8> {
    if byte == 0 {
        None
    } else {
        Some(byte)
    }
}

/// The frame type of `payload`, if it is long enough to have one.
pub open spec fn opcode_of(payload: Seq<u8>) -> Option<u8> {
    if OFFSET_OPCODE < payload.len() {
        Some(payload[OFFSET_OPCODE as int])
    } else {
        None
    }
}

/// Whether `payload` is that of a status frame.
pub open spec fn is_status(payload: Seq<u8>) -> bool {
    payload.len() >= STATUS_MIN_LEN && payload[OFFSET_OPCODE as int] == OPCODE_STATUS
}

/// What `payload` reports, if it is that of a status frame.
pub open spec fn status_of(payload: Seq<u8>) -> Option<Status> {
    if is_status(payload) {
        Some(
            Status {
                setpoint_c: reading_of(payload[OFFSET_SETPOINT as int]),
                room_c: reading_of(payload[OFFSET_ROOM as int]),
                heat_mode: if payload[OFFSET_MODE as int] == 0x00 {
                    Some(false)
                } else if payload[OFFSET_MODE as int] == 0x01 {
                    Some(true)
                } else {
                    None
                },
                element_on: payload[OFFSET_ELEMENT as int] != 0x00,
            },
        )
    } else {
        None
    }
}

/// A temperature byte as a reading.
fn reading(byte: u8) -> (value: Option<u8>)
    ensures
        value == reading_of(byte),
{
    if byte == 0 {
        None
    } else {
        Some(byte)
    }
}

impl Status {
    /// Parse a checksum-verified payload, or `None` if it is not a status frame.
    pub fn parse(payload: &[u8]) -> (status: Option<Self>)
        ensures
            status == status_of(payload@),
    {
        if opcode(payload) != Some(OPCODE_STATUS) || payload.len() < STATUS_MIN_LEN {
            return None;
        }

        Some(
            Status {
                setpoint_c: reading(payload[OFFSET_SETPOINT]),
                room_c: reading(payload[OFFSET_ROOM]),
                heat_mode: match payload[OFFSET_MODE] {
                    0x00 => Some(false),
                    0x01 => Some(true),
                    _ => None,
                },
                element_on: payload[OFFSET_ELEMENT] != 0x00,
            },
        )
    }
}

/// The frame type byte, for a payload long enough to have one.
pub fn opcode(payload: &[u8]) -> (value: Option<u8>)
    ensures
        value == opcode_of(payload@),
{
    if OFFSET_OPCODE < payload.len() {
        Some(payload[OFFSET_OPCODE])
    } else {
        None
    }
}

/// What [`Decoder::push`] found at the end of a frame.
#[derive(Debug, PartialEq, Eq)]
pub enum Received<'a> {
    /// A complete frame whose checksum matched: the payload, with the trailing
    /// checksum byte already stripped.
    Frame(&'a [u8]),
    /// A complete frame whose checksum did not match the bytes it covered. The
    /// payload is handed over anyway - only so it can be logged.
    BadChecksum(&'a [u8]),
    /// A frame that ran past [`MAX_PAYLOAD`] before its terminator arrived. Its
    /// bytes are gone; the decoder resynchronises on the next start marker.
    TooLong,
}

/// A [`Received`] with its payload as a sequence.
pub enum Outcome {
    /// A complete frame whose checksum matched.
    Frame(Seq<u8>),
    /// A complete frame whose checksum did not match.
    BadChecksum(Seq<u8>),
    /// A frame that ran past [`MAX_PAYLOAD`].
    TooLong,
}

impl<'a> View for Received<'a> {
    type V = Outcome;

    open spec fn view(&self) -> Outcome {
        match self {
            Received::Frame(payload) => Outcome::Frame(payload@),
            Received::BadChecksum(payload) => Outcome::BadChecksum(payload@),
            Received::TooLong => Outcome::TooLong,
        }
    }
}

/// Where in the envelope a receiver stands.
pub enum Phase {
    /// Between frames, waiting for a start marker.
    Idle,
    /// Inside a frame, with the bytes that came since its start marker.
    InFrame(Seq<u8>),
    /// Inside a frame that is already too long.
    Overrun,
}

impl Phase {
    /// Where the receiver stands once `byte` has arrived.
    pub open spec fn after(self, byte: u8) -> Phase {
        match self {
            Phase::Idle => if byte == START {
                Phase::InFrame(Seq::empty())
            } else {
                Phase::Idle
            },
            Phase::InFrame(bytes) => if byte == END {
                Phase::Idle
            } else if bytes.len() < MAX_PAYLOAD {
                Phase::InFrame(bytes.push(byte))
            } else {
                Phase::Overrun
            },
            Phase::Overrun => if byte == END {
                Phase::Idle
            } else {
                Phase::Overrun
            },
        }
    }

    /// What the arrival of `byte` completes, if anything.
    ///
    /// The checksum is the last byte before the end marker; a frame too short to hold
    /// one carries nothing to verify and nothing to parse.
    pub open spec fn outcome(self, byte: u8) -> Option<Outcome> {
        if byte != END {
            None
        } else {
            match self {
                Phase::Idle => None,
                Phase::InFrame(bytes) => if bytes.len() == 0 {
                    None
                } else if bytes.last() == checksum_of(bytes.drop_last()) {
                    Some(Outcome::Frame(bytes.drop_last()))
                } else {
                    Some(Outcome::BadChecksum(bytes.drop_last()))
                },
                Phase::Overrun => Some(Outcome::TooLong),
            }
        }
    }

    /// Where the receiver stands once all of `bytes` have arrived, in order.
    pub open spec fn after_all(self, bytes: Seq<u8>) -> Phase
        decreases bytes.len(),
    {
        if bytes.len() == 0 {
            self
        } else {
            self.after_all(bytes.drop_last()).after(bytes.last())
        }
    }

    /// Everything that `bytes` complete, in the order in which they complete it.
    pub open spec fn outcomes(self, bytes: Seq<u8>) -> Seq<Outcome>
        decreases bytes.len(),
    {
        if bytes.len() == 0 {
            Seq::empty()
        } else {
            let before = self.outcomes(bytes.drop_last());
            match self.after_all(bytes.drop_last()).outcome(bytes.last()) {
                Some(outcome) => before.push(outcome),
                None => before,
            }
        }
    }
}

/// A byte-at-a-time receiver for the envelope.
///
/// Deliberately length-agnostic - the true length of a status frame is not fixed by
/// anything known - but *not* terminator-agnostic: only `0x5B` ends a frame, and the
/// checksum decides whether what arrived is worth believing.
pub struct Decoder {
    buf: [u8; MAX_PAYLOAD],
    len: usize,
    /// Whether a start marker has been seen and no terminator since.
    in_frame: bool,
    /// Set when the current frame overran [`MAX_PAYLOAD`], so its terminator is
    /// reported once and its bytes are not mistaken for a short frame.
    overrun: bool,
}

impl Decoder {
    #[verifier::type_invariant]
    spec fn fits(self) -> bool {
        self.len <= MAX_PAYLOAD
    }

    /// Where in the envelope this decoder stands.
    pub closed spec fn phase(&self) -> Phase {
        if !self.in_frame {
            Phase::Idle
        } else if self.overrun {
            Phase::Overrun
        } else {
            Phase::InFrame(self.buf@.take(self.len as int))
        }
    }

    /// A decoder between frames.
    pub fn new() -> (decoder: Self)
        ensures
            decoder.phase() == Phase::Idle,
    {
        Decoder { buf: [0; MAX_PAYLOAD], len: 0, in_frame: false, overrun: false }
    }

    /// Feed one received byte, returning a frame once its terminator arrives.
    ///
    /// Bytes outside an envelope are dropped, which is also how the decoder
    /// resynchronises: after a truncated or oversized frame it simply waits for the
    /// next start marker.
    pub fn push(&mut self, byte: u8) -> (received: Option<Received<'_>>)
        ensures
            final(self).phase() == old(self).phase().after(byte),
            match received {
                Some(received) => old(self).phase().outcome(byte) == Some(received@),
                None => old(self).phase().outcome(byte) is None,
            },
    {
        proof {
            use_type_invariant(&*self);
        }
        if !self.in_frame {
            if byte == START {
                self.in_frame = true;
                self.overrun = false;
                self.len = 0;
                proof {
                    assert(self.buf@.take(0) =~= Seq::<u8>::empty());
                }
            }

            return None;
        }

        if byte != END {
            if self.len < MAX_PAYLOAD {
                self.buf[self.len] = byte;
                self.len += 1;
                proof {
                    assert(self.buf@.take(self.len as int) =~= old(self).buf@.take(
                        old(self).len as int,
                    ).push(byte));
                }
            } else {
                self.overrun = true;
            }

            return None;
        }

        self.in_frame = false;

        if self.overrun {
            return Some(Received::TooLong);
        }

        if self.len == 0 {
            return None;
        }

        let sum: u8 = self.buf[self.len - 1];
        let data: &[u8] = vstd::slice::slice_subrange(&self.buf, 0, self.len - 1);
        proof {
            assert(data@ =~= self.buf@.take(self.len as int).drop_last());
        }

        if sum == checksum(data) {
            Some(Received::Frame(data))
        } else {
            Some(Received::BadChecksum(data))
        }
    }
}

impl Default for Decoder {
    fn default() -> (decoder: Self)
        ensures
            decoder.phase() == Phase::Idle,
    {
        Self::new()
    }
}

/// A byte slice as space-separated hex, for logging frames.
///
/// Most of what the Mill sends is still unparsed, so the raw frame *is* the finding.
/// This is what puts it in the log.
pub struct Hex<'a>(pub &'a [u8]);

impl<'a> Hex<'a> {
    /// The text to log.
    pub fn to_text(&self) -> (text: String)
        ensures
            text@ == crate::hex::spaced_hex_text(self.0@),
    {
        spaced_hex(self.0)
    }
}

/// Whether a payload survives its envelope: neither it nor its checksum may hold the
/// end marker, and both together have to fit the receive buffer.
pub open spec fn framable(payload: Seq<u8>) -> bool {
    &&& payload.len() < MAX_PAYLOAD
    &&& !payload.contains(END)
    &&& checksum_of(payload) != END
}

/// Receiving `a` and then `b` is receiving `a + b`.
pub proof fn law_stream_concat(phase: Phase, a: Seq<u8>, b: Seq<u8>)
    ensures
        phase.after_all(a + b) == phase.after_all(a).after_all(b),
        phase.outcomes(a + b) == phase.outcomes(a) + phase.after_all(a).outcomes(b),
    decreases b.len(),
{
    if b.len() == 0 {
        assert(a + b =~= a);
        assert(phase.outcomes(a) + Seq::<Outcome>::empty() =~= phase.outcomes(a));
    } else {
        assert((a + b).drop_last() =~= a + b.drop_last());
        law_stream_concat(phase, a, b.drop_last());
        assert(phase.outcomes(a + b) =~= phase.outcomes(a) + phase.after_all(a).outcomes(b));
    }
}

/// Bytes other than the end marker only pile up inside a frame, until it is too long.
proof fn lemma_pile_up(held: Seq<u8>, bytes: Seq<u8>)
    requires
        held.len() <= MAX_PAYLOAD,
        !bytes.contains(END),
    ensures
        Phase::InFrame(held).after_all(bytes) == if held.len() + bytes.len() <= MAX_PAYLOAD {
            Phase::InFrame(held + bytes)
        } else {
            Phase::Overrun
        },
        Phase::InFrame(held).outcomes(bytes) == Seq::<Outcome>::empty(),
    decreases bytes.len(),
{
    if bytes.len() == 0 {
        assert(held + bytes =~= held);
    } else {
        let front = bytes.drop_last();
        assert forall|i: int| 0 <= i < front.len() implies front[i] != END by {
            assert(bytes.contains(bytes[i]));
        }
        assert(bytes.contains(bytes.last()));
        lemma_pile_up(held, front);
        assert((held + front).push(bytes.last()) =~= held + bytes);
    }
}

/// What goes into the envelope comes out of it: the frame around a payload, received
/// between frames, gives exactly that payload, once, and leaves the receiver between
/// frames.
pub proof fn law_frame_round_trip(payload: Seq<u8>)
    requires
        framable(payload),
    ensures
        Phase::Idle.outcomes(framed(payload)) == seq![Outcome::Frame(payload)],
        Phase::Idle.after_all(framed(payload)) == Phase::Idle,
{
    let body = payload.push(checksum_of(payload));
    assert(!body.contains(END)) by {
        assert forall|i: int| 0 <= i < body.len() implies body[i] != END by {
            if i < payload.len() {
                assert(payload.contains(payload[i]));
            }
        }
    }
    lemma_whole_frame(body);
    assert(framed(payload) =~= seq![START] + body + seq![END]);
    assert(body.drop_last() =~= payload);
}

/// What a start marker, a body without end markers and an end marker come to.
proof fn lemma_whole_frame(body: Seq<u8>)
    requires
        !body.contains(END),
    ensures
        Phase::Idle.after_all(seq![START] + body + seq![END]) == Phase::Idle,
        body.len() > MAX_PAYLOAD ==> Phase::Idle.outcomes(seq![START] + body + seq![END])
            == seq![Outcome::TooLong],
        0 < body.len() <= MAX_PAYLOAD ==> Phase::Idle.outcomes(seq![START] + body + seq![END])
            == seq![Phase::InFrame(body).outcome(END)->Some_0],
{
    let opened = seq![START];
    let closed = seq![END];
    assert(opened.drop_last() =~= Seq::<u8>::empty());
    assert(Phase::Idle.after_all(Seq::<u8>::empty()) == Phase::Idle);
    assert(Phase::Idle.after_all(opened) == Phase::InFrame(Seq::empty()));
    assert(Phase::Idle.outcomes(Seq::<u8>::empty()) =~= Seq::<Outcome>::empty());
    assert(Phase::Idle.outcomes(opened) =~= Seq::<Outcome>::empty());
    lemma_pile_up(Seq::empty(), body);
    assert(Seq::<u8>::empty() + body =~= body);
    law_stream_concat(Phase::Idle, opened, body);
    assert(Phase::Idle.outcomes(opened + body) =~= Seq::<Outcome>::empty());
    assert((opened + body + closed).drop_last() =~= opened + body);
    if body.len() > MAX_PAYLOAD {
        assert(Phase::Idle.outcomes(opened + body + closed) =~= seq![Outcome::TooLong]);
    } else if body.len() > 0 {
        assert(Phase::Idle.outcomes(opened + body + closed) =~= seq![
            Phase::InFrame(body).outcome(END)->Some_0,
        ]);
    }
}

/// A frame whose body overruns the receive buffer is reported as such, once, and is
/// never mistaken for a shorter one.
pub proof fn law_oversized_frame_is_reported(body: Seq<u8>)
    requires
        body.len() > MAX_PAYLOAD,
        !body.contains(END),
    ensures
        Phase::Idle.outcomes(seq![START] + body + seq![END]) == seq![Outcome::TooLong],
        Phase::Idle.after_all(seq![START] + body + seq![END]) == Phase::Idle,
{
    lemma_whole_frame(body);
}

/// Only the end marker ends a frame - no payload byte does, `0x0A` included.
pub proof fn law_only_the_end_marker_ends_a_frame(phase: Phase, byte: u8)
    ensures
        byte != END ==> phase.outcome(byte) is None,
        byte != END && !(phase is Idle) ==> !(phase.after(byte) is Idle),
        byte == END ==> phase.after(byte) is Idle,
{
}

/// No frame is believed unless the byte before its end marker is the checksum of the
/// bytes before that.
pub proof fn law_believed_frames_are_checksummed(phase: Phase, byte: u8, payload: Seq<u8>)
    requires
        phase.outcome(byte) == Some(Outcome::Frame(payload)),
    ensures
        phase == Phase::InFrame(payload.push(checksum_of(payload))),
        byte == END,
{
    let bytes = phase->InFrame_0;
    assert(bytes =~= payload.push(checksum_of(payload)));
}

/// The receiver resynchronises: whatever it was in the middle of, and whatever noise
/// came, the first frame after an end marker is received whole.
pub proof fn law_resynchronises(phase: Phase, noise: Seq<u8>, payload: Seq<u8>)
    requires
        framable(payload),
    ensures
        phase.after_all(noise.push(END) + framed(payload)) == Phase::Idle,
        phase.outcomes(noise.push(END) + framed(payload)) == phase.outcomes(noise.push(END)).push(
            Outcome::Frame(payload),
        ),
{
    let lead = noise.push(END);
    assert(lead.drop_last() =~= noise);
    law_only_the_end_marker_ends_a_frame(phase.after_all(noise), END);
    law_stream_concat(phase, lead, framed(payload));
    law_frame_round_trip(payload);
    assert(phase.outcomes(lead) + seq![Outcome::Frame(payload)] =~= phase.outcomes(lead).push(
        Outcome::Frame(payload),
    ));
}

/// The command frames satisfy the envelope they are sent in: a receiver gets the power
/// command's payload back, and the setpoint command's for every target but the two
/// that put the end marker on the wire - one as the target itself, one by way of the
/// checksum.
pub proof fn law_commands_are_framable(heat: bool, celsius: u8)
    requires
        celsius != END,
        celsius != 0xE2,
    ensures
        framable(power_payload(heat)),
        framable(setpoint_payload(celsius)),
{
    let power = power_payload(heat);
    let setpoint = setpoint_payload(celsius);
    lemma_sum_13(power);
    lemma_sum_13(setpoint);
    assert(!power.contains(END));
    assert(!setpoint.contains(END));
}

/// The sum of a command payload, spelled out.
proof fn lemma_sum_13(p: Seq<u8>)
    requires
        p.len() == 13,
    ensures
        byte_sum(p) == p[0] + p[1] + p[2] + p[3] + p[4] + p[5] + p[6] + p[7] + p[8] + p[9] + p[10]
            + p[11] + p[12],
{
    reveal_with_fuel(byte_sum, 14);
}

/// Every status payload is read byte by byte: a payload is one if and only if its fifth byte
/// says so and it is long enough, and each reading is in a byte of its own, whatever the other
/// bytes hold - the setpoint in byte 6 and the room in byte 7, as they are or unknown if
/// they are 0, the mode in byte 9, and the element in byte 11.
pub proof fn law_each_reading_is_its_own_byte(payload: Seq<u8>)
    ensures
        status_of(payload) is Some <==> payload.len() >= 12 && payload[4] == 0xC9,
        is_status(payload) <==> status_of(payload) is Some,
        opcode_of(payload) is Some <==> payload.len() >= 5,
        opcode_of(payload) matches Some(opcode) ==> opcode == payload[4],
        status_of(payload) matches Some(status) ==> {
            &&& status.setpoint_c is None <==> payload[6] == 0
            &&& status.setpoint_c matches Some(celsius) ==> celsius == payload[6]
            &&& status.room_c is None <==> payload[7] == 0
            &&& status.room_c matches Some(celsius) ==> celsius == payload[7]
            &&& status.heat_mode == Some(true) <==> payload[9] == 1
            &&& status.heat_mode == Some(false) <==> payload[9] == 0
            &&& status.element_on <==> payload[11] != 0
        },
{
}

/// No reading leaks into another: two status payloads that agree in the byte of a reading
/// agree in that reading, and changing it in one of them changes no other.
pub proof fn law_readings_are_independent(a: Seq<u8>, b: Seq<u8>)
    requires
        is_status(a),
        is_status(b),
    ensures
        ({
            let (x, y) = (status_of(a)->Some_0, status_of(b)->Some_0);
            &&& x.setpoint_c == y.setpoint_c <==> a[6] == b[6]
            &&& x.room_c == y.room_c <==> a[7] == b[7]
            &&& a[9] == b[9] ==> x.heat_mode == y.heat_mode
            &&& a[11] == b[11] ==> x.element_on == y.element_on
        }),
{
}

/// The envelope: a start marker, the payload as it is, its checksum and an end marker.
pub proof fn law_envelope_holds_the_payload(payload: Seq<u8>)
    ensures
        framed(payload).len() == payload.len() + 3,
        framed(payload)[0] == 0x5A,
        framed(payload).subrange(1, (payload.len() + 1) as int) == payload,
        framed(payload)[payload.len() as int + 1] == checksum_of(payload),
        framed(payload).last() == 0x5B,
{
    assert(framed(payload).subrange(1, (payload.len() + 1) as int) =~= payload);
}

/// The checksum is additive: that of a byte is the byte itself, and that of two runs of
/// bytes is the sum of theirs, truncated to 8 bits.
pub proof fn law_checksum_is_additive(byte: u8, a: Seq<u8>, b: Seq<u8>)
    ensures
        checksum_of(seq![byte]) == byte,
        checksum_of(Seq::empty()) == 0,
        checksum_of(a + b) == (checksum_of(a) + checksum_of(b)) % 256,
{
    assert(seq![byte].drop_last() =~= Seq::<u8>::empty());
    assert(byte_sum(Seq::<u8>::empty()) == 0);
    assert(byte_sum(seq![byte]) == byte);
    lemma_byte_sums_add(a, b);
}

/// The sums of two runs of bytes add up.
proof fn lemma_byte_sums_add(a: Seq<u8>, b: Seq<u8>)
    ensures
        byte_sum(a + b) == byte_sum(a) + byte_sum(b),
    decreases b.len(),
{
    if b.len() == 0 {
        assert(a + b =~= a);
    } else {
        assert((a + b).drop_last() =~= a + b.drop_last());
        lemma_byte_sums_add(a, b.drop_last());
    }
}

/// A command carries its argument and nothing else of it: the power command's byte 5 is 1
/// for on and 0 for off, the setpoint command's byte 7 is the target as it is, and no other
/// byte of either depends on the argument.
pub proof fn law_commands_carry_their_argument(
    heat: bool,
    other_heat: bool,
    celsius: u8,
    other_celsius: u8,
)
    ensures
        power_payload(heat).len() == 13,
        power_payload(heat)[4] == 0x47,
        power_payload(heat)[5] == 1 <==> heat,
        power_payload(heat)[5] == 0 <==> !heat,
        power_payload(heat).update(5, 0) == power_payload(other_heat).update(5, 0),
        setpoint_payload(celsius).len() == 13,
        setpoint_payload(celsius)[4] == 0x46,
        setpoint_payload(celsius)[7] == celsius,
        setpoint_payload(celsius).update(7, 0) == setpoint_payload(other_celsius).update(7, 0),
{
    assert(power_payload(heat).update(5, 0) =~= power_payload(other_heat).update(5, 0));
    assert(setpoint_payload(celsius).update(7, 0) =~= setpoint_payload(other_celsius).update(7, 0));
}

/// No two commands look alike on the wire: neither two targets, nor on and off, nor a target
/// and a power state.
pub proof fn law_commands_are_told_apart(
    heat: bool,
    other_heat: bool,
    celsius: u8,
    other_celsius: u8,
)
    ensures
        framed(power_payload(heat)) == framed(power_payload(other_heat)) <==> heat == other_heat,
        framed(setpoint_payload(celsius)) == framed(setpoint_payload(other_celsius)) <==> celsius
            == other_celsius,
        framed(power_payload(heat)) != framed(setpoint_payload(celsius)),
{
    assert(framed(power_payload(heat))[6] == power_payload(heat)[5]);
    assert(framed(power_payload(other_heat))[6] == power_payload(other_heat)[5]);
    assert(framed(setpoint_payload(celsius))[8] == celsius);
    assert(framed(setpoint_payload(other_celsius))[8] == other_celsius);
    assert(framed(power_payload(heat))[5] == 0x47);
    assert(framed(setpoint_payload(celsius))[5] == 0x46);
}

/// Bytes between frames are dropped: whatever comes without a start marker completes nothing
/// and opens nothing.
pub proof fn law_noise_between_frames_is_dropped(noise: Seq<u8>)
    requires
        !noise.contains(0x5A),
    ensures
        Phase::Idle.after_all(noise) == Phase::Idle,
        Phase::Idle.outcomes(noise) == Seq::<Outcome>::empty(),
    decreases noise.len(),
{
    if noise.len() > 0 {
        let front = noise.drop_last();
        assert forall|i: int| 0 <= i < front.len() implies front[i] != 0x5A by {
            assert(noise.contains(noise[i]));
        }
        assert(noise.contains(noise.last()));
        law_noise_between_frames_is_dropped(front);
    }
}

/// A frame whose checksum does not match is told as such, with the payload it came with, and
/// is not believed; one that holds nothing at all completes nothing. Either way the receiver
/// is between frames again.
pub proof fn law_bad_checksum_is_told(payload: Seq<u8>, sum: u8)
    requires
        payload.len() < 32,
        !payload.contains(0x5B),
        sum != 0x5B,
        sum != checksum_of(payload),
    ensures
        ({
            let frame = seq![0x5Au8] + payload + seq![sum, 0x5B];
            &&& Phase::Idle.outcomes(frame) == seq![Outcome::BadChecksum(payload)]
            &&& Phase::Idle.after_all(frame) == Phase::Idle
        }),
        Phase::Idle.outcomes(seq![0x5Au8, 0x5B]) == Seq::<Outcome>::empty(),
        Phase::Idle.after_all(seq![0x5Au8, 0x5B]) == Phase::Idle,
{
    let body = payload.push(sum);
    assert(!body.contains(END)) by {
        assert forall|i: int| 0 <= i < body.len() implies body[i] != END by {
            if i < payload.len() {
                assert(payload.contains(payload[i]));
            }
        }
    }
    lemma_whole_frame(body);
    assert(seq![0x5Au8] + payload + seq![sum, 0x5B] =~= seq![START] + body + seq![END]);
    assert(body.drop_last() =~= payload);
    let empty = seq![0x5Au8, 0x5B];
    let opened = seq![START];
    assert(empty.drop_last() =~= opened);
    assert(opened.drop_last() =~= Seq::<u8>::empty());
    assert(Phase::Idle.after_all(Seq::<u8>::empty()) == Phase::Idle);
    assert(Phase::Idle.outcomes(Seq::<u8>::empty()) =~= Seq::<Outcome>::empty());
    assert(Phase::Idle.after_all(opened) == Phase::InFrame(Seq::empty()));
    assert(Phase::Idle.outcomes(opened) =~= Seq::<Outcome>::empty());
}

/// What fits: a frame of up to 32 bytes between its markers, the checksum among them, is
/// received, and a longer one is not.
pub proof fn law_frames_fit_up_to_the_buffer(body: Seq<u8>)
    requires
        body.len() > 0,
        !body.contains(0x5B),
    ensures
        Phase::Idle.outcomes(seq![0x5Au8] + body + seq![0x5Bu8]) == seq![Outcome::TooLong]
            <==> body.len() > 32,
        Phase::Idle.outcomes(seq![0x5Au8] + body + seq![0x5Bu8]) == seq![
            Outcome::Frame(body.drop_last()),
        ] <==> body.len() <= 32 && body.last() == checksum_of(body.drop_last()),
{
    lemma_whole_frame(body);
    assert(seq![0x5Au8] =~= seq![START]);
    assert(seq![0x5Bu8] =~= seq![END]);
    let got = Phase::Idle.outcomes(seq![START] + body + seq![END]);
    assert(seq![Outcome::TooLong][0] == Outcome::TooLong);
    assert(seq![Outcome::Frame(body.drop_last())][0] == Outcome::Frame(body.drop_last()));
    if body.len() <= 32 {
        assert(got[0] == Phase::InFrame(body).outcome(END)->Some_0);
    }
}

/// The worked frames: what goes over the wire for heating on, for heating off, and for a
/// target of 21 degC.
pub proof fn law_commands_are_the_worked_frames()
    ensures
        framed(power_payload(true)) == seq![
            0x5Au8, 0x00, 0x10, 0x06, 0x00, 0x47, 0x01, 0x00, 0x00, 0x00, 0x00, 0x00, 0x00, 0x00,
            0x5E, 0x5B,
        ],
        framed(power_payload(false)) == seq![
            0x5Au8, 0x00, 0x10, 0x06, 0x00, 0x47, 0x00, 0x00, 0x00, 0x00, 0x00, 0x00, 0x00, 0x00,
            0x5D, 0x5B,
        ],
        framed(setpoint_payload(21)) == seq![
            0x5Au8, 0x00, 0x10, 0x22, 0x00, 0x46, 0x01, 0x00, 0x15, 0x00, 0x00, 0x00, 0x00, 0x00,
            0x8E, 0x5B,
        ],
{
    lemma_sum_13(power_payload(true));
    lemma_sum_13(power_payload(false));
    lemma_sum_13(setpoint_payload(21));
    assert(framed(power_payload(true)) =~= seq![
        0x5Au8, 0x00, 0x10, 0x06, 0x00, 0x47, 0x01, 0x00, 0x00, 0x00, 0x00, 0x00, 0x00, 0x00, 0x5E,
        0x5B,
    ]);
    assert(framed(power_payload(false)) =~= seq![
        0x5Au8, 0x00, 0x10, 0x06, 0x00, 0x47, 0x00, 0x00, 0x00, 0x00, 0x00, 0x00, 0x00, 0x00, 0x5D,
        0x5B,
    ]);
    assert(framed(setpoint_payload(21)) =~= seq![
        0x5Au8, 0x00, 0x10, 0x22, 0x00, 0x46, 0x01, 0x00, 0x15, 0x00, 0x00, 0x00, 0x00, 0x00, 0x8E,
        0x5B,
    ]);
}

/// The templates carry the opcodes they are named after.
pub proof fn law_templates_carry_their_opcodes()
    ensures
        POWER_TEMPLATE@[OFFSET_OPCODE as int] == OPCODE_SET_POWER,
        SETPOINT_TEMPLATE@[OFFSET_OPCODE as int] == OPCODE_SET_SETPOINT,
{
}

} // verus!
