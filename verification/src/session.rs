//! The device session: owns the transport, feeds its bytes through
//! the frame decoder and command parser, tracks outbound UI state,
//! and keeps the connection alive across transient disconnects.

use vstd::prelude::*;
use crate::error::Error;
use crate::proto::{command_matches_frame, frame_ok, parse, parse_outcome, Command};
use crate::slip::{scan, DecoderModel, SlipDecoder};
use crate::value::Value;

verus! {

pub const MIN_OCTAVE: u8 = 0;

pub const MAX_OCTAVE: u8 = 10;

pub const MIN_VELOCITY: u8 = 0;

pub const MAX_VELOCITY: u8 = 127;

/// The note value transmitted for "note off"; it never carries a
/// velocity byte.
pub const NOTE_OFF: u8 = 255;

pub const KEY_EDIT: u8 = 1;

pub const KEY_OPTION: u8 = 2;

pub const KEY_RIGHT: u8 = 4;

pub const KEY_PLAY: u8 = 8;

pub const KEY_SHIFT: u8 = 16;

pub const KEY_DOWN: u8 = 32;

pub const KEY_UP: u8 = 64;

pub const KEY_LEFT: u8 = 128;

pub const KEY_DIR: u8 = KEY_UP | KEY_DOWN | KEY_LEFT | KEY_RIGHT;

/// Leading byte of an outbound note event.
pub const NOTE_CMD: u8 = 75;

/// Leading byte of an outbound key-state event.
pub const KEYS_CMD: u8 = 67;

/// First byte of the "enable and reset display" command.
pub const ENABLE_CMD: u8 = 69;

/// "Reset display" command, also second byte of "enable and reset".
pub const RESET_CMD: u8 = 82;

/// "Disconnecting" notice.
pub const DISCONNECT_CMD: u8 = 68;

/// Why a transport read failed.
pub enum ReadError {
    /// The device is gone; the session absorbs this silently.
    BrokenPipe,
    /// Any other failure, with a description for the caller's log.
    Other(String),
}

/// Why a transport write failed.
pub enum WriteError {
    /// The device is gone; the next read detects and absorbs it.
    BrokenPipe,
    /// Fewer bytes than asked went out.
    Incomplete,
    /// Any other failure; per policy it is logged, never surfaced.
    Other(String),
}

/// The disconnect notice, as handed to the transport.
pub open spec fn disconnect_msg() -> Seq<u8> {
    seq![DISCONNECT_CMD]
}

/// The "enable and reset display" command, as handed to the transport.
pub open spec fn enable_reset_msg() -> Seq<u8> {
    seq![ENABLE_CMD, RESET_CMD]
}

/// The "reset display" command, as handed to the transport.
pub open spec fn reset_msg() -> Seq<u8> {
    seq![RESET_CMD]
}

/// An outbound note event: the note alone for note-off, note plus
/// velocity otherwise.
pub open spec fn keyjazz_msg(note: u8, velocity: u8) -> Seq<u8> {
    if note == NOTE_OFF {
        seq![NOTE_CMD, NOTE_OFF]
    } else {
        seq![NOTE_CMD, note, velocity]
    }
}

/// An outbound key-state event.
pub open spec fn keys_msg(keys: u8) -> Seq<u8> {
    seq![KEYS_CMD, keys]
}

/// `r` is exactly what a poll owes the caller for a completed frame
/// `f`: the parse of the frame, with a violation wrapped as a
/// protocol error — never any other kind of error, and never a
/// command the frame does not spell.
pub open spec fn frame_outcome(f: Seq<u8>, r: Result<Option<Command>, Error>) -> bool {
    match r {
        Ok(c) => parse_outcome(f, Ok(c)),
        Err(Error::Protocol(v)) => parse_outcome(f, Err(v)),
        Err(_) => false,
    }
}

/// The duplex byte stream to the device, reduced to the capability
/// set the session needs so that a concrete serial port or a simulated
/// backend can stand behind it.
pub trait Transport {
    /// Bytes available now; empty when nothing arrived before the
    /// transport's short read timeout.
    fn read_chunk(&mut self) -> (r: Result<Vec<u8>, ReadError>);

    /// Write the whole buffer.
    fn write_all(&mut self, data: &Vec<u8>) -> (r: Result<(), WriteError>);

    /// Name of the underlying port, if it has one.
    fn name(&self) -> (r: Option<String>);

    /// Try to rebind to a freshly discovered device; true on success.
    fn reconnect(&mut self) -> (r: bool);

    /// Give the device a moment to settle after a disconnect notice.
    fn settle(&mut self);
}

/// The audio collaborator's capability set: the session only starts,
/// toggles and renames it.
pub trait AudioLink {
    /// Name of the capture device in use.
    fn name(&self) -> (r: String);

    /// Start or resume capture.
    fn resume(&mut self);

    /// Toggle capture on or off.
    fn toggle(&mut self);

    /// Re-open capture on the named device.
    fn reopen(&mut self, name: String) -> (r: Result<(), String>);
}

/// A session bound to one transport: decode buffers, connection
/// state, change-tracked outbound UI state, and an optional audio
/// collaborator.
pub struct M8<T: Transport, A: AudioLink> {
    transport: T,
    decoder: SlipDecoder,
    pending: Vec<u8>,
    pos: usize,
    reconnect: bool,
    lost: bool,
    pub keyjazz: Value<bool>,
    pub note: Value<u8>,
    pub octave: Value<u8>,
    pub velocity: Value<u8>,
    pub keys: Value<u8>,
    audio: Option<A>,
    loopback: bool,
    sent: Ghost<Seq<Seq<u8>>>,
}

impl<T: Transport, A: AudioLink> M8<T, A> {
    /// The change-tracked keyjazz flag, as the contracts see it.
    pub closed spec fn spec_keyjazz(self) -> Value<bool> {
        self.keyjazz
    }

    /// The change-tracked note value, as the contracts see it.
    pub closed spec fn spec_note(self) -> Value<u8> {
        self.note
    }

    /// The change-tracked octave, as the contracts see it.
    pub closed spec fn spec_octave(self) -> Value<u8> {
        self.octave
    }

    /// The change-tracked velocity, as the contracts see it.
    pub closed spec fn spec_velocity(self) -> Value<u8> {
        self.velocity
    }

    /// The change-tracked key bitmask, as the contracts see it.
    pub closed spec fn spec_keys(self) -> Value<u8> {
        self.keys
    }

    /// Whether the session considers the device lost.
    pub closed spec fn spec_lost(self) -> bool {
        self.lost
    }

    /// Whether the session may rediscover the device on its own.
    pub closed spec fn spec_reconnect(self) -> bool {
        self.reconnect
    }

    /// Whether audio loopback has been activated.
    pub closed spec fn spec_loopback(self) -> bool {
        self.loopback
    }

    /// Whether an audio collaborator is attached.
    pub closed spec fn spec_has_audio(self) -> bool {
        self.audio is Some
    }

    /// The inbound decode state: the decoder model plus the raw bytes
    /// read but not yet decoded.
    pub closed spec fn inbuf(self) -> (DecoderModel, Seq<u8>) {
        (self.decoder@, self.pending@.skip(self.pos as int))
    }

    /// Every message handed to the transport so far, oldest first.
    /// Ghost: it exists only so the contracts can pin the outbound
    /// transcript.
    pub closed spec fn sent_log(self) -> Seq<Seq<u8>> {
        self.sent@
    }

    /// Session invariant: the decode accumulator is bounded and the
    /// outbound octave and velocity sit in their documented ranges.
    pub closed spec fn wf(self) -> bool {
        &&& self.decoder@.wf()
        &&& self.pos <= self.pending@.len()
        &&& self.octave.value() <= MAX_OCTAVE
        &&& self.velocity.value() <= MAX_VELOCITY
    }

    /// The five change-tracked values, flags included, are untouched.
    pub open spec fn ui_eq(a: Self, b: Self) -> bool {
        &&& b.spec_keyjazz() == a.spec_keyjazz()
        &&& b.spec_note() == a.spec_note()
        &&& b.spec_octave() == a.spec_octave()
        &&& b.spec_velocity() == a.spec_velocity()
        &&& b.spec_keys() == a.spec_keys()
    }

    /// The five values themselves are untouched (their dirty flags may
    /// differ).
    pub open spec fn same_values(a: Self, b: Self) -> bool {
        &&& b.spec_keyjazz().value() == a.spec_keyjazz().value()
        &&& b.spec_note().value() == a.spec_note().value()
        &&& b.spec_octave().value() == a.spec_octave().value()
        &&& b.spec_velocity().value() == a.spec_velocity().value()
        &&& b.spec_keys().value() == a.spec_keys().value()
    }

    /// No dirty flag is ever cleared: at worst more state awaits
    /// retransmission.
    pub open spec fn dirty_monotone(a: Self, b: Self) -> bool {
        &&& a.spec_keyjazz().dirty() ==> b.spec_keyjazz().dirty()
        &&& a.spec_note().dirty() ==> b.spec_note().dirty()
        &&& a.spec_octave().dirty() ==> b.spec_octave().dirty()
        &&& a.spec_velocity().dirty() ==> b.spec_velocity().dirty()
        &&& a.spec_keys().dirty() ==> b.spec_keys().dirty()
    }

    /// Connection flags, audio state and the inbound decode state are
    /// untouched.
    pub open spec fn flags_unchanged(a: Self, b: Self) -> bool {
        &&& b.spec_lost() == a.spec_lost()
        &&& b.spec_reconnect() == a.spec_reconnect()
        &&& b.spec_loopback() == a.spec_loopback()
        &&& b.spec_has_audio() == a.spec_has_audio()
        &&& b.inbuf() == a.inbuf()
    }

    /// Bind a session to an open transport. The session starts
    /// connected, with reconnection off, keyjazz off, note off,
    /// octave 3, velocity 100 and no keys held.
    pub fn new(transport: T) -> (m: Self)
        ensures
            m.wf(),
            !m.spec_lost(),
            !m.spec_reconnect(),
            !m.spec_loopback(),
            !m.spec_has_audio(),
            m.inbuf() == (DecoderModel::init(), Seq::<u8>::empty()),
            m.spec_keyjazz().value() == false && !m.spec_keyjazz().dirty(),
            m.spec_note().value() == NOTE_OFF && !m.spec_note().dirty(),
            m.spec_octave().value() == 3 && !m.spec_octave().dirty(),
            m.spec_velocity().value() == 100 && !m.spec_velocity().dirty(),
            m.spec_keys().value() == 0 && !m.spec_keys().dirty(),
            m.sent_log() == Seq::<Seq<u8>>::empty(),
    {
        let m = M8 {
            transport,
            decoder: SlipDecoder::new(),
            pending: Vec::new(),
            pos: 0,
            reconnect: false,
            lost: false,
            keyjazz: Value::new(false),
            note: Value::new(NOTE_OFF),
            octave: Value::new(3),
            velocity: Value::new(100),
            keys: Value::new(0),
            audio: None,
            loopback: false,
            sent: Ghost(Seq::empty()),
        };
        proof {
            assert(m.pending@.skip(0) =~= Seq::<u8>::empty());
        }
        m
    }

    /// Name of the port the session is bound to.
    pub fn device_name(&self) -> (r: Option<String>) {
        self.transport.name()
    }

    /// Allow or forbid automatic rediscovery while the device is lost.
    pub fn set_reconnect(&mut self, reconnect: bool)
        requires
            old(self).wf(),
        ensures
            final(self).wf(),
            final(self).spec_reconnect() == reconnect,
            final(self).spec_lost() == old(self).spec_lost(),
            final(self).spec_loopback() == old(self).spec_loopback(),
            final(self).spec_has_audio() == old(self).spec_has_audio(),
            final(self).inbuf() == old(self).inbuf(),
            Self::ui_eq(*old(self), *final(self)),
            final(self).sent_log() == old(self).sent_log(),
    {
        self.reconnect = reconnect;
    }

    /// Whether the device is currently lost.
    pub fn disconnected(&self) -> (r: bool)
        ensures
            r == self.spec_lost(),
    {
        self.lost
    }

    /// Name of the attached capture device, if audio is connected.
    pub fn capture_device_name(&self) -> (r: Option<String>)
        ensures
            r is Some <==> self.spec_has_audio(),
    {
        match &self.audio {
            Some(a) => Some(a.name()),
            None => None,
        }
    }

    /// Attach a resumed audio collaborator and activate loopback.
    pub fn connect_audio(&mut self, audio: A)
        requires
            old(self).wf(),
        ensures
            final(self).wf(),
            final(self).spec_has_audio(),
            final(self).spec_loopback(),
            final(self).spec_lost() == old(self).spec_lost(),
            final(self).spec_reconnect() == old(self).spec_reconnect(),
            final(self).inbuf() == old(self).inbuf(),
            Self::ui_eq(*old(self), *final(self)),
            final(self).sent_log() == old(self).sent_log(),
    {
        let mut audio = audio;
        audio.resume();
        self.audio = Some(audio);
        self.loopback = true;
    }

    /// Toggle the audio collaborator, if one is attached.
    pub fn toggle_audio(&mut self)
        requires
            old(self).wf(),
        ensures
            final(self).wf(),
            final(self).spec_lost() == old(self).spec_lost(),
            final(self).spec_reconnect() == old(self).spec_reconnect(),
            final(self).spec_loopback() == old(self).spec_loopback(),
            final(self).spec_has_audio() == old(self).spec_has_audio(),
            final(self).inbuf() == old(self).inbuf(),
            Self::ui_eq(*old(self), *final(self)),
            final(self).sent_log() == old(self).sent_log(),
    {
        match &mut self.audio {
            Some(a) => a.toggle(),
            None => (),
        }
    }

    /// Re-open capture on the named device; a no-op while loopback is
    /// inactive or no collaborator is attached.
    pub fn reopen_audio(&mut self, name: String) -> (r: Result<(), String>)
        requires
            old(self).wf(),
        ensures
            final(self).wf(),
            final(self).spec_lost() == old(self).spec_lost(),
            final(self).spec_reconnect() == old(self).spec_reconnect(),
            final(self).spec_loopback() == old(self).spec_loopback(),
            final(self).spec_has_audio() == old(self).spec_has_audio(),
            final(self).inbuf() == old(self).inbuf(),
            Self::ui_eq(*old(self), *final(self)),
            !old(self).spec_loopback() ==> r is Ok,
            final(self).sent_log() == old(self).sent_log(),
    {
        if !self.loopback {
            return Ok(());
        }
        match &mut self.audio {
            Some(a) => a.reopen(name),
            None => Ok(()),
        }
    }

    /// A write to the device. Per policy a broken pipe is absorbed
    /// (the next read detects the loss) and other failures are only
    /// logged by the transport; an incomplete write is surfaced.
    fn write(&mut self, data: &Vec<u8>) -> (r: Result<(), Error>)
        requires
            old(self).wf(),
        ensures
            final(self).wf(),
            final(self).decoder == old(self).decoder,
            final(self).pending == old(self).pending,
            final(self).pos == old(self).pos,
            final(self).reconnect == old(self).reconnect,
            final(self).lost == old(self).lost,
            final(self).audio == old(self).audio,
            final(self).loopback == old(self).loopback,
            final(self).keyjazz == old(self).keyjazz,
            final(self).note == old(self).note,
            final(self).octave == old(self).octave,
            final(self).velocity == old(self).velocity,
            final(self).keys == old(self).keys,
            final(self).sent@ == old(self).sent@.push(data@),
            r is Err ==> r == Err::<(), Error>(Error::WriteFailed),
    {
        proof {
            self.sent@ = self.sent@.push(data@);
        }
        match self.transport.write_all(data) {
            Ok(()) => Ok(()),
            Err(WriteError::Incomplete) => Err(Error::WriteFailed),
            Err(WriteError::BrokenPipe) => Ok(()),
            Err(WriteError::Other(_)) => Ok(()),
        }
    }

    /// Send "enable and reset display".
    pub fn enable_and_reset_display(&mut self) -> (r: Result<(), Error>)
        requires
            old(self).wf(),
        ensures
            final(self).wf(),
            Self::flags_unchanged(*old(self), *final(self)),
            Self::ui_eq(*old(self), *final(self)),
            final(self).sent_log() == old(self).sent_log().push(enable_reset_msg()),
            r is Err ==> r == Err::<(), Error>(Error::WriteFailed),
    {
        let msg = enable_reset_message();
        self.write(&msg)
    }

    /// Send the best-effort disconnect notice.
    pub fn disconnect(&mut self) -> (r: Result<(), Error>)
        requires
            old(self).wf(),
        ensures
            final(self).wf(),
            Self::flags_unchanged(*old(self), *final(self)),
            Self::ui_eq(*old(self), *final(self)),
            final(self).sent_log() == old(self).sent_log().push(disconnect_msg()),
            r is Err ==> r == Err::<(), Error>(Error::WriteFailed),
    {
        let msg = disconnect_message();
        self.write(&msg)
    }

    /// Mark keyjazz-owned values dirty so they go out again with the
    /// next refresh, if keyjazz is active.
    fn refresh_keyjazz(&mut self)
        requires
            old(self).wf(),
        ensures
            final(self).wf(),
            final(self).transport == old(self).transport,
            final(self).decoder == old(self).decoder,
            final(self).pending == old(self).pending,
            final(self).pos == old(self).pos,
            final(self).reconnect == old(self).reconnect,
            final(self).lost == old(self).lost,
            final(self).audio == old(self).audio,
            final(self).loopback == old(self).loopback,
            final(self).keyjazz == old(self).keyjazz,
            final(self).note == old(self).note,
            final(self).keys == old(self).keys,
            final(self).sent == old(self).sent,
            final(self).velocity.value() == old(self).velocity.value(),
            final(self).octave.value() == old(self).octave.value(),
            old(self).keyjazz.value() ==> final(self).velocity.dirty() && final(self).octave.dirty(),
            !old(self).keyjazz.value() ==> final(self).velocity == old(self).velocity && final(self).octave == old(self).octave,
            old(self).velocity.dirty() ==> final(self).velocity.dirty(),
            old(self).octave.dirty() ==> final(self).octave.dirty(),
    {
        if self.keyjazz.get() {
            self.velocity.set_changed();
            self.octave.set_changed();
        }
    }

    /// Send "reset display"; with keyjazz active this also queues the
    /// velocity and octave for retransmission.
    pub fn reset_display(&mut self) -> (r: Result<(), Error>)
        requires
            old(self).wf(),
        ensures
            final(self).wf(),
            Self::flags_unchanged(*old(self), *final(self)),
            Self::same_values(*old(self), *final(self)),
            Self::dirty_monotone(*old(self), *final(self)),
            final(self).spec_keyjazz() == old(self).spec_keyjazz(),
            final(self).spec_note() == old(self).spec_note(),
            final(self).spec_keys() == old(self).spec_keys(),
            old(self).spec_keyjazz().value() ==> final(self).spec_velocity().dirty() && final(self).spec_octave().dirty(),
            !old(self).spec_keyjazz().value() ==> Self::ui_eq(*old(self), *final(self)),
            final(self).sent_log() == old(self).sent_log().push(reset_msg()),
            r is Err ==> r == Err::<(), Error>(Error::WriteFailed),
    {
        self.refresh_keyjazz();
        let msg = reset_message();
        self.write(&msg)
    }

    /// Replay the reset sequence: an optional disconnect notice and a
    /// settling pause, then "enable and reset display", with
    /// keyjazz-owned values queued for retransmission.
    pub fn reset(&mut self, disconnect: bool) -> (r: Result<(), Error>)
        requires
            old(self).wf(),
        ensures
            final(self).wf(),
            Self::flags_unchanged(*old(self), *final(self)),
            Self::same_values(*old(self), *final(self)),
            Self::dirty_monotone(*old(self), *final(self)),
            final(self).spec_keyjazz() == old(self).spec_keyjazz(),
            final(self).spec_note() == old(self).spec_note(),
            final(self).spec_keys() == old(self).spec_keys(),
            r is Ok && old(self).spec_keyjazz().value() ==> final(self).spec_velocity().dirty()
                && final(self).spec_octave().dirty(),
            !old(self).spec_keyjazz().value() ==> Self::ui_eq(*old(self), *final(self)),
            disconnect && r is Ok ==> final(self).sent_log() == old(self).sent_log() + seq![
                disconnect_msg(),
                enable_reset_msg(),
            ],
            disconnect && r is Err ==> final(self).sent_log() == old(self).sent_log().push(
                disconnect_msg(),
            ) || final(self).sent_log() == old(self).sent_log() + seq![
                disconnect_msg(),
                enable_reset_msg(),
            ],
            !disconnect ==> final(self).sent_log() == old(self).sent_log().push(
                enable_reset_msg(),
            ),
            r is Err ==> r == Err::<(), Error>(Error::WriteFailed),
    {
        if disconnect {
            match self.disconnect() {
                Ok(()) => (),
                Err(e) => {
                    return Err(e);
                },
            }
            self.transport.settle();
        }
        self.refresh_keyjazz();
        self.enable_and_reset_display()
    }

    /// Queue keyjazz-owned values for retransmission and release all
    /// held keys.
    pub fn refresh(&mut self)
        requires
            old(self).wf(),
        ensures
            final(self).wf(),
            Self::flags_unchanged(*old(self), *final(self)),
            Self::dirty_monotone(*old(self), *final(self)),
            final(self).spec_keyjazz() == old(self).spec_keyjazz(),
            final(self).spec_note() == old(self).spec_note(),
            final(self).spec_velocity().value() == old(self).spec_velocity().value(),
            final(self).spec_octave().value() == old(self).spec_octave().value(),
            old(self).spec_keyjazz().value() ==> final(self).spec_velocity().dirty() && final(self).spec_octave().dirty(),
            !old(self).spec_keyjazz().value() ==> final(self).spec_velocity() == old(self).spec_velocity() && final(self).spec_octave() == old(self).spec_octave(),
            final(self).spec_keys().value() == 0,
            final(self).spec_keys().dirty() == (old(self).spec_keys().dirty() || old(self).spec_keys().value() != 0),
            final(self).sent_log() == old(self).sent_log(),
    {
        self.refresh_keyjazz();
        self.keys.set(0);
    }

    /// Send the current note event: the note alone for note-off, note
    /// plus velocity otherwise.
    pub fn send_keyjazz(&mut self) -> (r: Result<(), Error>)
        requires
            old(self).wf(),
        ensures
            final(self).wf(),
            Self::flags_unchanged(*old(self), *final(self)),
            Self::ui_eq(*old(self), *final(self)),
            final(self).sent_log() == old(self).sent_log().push(
                keyjazz_msg(old(self).spec_note().value(), old(self).spec_velocity().value()),
            ),
            r is Err ==> r == Err::<(), Error>(Error::WriteFailed),
    {
        let msg = keyjazz_message(self.note.get(), self.velocity.get());
        self.write(&msg)
    }

    /// Send the current key bitmask.
    pub fn send_keys(&mut self) -> (r: Result<(), Error>)
        requires
            old(self).wf(),
        ensures
            final(self).wf(),
            Self::flags_unchanged(*old(self), *final(self)),
            Self::ui_eq(*old(self), *final(self)),
            final(self).sent_log() == old(self).sent_log().push(
                keys_msg(old(self).spec_keys().value()),
            ),
            r is Err ==> r == Err::<(), Error>(Error::WriteFailed),
    {
        let msg = keys_message(self.keys.get());
        self.write(&msg)
    }

    /// Step the octave down by one, clamped to the octave range.
    pub fn dec_octave(&mut self)
        requires
            old(self).wf(),
        ensures
            final(self).wf(),
            Self::flags_unchanged(*old(self), *final(self)),
            final(self).spec_keyjazz() == old(self).spec_keyjazz(),
            final(self).spec_note() == old(self).spec_note(),
            final(self).spec_velocity() == old(self).spec_velocity(),
            final(self).spec_keys() == old(self).spec_keys(),
            final(self).spec_octave().value() == (if old(self).spec_octave().value() - 1
                < MIN_OCTAVE {
                MIN_OCTAVE
            } else {
                (old(self).spec_octave().value() - 1) as u8
            }),
            final(self).spec_octave().dirty() == (old(self).spec_octave().dirty() || final(self).spec_octave().value() != old(self).spec_octave().value()),
            final(self).sent_log() == old(self).sent_log(),
    {
        self.octave.sub(1, MIN_OCTAVE);
    }

    /// Step the octave up by one, clamped to the octave range.
    pub fn inc_octave(&mut self)
        requires
            old(self).wf(),
        ensures
            final(self).wf(),
            Self::flags_unchanged(*old(self), *final(self)),
            final(self).spec_keyjazz() == old(self).spec_keyjazz(),
            final(self).spec_note() == old(self).spec_note(),
            final(self).spec_velocity() == old(self).spec_velocity(),
            final(self).spec_keys() == old(self).spec_keys(),
            final(self).spec_octave().value() == (if old(self).spec_octave().value() + 1
                > MAX_OCTAVE {
                MAX_OCTAVE
            } else {
                (old(self).spec_octave().value() + 1) as u8
            }),
            final(self).spec_octave().dirty() == (old(self).spec_octave().dirty() || final(self).spec_octave().value() != old(self).spec_octave().value()),
            final(self).sent_log() == old(self).sent_log(),
    {
        self.octave.add(1, MAX_OCTAVE);
    }

    /// Step the velocity down, by one or by a coarse step of 16,
    /// clamped to the velocity range.
    pub fn dec_velocity(&mut self, fast: bool)
        requires
            old(self).wf(),
        ensures
            final(self).wf(),
            Self::flags_unchanged(*old(self), *final(self)),
            final(self).spec_keyjazz() == old(self).spec_keyjazz(),
            final(self).spec_note() == old(self).spec_note(),
            final(self).spec_octave() == old(self).spec_octave(),
            final(self).spec_keys() == old(self).spec_keys(),
            final(self).spec_velocity().value() == (if old(self).spec_velocity().value() - (
            if fast {
                16int
            } else {
                1
            }) < MIN_VELOCITY {
                MIN_VELOCITY
            } else {
                (old(self).spec_velocity().value() - (if fast {
                    16int
                } else {
                    1
                })) as u8
            }),
            final(self).spec_velocity().dirty() == (old(self).spec_velocity().dirty() || final(self).spec_velocity().value() != old(self).spec_velocity().value()),
            final(self).sent_log() == old(self).sent_log(),
    {
        self.velocity.sub(if fast { 16 } else { 1 }, MIN_VELOCITY);
    }

    /// Step the velocity up, by one or by a coarse step of 16,
    /// clamped to the velocity range.
    pub fn inc_velocity(&mut self, fast: bool)
        requires
            old(self).wf(),
        ensures
            final(self).wf(),
            Self::flags_unchanged(*old(self), *final(self)),
            final(self).spec_keyjazz() == old(self).spec_keyjazz(),
            final(self).spec_note() == old(self).spec_note(),
            final(self).spec_octave() == old(self).spec_octave(),
            final(self).spec_keys() == old(self).spec_keys(),
            final(self).spec_velocity().value() == (if old(self).spec_velocity().value() + (
            if fast {
                16int
            } else {
                1
            }) > MAX_VELOCITY {
                MAX_VELOCITY
            } else {
                (old(self).spec_velocity().value() + (if fast {
                    16int
                } else {
                    1
                })) as u8
            }),
            final(self).spec_velocity().dirty() == (old(self).spec_velocity().dirty() || final(self).spec_velocity().value() != old(self).spec_velocity().value()),
            final(self).sent_log() == old(self).sent_log(),
    {
        self.velocity.add(if fast { 16 } else { 1 }, MAX_VELOCITY);
    }

    /// Store the note-off sentinel.
    pub fn set_note_off(&mut self)
        requires
            old(self).wf(),
        ensures
            final(self).wf(),
            Self::flags_unchanged(*old(self), *final(self)),
            final(self).spec_keyjazz() == old(self).spec_keyjazz(),
            final(self).spec_octave() == old(self).spec_octave(),
            final(self).spec_velocity() == old(self).spec_velocity(),
            final(self).spec_keys() == old(self).spec_keys(),
            final(self).spec_note().value() == NOTE_OFF,
            final(self).spec_note().dirty() == (old(self).spec_note().dirty() || old(self).spec_note().value() != NOTE_OFF),
            final(self).sent_log() == old(self).sent_log(),
    {
        self.note.set(NOTE_OFF);
    }

    /// Store the note to transmit: the requested scale degree plus
    /// twelve semitones per octave.
    pub fn set_note(&mut self, note: u8)
        requires
            old(self).wf(),
            note + old(self).spec_octave().value() * 12 <= u8::MAX,
        ensures
            final(self).wf(),
            Self::flags_unchanged(*old(self), *final(self)),
            final(self).spec_keyjazz() == old(self).spec_keyjazz(),
            final(self).spec_octave() == old(self).spec_octave(),
            final(self).spec_velocity() == old(self).spec_velocity(),
            final(self).spec_keys() == old(self).spec_keys(),
            final(self).spec_note().value() == note + old(self).spec_octave().value() * 12,
            final(self).spec_note().dirty() == (old(self).spec_note().dirty() || old(self).spec_note().value() != note + old(self).spec_octave().value() * 12),
            final(self).sent_log() == old(self).sent_log(),
    {
        let transmitted = note + self.octave.get() * 12;
        self.note.set(transmitted);
    }

    /// Decode buffered raw bytes until a frame completes or the bytes
    /// run out; exactly a first-frame scan of the decoder model.
    #[verifier::loop_isolation(false)]
    fn pump(&mut self) -> (r: Option<Vec<u8>>)
        requires
            old(self).wf(),
        ensures
            final(self).wf(),
            final(self).transport == old(self).transport,
            final(self).reconnect == old(self).reconnect,
            final(self).lost == old(self).lost,
            final(self).audio == old(self).audio,
            final(self).loopback == old(self).loopback,
            final(self).keyjazz == old(self).keyjazz,
            final(self).note == old(self).note,
            final(self).octave == old(self).octave,
            final(self).velocity == old(self).velocity,
            final(self).keys == old(self).keys,
            final(self).sent == old(self).sent,
            ({
                let res = scan(old(self).decoder@, old(self).pending@.skip(old(self).pos as int));
                &&& final(self).decoder@ == res.state
                &&& (match r {
                    Some(f) => res.frame == Some(f@),
                    None => res.frame is None,
                })
                &&& final(self).pending@.skip(final(self).pos as int) == old(self).pending@.skip(
                    old(self).pos as int,
                ).skip(res.used)
            }),
    {
        let ghost s0 = self.decoder@;
        let ghost p0 = self.pending@;
        let ghost pos0 = self.pos as int;
        let ghost input = p0.skip(pos0);
        while self.pos < self.pending.len()
            invariant
                self.decoder@.wf(),
                self.pos <= self.pending@.len(),
                self.pending@ == p0,
                pos0 <= self.pos as int,
                self.transport == old(self).transport,
                self.reconnect == old(self).reconnect,
                self.lost == old(self).lost,
                self.audio == old(self).audio,
                self.loopback == old(self).loopback,
                self.keyjazz == old(self).keyjazz,
                self.note == old(self).note,
                self.octave == old(self).octave,
                self.velocity == old(self).velocity,
                self.keys == old(self).keys,
                self.sent == old(self).sent,
                scan(s0, input).frame == scan(self.decoder@, p0.skip(self.pos as int)).frame,
                scan(s0, input).state == scan(self.decoder@, p0.skip(self.pos as int)).state,
                scan(s0, input).used == (self.pos as int - pos0) + scan(
                    self.decoder@,
                    p0.skip(self.pos as int),
                ).used,
            decreases self.pending@.len() - self.pos,
        {
            let ghost dec_old = self.decoder@;
            let ghost cur = p0.skip(self.pos as int);
            let b = self.pending[self.pos];
            proof {
                assert(cur.len() > 0);
                assert(cur[0] == b);
                assert(cur.skip(1) =~= p0.skip(self.pos as int + 1));
            }
            let fr = self.decoder.feed(b);
            self.pos = self.pos + 1;
            match fr {
                Some(f) => {
                    proof {
                        assert(scan(dec_old, cur).frame == Some(f@));
                        assert(scan(dec_old, cur).state == self.decoder@);
                        assert(scan(dec_old, cur).used == 1);
                        let res = scan(s0, input);
                        assert(res.frame == Some(f@));
                        assert(res.state == self.decoder@);
                        assert(res.used == self.pos as int - pos0);
                        assert(input.skip(res.used) =~= p0.skip(self.pos as int));
                    }
                    return Some(f);
                },
                None => {
                    proof {
                        assert(scan(dec_old, cur).frame == scan(
                            self.decoder@,
                            cur.skip(1),
                        ).frame);
                        assert(scan(dec_old, cur).state == scan(
                            self.decoder@,
                            cur.skip(1),
                        ).state);
                        assert(scan(dec_old, cur).used == 1 + scan(
                            self.decoder@,
                            cur.skip(1),
                        ).used);
                    }
                },
            }
        }
        proof {
            assert(p0.skip(self.pos as int) =~= Seq::<u8>::empty());
            let res = scan(s0, input);
            assert(res.frame is None);
            assert(res.state == self.decoder@);
            assert(res.used == self.pos as int - pos0);
            assert(res.used == input.len());
        }
        self.pending.clear();
        self.pos = 0;
        proof {
            assert(self.pending@.skip(0) =~= Seq::<u8>::empty());
            assert(input.skip(scan(s0, input).used) =~= Seq::<u8>::empty());
        }
        None
    }

    /// Map a completed frame to the caller's result.
    fn dispatch(frame: &Vec<u8>) -> (r: Result<Option<Command>, Error>)
        ensures
            frame_outcome(frame@, r),
            r is Ok <==> frame_ok(frame@),
            r matches Ok(Some(c)) ==> command_matches_frame(c, frame@),
            r matches Err(e) ==> e matches Error::Protocol(_),
    {
        match parse(frame.as_slice()) {
            Ok(c) => Ok(c),
            Err(v) => Err(Error::Protocol(v)),
        }
    }

    /// While lost and allowed to, try to rebind to a rediscovered
    /// device; on success replay the reset sequence and queue keyjazz
    /// state for retransmission.
    fn try_reconnect(&mut self) -> (r: Result<(), Error>)
        requires
            old(self).wf(),
        ensures
            final(self).wf(),
            final(self).reconnect == old(self).reconnect,
            final(self).spec_loopback() == old(self).spec_loopback(),
            final(self).spec_has_audio() == old(self).spec_has_audio(),
            final(self).inbuf() == old(self).inbuf(),
            final(self).note == old(self).note,
            final(self).keys == old(self).keys,
            Self::same_values(*old(self), *final(self)),
            Self::dirty_monotone(*old(self), *final(self)),
            final(self).lost ==> old(self).lost,
            !(old(self).lost && old(self).reconnect) ==> *final(self) == *old(self) && r == Ok::<
                (),
                Error,
            >(()),
            old(self).lost && old(self).reconnect && final(self).lost ==> final(self).keyjazz
                == old(self).keyjazz && final(self).velocity == old(self).velocity && final(self).octave == old(self).octave && r == Ok::<(), Error>(()),
            r is Err ==> r == Err::<(), Error>(Error::WriteFailed),
            old(self).lost && !final(self).lost && r is Ok && old(self).keyjazz.value() ==> final(self).keyjazz.dirty() && final(self).velocity.dirty() && final(self).octave.dirty(),
            final(self).lost ==> final(self).sent == old(self).sent,
            old(self).lost && !final(self).lost && r is Ok ==> final(self).sent@ == old(self).sent@ + seq![disconnect_msg(), enable_reset_msg()],
            old(self).lost && !final(self).lost && r is Err ==> final(self).sent@ == old(self).sent@.push(disconnect_msg()) || final(self).sent@ == old(self).sent@ + seq![
                disconnect_msg(),
                enable_reset_msg(),
            ],
    {
        if self.reconnect && self.lost {
            if self.transport.reconnect() {
                self.lost = false;
                match self.reset(true) {
                    Ok(()) => (),
                    Err(e) => {
                        return Err(e);
                    },
                }
                if self.keyjazz.get() {
                    self.keyjazz.set_changed();
                }
            }
        }
        Ok(())
    }

    /// Poll the session once. While connected this decodes at most
    /// one inbound frame into a command; a broken-pipe read silently
    /// parks the session in the lost state, and while lost (with
    /// reconnection enabled) each poll retries discovery instead.
    pub fn read(&mut self) -> (r: Result<Option<Command>, Error>)
        requires
            old(self).wf(),
        ensures
            final(self).wf(),
            final(self).spec_reconnect() == old(self).spec_reconnect(),
            final(self).spec_loopback() == old(self).spec_loopback(),
            final(self).spec_has_audio() == old(self).spec_has_audio(),
            Self::same_values(*old(self), *final(self)),
            Self::dirty_monotone(*old(self), *final(self)),
            old(self).spec_lost() && !old(self).spec_reconnect() ==> r == Ok::<
                Option<Command>,
                Error,
            >(None) && final(self).spec_lost() && Self::ui_eq(*old(self), *final(self)) && final(self).inbuf() == old(self).inbuf() && final(self).sent_log() == old(self).sent_log(),
            final(self).spec_lost() ==> r == Ok::<Option<Command>, Error>(None),
            !old(self).spec_lost() ==> Self::ui_eq(*old(self), *final(self)),
            old(self).spec_lost() && !final(self).spec_lost() && r is Ok && old(self).spec_keyjazz().value() ==> final(self).spec_keyjazz().dirty() && final(self).spec_velocity().dirty() && final(self).spec_octave().dirty(),
            !old(self).spec_lost() ==> final(self).sent_log() == old(self).sent_log(),
            old(self).spec_lost() && final(self).spec_lost() ==> final(self).sent_log() == old(self).sent_log() || final(self).sent_log() == old(self).sent_log() + seq![
                disconnect_msg(),
                enable_reset_msg(),
            ],
            old(self).spec_lost() && !final(self).spec_lost() && r is Ok ==> final(self).sent_log() == old(self).sent_log() + seq![disconnect_msg(), enable_reset_msg()],
            !old(self).spec_lost() ==> ({
                let res = scan(old(self).inbuf().0, old(self).inbuf().1);
                res.frame matches Some(f) ==> {
                    &&& frame_outcome(f, r)
                    &&& final(self).inbuf() == (res.state, old(self).inbuf().1.skip(res.used))
                }
            }),
            r matches Ok(Some(c)) ==> exists|f: Seq<u8>|
                #[trigger] command_matches_frame(c, f) && frame_ok(f),
            r matches Err(e) ==> (e matches Error::Protocol(_)) || (e matches Error::ReadFailed(
                _,
            )) || e == Error::WriteFailed,
    {
        match self.try_reconnect() {
            Ok(()) => (),
            Err(e) => {
                return Err(e);
            },
        }
        if self.lost {
            return Ok(None);
        }
        let first = self.pump();
        match first {
            Some(f) => {
                return Self::dispatch(&f);
            },
            None => (),
        }
        let event = self.transport.read_chunk();
        self.on_read_event(event)
    }

    /// The connected session's reaction to one transport read event.
    /// This is the read side of the connection state machine, stated
    /// for every event: fresh bytes are decoded (at most one frame per
    /// call), a broken pipe silently parks the session in the lost
    /// state, and any other failure is surfaced verbatim; nothing is
    /// ever written.
    pub fn on_read_event(&mut self, event: Result<Vec<u8>, ReadError>) -> (r: Result<
        Option<Command>,
        Error,
    >)
        requires
            old(self).wf(),
            !old(self).spec_lost(),
        ensures
            final(self).wf(),
            final(self).spec_reconnect() == old(self).spec_reconnect(),
            final(self).spec_loopback() == old(self).spec_loopback(),
            final(self).spec_has_audio() == old(self).spec_has_audio(),
            Self::ui_eq(*old(self), *final(self)),
            final(self).sent_log() == old(self).sent_log(),
            event matches Err(ReadError::BrokenPipe) ==> final(self).spec_lost() && r == Ok::<
                Option<Command>,
                Error,
            >(None) && final(self).inbuf() == old(self).inbuf(),
            event matches Err(ReadError::Other(msg)) ==> !final(self).spec_lost() && r == Err::<
                Option<Command>,
                Error,
            >(Error::ReadFailed(msg)) && final(self).inbuf() == old(self).inbuf(),
            event matches Ok(bytes) ==> !final(self).spec_lost() && ({
                let input = old(self).inbuf().1 + bytes@;
                let res = scan(old(self).inbuf().0, input);
                &&& final(self).inbuf() == (res.state, input.skip(res.used))
                &&& (match res.frame {
                    Some(f) => frame_outcome(f, r),
                    None => r == Ok::<Option<Command>, Error>(None),
                })
            }),
            r matches Ok(Some(c)) ==> exists|f: Seq<u8>|
                #[trigger] command_matches_frame(c, f) && frame_ok(f),
    {
        match event {
            Err(ReadError::BrokenPipe) => {
                self.lost = true;
                Ok(None)
            },
            Err(ReadError::Other(msg)) => Err(Error::ReadFailed(msg)),
            Ok(bytes) => {
                let ghost remnant = self.pending@.skip(self.pos as int);
                let mut bytes = bytes;
                let ghost fresh = bytes@;
                self.pending.append(&mut bytes);
                proof {
                    assert(self.pending@.skip(self.pos as int) =~= remnant + fresh);
                }
                match self.pump() {
                    Some(f) => Self::dispatch(&f),
                    None => Ok(None),
                }
            },
        }
    }
}

/// Bytes of an outbound note event: command byte and note, with a
/// velocity byte only for a note-on.
pub fn keyjazz_message(note: u8, velocity: u8) -> (r: Vec<u8>)
    ensures
        r@ == keyjazz_msg(note, velocity),
{
    let mut r: Vec<u8> = Vec::new();
    r.push(NOTE_CMD);
    r.push(note);
    if note != NOTE_OFF {
        r.push(velocity);
        proof {
            assert(r@ =~= seq![NOTE_CMD, note, velocity]);
        }
    } else {
        proof {
            assert(r@ =~= seq![NOTE_CMD, NOTE_OFF]);
        }
    }
    r
}

/// Bytes of an outbound key-state event.
pub fn keys_message(keys: u8) -> (r: Vec<u8>)
    ensures
        r@ == keys_msg(keys),
{
    let mut r: Vec<u8> = Vec::new();
    r.push(KEYS_CMD);
    r.push(keys);
    proof {
        assert(r@ =~= seq![KEYS_CMD, keys]);
    }
    r
}

/// Bytes of the "enable and reset display" command.
pub fn enable_reset_message() -> (r: Vec<u8>)
    ensures
        r@ == enable_reset_msg(),
{
    let mut r: Vec<u8> = Vec::new();
    r.push(ENABLE_CMD);
    r.push(RESET_CMD);
    proof {
        assert(r@ =~= seq![ENABLE_CMD, RESET_CMD]);
    }
    r
}

/// Bytes of the "reset display" command.
pub fn reset_message() -> (r: Vec<u8>)
    ensures
        r@ == reset_msg(),
{
    let mut r: Vec<u8> = Vec::new();
    r.push(RESET_CMD);
    proof {
        assert(r@ =~= seq![RESET_CMD]);
    }
    r
}

/// Bytes of the disconnect notice.
pub fn disconnect_message() -> (r: Vec<u8>)
    ensures
        r@ == disconnect_msg(),
{
    let mut r: Vec<u8> = Vec::new();
    r.push(DISCONNECT_CMD);
    proof {
        assert(r@ =~= seq![DISCONNECT_CMD]);
    }
    r
}

/// Capture devices offered for loopback selection.
pub fn list_capture_devices() -> (r: Result<Vec<String>, String>)
    ensures
        r matches Ok(names) && names@.len() == 1 && names@[0]@ == "M8 Analog Stereo"@,
{
    let mut names: Vec<String> = Vec::new();
    names.push("M8 Analog Stereo".to_owned());
    Ok(names)
}

} // verus!
