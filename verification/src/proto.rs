//! The device-to-host display command protocol: a decoded frame is
//! validated against the exact length its leading command byte
//! demands, and turned into a typed `Command`.

use vstd::prelude::*;

verus! {

pub const JOYPAD_CMD: u8 = 0xFB;

pub const WAVEFORM_CMD: u8 = 0xFC;

pub const CHARACTER_CMD: u8 = 0xFD;

pub const RECTANGLE_CMD: u8 = 0xFE;

pub const SCREEN_WIDTH: u32 = 320;

pub const SCREEN_HEIGHT: u32 = 240;

pub const WAVEFORM_HEIGHT: u32 = 22;

/// One decoded display command from the device.
pub enum Command {
    /// Acknowledgment of a button-state frame; carries no renderable
    /// payload.
    Joypad(u8),
    /// A color and either no samples or one amplitude sample per
    /// screen column.
    Waveform((u8, u8, u8), Vec<u8>),
    /// Glyph, position, foreground and background colors.
    Character(u8, u16, u16, (u8, u8, u8), (u8, u8, u8)),
    /// Position, size and fill color.
    Rectangle(u16, u16, u16, u16, (u8, u8, u8)),
}

/// A malformed frame: non-fatal, surfaced to the caller and forgotten.
#[derive(Debug)]
pub enum Violation {
    /// A frame boundary arrived with no bytes in the frame.
    EmptyFrame,
    /// The frame's length does not match what its command byte
    /// demands; carries the command byte and the offending length.
    WrongLength(u8, usize),
    /// The leading byte is no known command.
    UnknownCommand(u8),
}

/// A little-endian 16-bit value from its two bytes.
pub open spec fn le16(lo: u8, hi: u8) -> u16 {
    (lo + hi * 256) as u16
}

/// Read a little-endian 16-bit value from a two-byte slice.
pub fn read16(bytes: &[u8]) -> (r: u16)
    requires
        bytes@.len() == 2,
    ensures
        r == le16(bytes@[0], bytes@[1]),
{
    bytes[0] as u16 + bytes[1] as u16 * 256
}

/// Whether a frame is a valid command or acknowledgment.
pub open spec fn frame_ok(f: Seq<u8>) -> bool {
    &&& f.len() > 0
    &&& {
        ||| f[0] == JOYPAD_CMD && f.len() == 3
        ||| f[0] == WAVEFORM_CMD && (f.len() == 4 || f.len() == 324)
        ||| f[0] == CHARACTER_CMD && f.len() == 12
        ||| f[0] == RECTANGLE_CMD && f.len() == 12
    }
}

/// Whether `c` is exactly the command a well-formed frame `f` decodes
/// to. Joypad frames yield no command, so no command stands for one.
pub open spec fn command_matches_frame(c: Command, f: Seq<u8>) -> bool {
    match c {
        Command::Joypad(_) => false,
        Command::Waveform(color, samples) => {
            &&& f.len() == 4 || f.len() == 324
            &&& f[0] == WAVEFORM_CMD
            &&& color == (f[1], f[2], f[3])
            &&& samples@ == f.skip(4)
        },
        Command::Character(glyph, x, y, fg, bg) => {
            &&& f.len() == 12
            &&& f[0] == CHARACTER_CMD
            &&& glyph == f[1]
            &&& x == le16(f[2], f[3])
            &&& y == le16(f[4], f[5])
            &&& fg == (f[6], f[7], f[8])
            &&& bg == (f[9], f[10], f[11])
        },
        Command::Rectangle(x, y, w, h, color) => {
            &&& f.len() == 12
            &&& f[0] == RECTANGLE_CMD
            &&& x == le16(f[1], f[2])
            &&& y == le16(f[3], f[4])
            &&& w == le16(f[5], f[6])
            &&& h == le16(f[7], f[8])
            &&& color == (f[9], f[10], f[11])
        },
    }
}

/// `r` is exactly the result `parse` owes for the frame `f`: one
/// branch per leading byte and length, two-directional, so a caller's
/// clause over this function forces the command or the precise
/// violation.
pub open spec fn parse_outcome(f: Seq<u8>, r: Result<Option<Command>, Violation>) -> bool {
    if f.len() == 0 {
        r == Err::<Option<Command>, Violation>(Violation::EmptyFrame)
    } else if f[0] == JOYPAD_CMD {
        if f.len() == 3 {
            r == Ok::<Option<Command>, Violation>(None)
        } else {
            r == Err::<Option<Command>, Violation>(
                Violation::WrongLength(JOYPAD_CMD, f.len() as usize),
            )
        }
    } else if f[0] == WAVEFORM_CMD {
        if f.len() == 4 || f.len() == 324 {
            r matches Ok(Some(Command::Waveform(color, samples))) && color == (f[1], f[2], f[3])
                && samples@ == f.skip(4)
        } else {
            r == Err::<Option<Command>, Violation>(
                Violation::WrongLength(WAVEFORM_CMD, f.len() as usize),
            )
        }
    } else if f[0] == CHARACTER_CMD {
        if f.len() == 12 {
            r == Ok::<Option<Command>, Violation>(
                Some(
                    Command::Character(
                        f[1],
                        le16(f[2], f[3]),
                        le16(f[4], f[5]),
                        (f[6], f[7], f[8]),
                        (f[9], f[10], f[11]),
                    ),
                ),
            )
        } else {
            r == Err::<Option<Command>, Violation>(
                Violation::WrongLength(CHARACTER_CMD, f.len() as usize),
            )
        }
    } else if f[0] == RECTANGLE_CMD {
        if f.len() == 12 {
            r == Ok::<Option<Command>, Violation>(
                Some(
                    Command::Rectangle(
                        le16(f[1], f[2]),
                        le16(f[3], f[4]),
                        le16(f[5], f[6]),
                        le16(f[7], f[8]),
                        (f[9], f[10], f[11]),
                    ),
                ),
            )
        } else {
            r == Err::<Option<Command>, Violation>(
                Violation::WrongLength(RECTANGLE_CMD, f.len() as usize),
            )
        }
    } else {
        r == Err::<Option<Command>, Violation>(Violation::UnknownCommand(f[0]))
    }
}

/// Map a decoded frame to its command, enforcing the exact frame
/// length each command byte demands. A valid joypad frame is an
/// acknowledgment and yields no renderable command.
pub fn parse(frame: &[u8]) -> (r: Result<Option<Command>, Violation>)
    ensures
        parse_outcome(frame@, r),
        r is Ok <==> frame_ok(frame@),
        r matches Ok(Some(c)) ==> command_matches_frame(c, frame@),
{
    let n = frame.len();
    if n == 0 {
        return Err(Violation::EmptyFrame);
    }
    let cmd = frame[0];
    if cmd == JOYPAD_CMD {
        if n == 3 {
            Ok(None)
        } else {
            Err(Violation::WrongLength(JOYPAD_CMD, n))
        }
    } else if cmd == WAVEFORM_CMD {
        if n == 4 || n == 324 {
            let color = (frame[1], frame[2], frame[3]);
            let mut samples: Vec<u8> = Vec::new();
            let mut i: usize = 4;
            while i < n
                invariant
                    4 <= i <= n,
                    n == frame@.len(),
                    samples@ == frame@.subrange(4, i as int),
                decreases n - i,
            {
                samples.push(frame[i]);
                proof {
                    assert(frame@.subrange(4, i + 1) =~= frame@.subrange(4, i as int).push(
                        frame@[i as int],
                    ));
                }
                i = i + 1;
            }
            proof {
                assert(samples@ =~= frame@.skip(4));
            }
            Ok(Some(Command::Waveform(color, samples)))
        } else {
            Err(Violation::WrongLength(WAVEFORM_CMD, n))
        }
    } else if cmd == CHARACTER_CMD {
        if n == 12 {
            Ok(
                Some(
                    Command::Character(
                        frame[1],
                        read16(vstd::slice::slice_subrange(frame, 2, 4)),
                        read16(vstd::slice::slice_subrange(frame, 4, 6)),
                        (frame[6], frame[7], frame[8]),
                        (frame[9], frame[10], frame[11]),
                    ),
                ),
            )
        } else {
            Err(Violation::WrongLength(CHARACTER_CMD, n))
        }
    } else if cmd == RECTANGLE_CMD {
        if n == 12 {
            Ok(
                Some(
                    Command::Rectangle(
                        read16(vstd::slice::slice_subrange(frame, 1, 3)),
                        read16(vstd::slice::slice_subrange(frame, 3, 5)),
                        read16(vstd::slice::slice_subrange(frame, 5, 7)),
                        read16(vstd::slice::slice_subrange(frame, 7, 9)),
                        (frame[9], frame[10], frame[11]),
                    ),
                ),
            )
        } else {
            Err(Violation::WrongLength(RECTANGLE_CMD, n))
        }
    } else {
        Err(Violation::UnknownCommand(cmd))
    }
}

} // verus!
