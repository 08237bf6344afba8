//! Control protocol between the daemon and an out-of-process screensaver.
//!
//! Every message is one tag byte followed by a fixed-size little-endian
//! payload that depends on the tag alone, so a reader always knows how many
//! bytes a message takes once it has seen the tag.
use vstd::bytes::*;
use vstd::prelude::*;
use vstd::slice::slice_subrange;

verus! {

/// Commands sent from the daemon to a screensaver process.
#[derive(Clone, Copy, Debug, PartialEq, Eq)]
pub enum IpcCommand {
    /// Initialise the grid with the given size.
    Init { cols: u32, rows: u32 },
    /// Advance the simulation by `dt_micros` and draw one frame.
    TickAndDraw { dt_micros: u64 },
    /// Set the simulation rate; `hz_bits` is the IEEE-754 bit pattern of the rate in Hz.
    SetSimulationRate { hz_bits: u32 },
    /// Stop and exit.
    Stop,
}

/// Replies sent from a screensaver process to the daemon.
#[derive(Clone, Copy, Debug, PartialEq, Eq)]
pub enum IpcResponse {
    Ready,
    FrameReady { scanlines: bool },
    Ack,
}

/// Why a byte sequence is not a message.
#[derive(Clone, Copy, Debug, PartialEq, Eq)]
pub enum ProtocolError {
    /// The input ended before the message did.
    Truncated,
    /// The first byte names no message.
    UnknownTag(u8),
    /// A flag byte was neither 0 nor 1.
    InvalidFlag(u8),
}

pub const TAG_INIT: u8 = 0;
pub const TAG_TICK_AND_DRAW: u8 = 1;
pub const TAG_SET_SIMULATION_RATE: u8 = 2;
pub const TAG_STOP: u8 = 3;

pub const TAG_READY: u8 = 0;
pub const TAG_FRAME_READY: u8 = 1;
pub const TAG_ACK: u8 = 2;

/// The bytes that encode `c`.
pub open spec fn command_bytes(c: IpcCommand) -> Seq<u8> {
    match c {
        IpcCommand::Init { cols, rows } => seq![TAG_INIT] + spec_u32_to_le_bytes(cols)
            + spec_u32_to_le_bytes(rows),
        IpcCommand::TickAndDraw { dt_micros } => seq![TAG_TICK_AND_DRAW] + spec_u64_to_le_bytes(
            dt_micros,
        ),
        IpcCommand::SetSimulationRate { hz_bits } => seq![TAG_SET_SIMULATION_RATE]
            + spec_u32_to_le_bytes(hz_bits),
        IpcCommand::Stop => seq![TAG_STOP],
    }
}

/// Total length of a command message whose first byte is `tag`, if `tag` names a command.
pub open spec fn command_len_for_tag(tag: u8) -> Option<nat> {
    if tag == TAG_INIT {
        Some(9)
    } else if tag == TAG_TICK_AND_DRAW {
        Some(9)
    } else if tag == TAG_SET_SIMULATION_RATE {
        Some(5)
    } else if tag == TAG_STOP {
        Some(1)
    } else {
        None
    }
}

/// The command at the front of `s` (bytes after it are ignored), or why there is none.
pub open spec fn parse_command(s: Seq<u8>) -> Result<IpcCommand, ProtocolError> {
    if s.len() == 0 {
        Err(ProtocolError::Truncated)
    } else {
        match command_len_for_tag(s[0]) {
            None => Err(ProtocolError::UnknownTag(s[0])),
            Some(n) => if s.len() < n {
                Err(ProtocolError::Truncated)
            } else if s[0] == TAG_INIT {
                Ok(
                    IpcCommand::Init {
                        cols: spec_u32_from_le_bytes(s.subrange(1, 5)),
                        rows: spec_u32_from_le_bytes(s.subrange(5, 9)),
                    },
                )
            } else if s[0] == TAG_TICK_AND_DRAW {
                Ok(IpcCommand::TickAndDraw { dt_micros: spec_u64_from_le_bytes(s.subrange(1, 9)) })
            } else if s[0] == TAG_SET_SIMULATION_RATE {
                Ok(IpcCommand::SetSimulationRate { hz_bits: spec_u32_from_le_bytes(s.subrange(1, 5)) })
            } else {
                Ok(IpcCommand::Stop)
            },
        }
    }
}

/// The bytes that encode `r`.
pub open spec fn response_bytes(r: IpcResponse) -> Seq<u8> {
    match r {
        IpcResponse::Ready => seq![TAG_READY],
        IpcResponse::FrameReady { scanlines } => seq![
            TAG_FRAME_READY,
            if scanlines {
                1u8
            } else {
                0u8
            },
        ],
        IpcResponse::Ack => seq![TAG_ACK],
    }
}

/// Total length of a response message whose first byte is `tag`, if `tag` names a response.
pub open spec fn response_len_for_tag(tag: u8) -> Option<nat> {
    if tag == TAG_READY {
        Some(1)
    } else if tag == TAG_FRAME_READY {
        Some(2)
    } else if tag == TAG_ACK {
        Some(1)
    } else {
        None
    }
}

/// The response at the front of `s` (bytes after it are ignored), or why there is none.
pub open spec fn parse_response(s: Seq<u8>) -> Result<IpcResponse, ProtocolError> {
    if s.len() == 0 {
        Err(ProtocolError::Truncated)
    } else {
        match response_len_for_tag(s[0]) {
            None => Err(ProtocolError::UnknownTag(s[0])),
            Some(n) => if s.len() < n {
                Err(ProtocolError::Truncated)
            } else if s[0] == TAG_FRAME_READY {
                if s[1] == 0 {
                    Ok(IpcResponse::FrameReady { scanlines: false })
                } else if s[1] == 1 {
                    Ok(IpcResponse::FrameReady { scanlines: true })
                } else {
                    Err(ProtocolError::InvalidFlag(s[1]))
                }
            } else if s[0] == TAG_READY {
                Ok(IpcResponse::Ready)
            } else {
                Ok(IpcResponse::Ack)
            },
        }
    }
}

/// Appends the bytes of a `u32` in little-endian order.
fn push_u32_le(out: &mut Vec<u8>, x: u32)
    ensures
        final(out)@ == old(out)@ + spec_u32_to_le_bytes(x),
{
    let mut bytes = u32_to_le_bytes(x);
    out.append(&mut bytes);
}

/// Appends the bytes of a `u64` in little-endian order.
fn push_u64_le(out: &mut Vec<u8>, x: u64)
    ensures
        final(out)@ == old(out)@ + spec_u64_to_le_bytes(x),
{
    let mut bytes = u64_to_le_bytes(x);
    out.append(&mut bytes);
}

/// Exact message length for a command tag, for readers that frame a byte stream.
pub fn command_frame_len(tag: u8) -> (n: Option<usize>)
    ensures
        match command_len_for_tag(tag) {
            Some(k) => n == Some(k as usize),
            None => n is None,
        },
{
    if tag == TAG_INIT {
        Some(9)
    } else if tag == TAG_TICK_AND_DRAW {
        Some(9)
    } else if tag == TAG_SET_SIMULATION_RATE {
        Some(5)
    } else if tag == TAG_STOP {
        Some(1)
    } else {
        None
    }
}

/// Exact message length for a response tag, for readers that frame a byte stream.
pub fn response_frame_len(tag: u8) -> (n: Option<usize>)
    ensures
        match response_len_for_tag(tag) {
            Some(k) => n == Some(k as usize),
            None => n is None,
        },
{
    if tag == TAG_READY {
        Some(1)
    } else if tag == TAG_FRAME_READY {
        Some(2)
    } else if tag == TAG_ACK {
        Some(1)
    } else {
        None
    }
}

impl IpcCommand {
    /// Appends the encoding of this command to `out`; writing to memory never fails.
    pub fn write_to(&self, out: &mut Vec<u8>) -> (r: Result<(), ProtocolError>)
        ensures
            r is Ok,
            final(out)@ == old(out)@ + command_bytes(*self),
    {
        match *self {
            IpcCommand::Init { cols, rows } => {
                out.push(TAG_INIT);
                push_u32_le(out, cols);
                push_u32_le(out, rows);
            },
            IpcCommand::TickAndDraw { dt_micros } => {
                out.push(TAG_TICK_AND_DRAW);
                push_u64_le(out, dt_micros);
            },
            IpcCommand::SetSimulationRate { hz_bits } => {
                out.push(TAG_SET_SIMULATION_RATE);
                push_u32_le(out, hz_bits);
            },
            IpcCommand::Stop => {
                out.push(TAG_STOP);
            },
        }
        assert(out@ =~= old(out)@ + command_bytes(*self));
        Ok(())
    }

    /// Decodes the command at the front of `bytes`.
    pub fn read_from(bytes: &[u8]) -> (r: Result<IpcCommand, ProtocolError>)
        ensures
            r == parse_command(bytes@),
    {
        if bytes.len() == 0 {
            return Err(ProtocolError::Truncated);
        }
        let tag = bytes[0];
        let n = match command_frame_len(tag) {
            None => return Err(ProtocolError::UnknownTag(tag)),
            Some(n) => n,
        };
        if bytes.len() < n {
            return Err(ProtocolError::Truncated);
        }
        if tag == TAG_INIT {
            let cols = u32_from_le_bytes(slice_subrange(bytes, 1, 5));
            let rows = u32_from_le_bytes(slice_subrange(bytes, 5, 9));
            Ok(IpcCommand::Init { cols, rows })
        } else if tag == TAG_TICK_AND_DRAW {
            let dt_micros = u64_from_le_bytes(slice_subrange(bytes, 1, 9));
            Ok(IpcCommand::TickAndDraw { dt_micros })
        } else if tag == TAG_SET_SIMULATION_RATE {
            let hz_bits = u32_from_le_bytes(slice_subrange(bytes, 1, 5));
            Ok(IpcCommand::SetSimulationRate { hz_bits })
        } else {
            Ok(IpcCommand::Stop)
        }
    }
}

impl IpcResponse {
    /// Appends the encoding of this response to `out`; writing to memory never fails.
    pub fn write_to(&self, out: &mut Vec<u8>) -> (r: Result<(), ProtocolError>)
        ensures
            r is Ok,
            final(out)@ == old(out)@ + response_bytes(*self),
    {
        match *self {
            IpcResponse::Ready => {
                out.push(TAG_READY);
            },
            IpcResponse::FrameReady { scanlines } => {
                out.push(TAG_FRAME_READY);
                out.push(
                    if scanlines {
                        1u8
                    } else {
                        0u8
                    },
                );
            },
            IpcResponse::Ack => {
                out.push(TAG_ACK);
            },
        }
        assert(out@ =~= old(out)@ + response_bytes(*self));
        Ok(())
    }

    /// Decodes the response at the front of `bytes`.
    pub fn read_from(bytes: &[u8]) -> (r: Result<IpcResponse, ProtocolError>)
        ensures
            r == parse_response(bytes@),
    {
        if bytes.len() == 0 {
            return Err(ProtocolError::Truncated);
        }
        let tag = bytes[0];
        let n = match response_frame_len(tag) {
            None => return Err(ProtocolError::UnknownTag(tag)),
            Some(n) => n,
        };
        if bytes.len() < n {
            return Err(ProtocolError::Truncated);
        }
        if tag == TAG_FRAME_READY {
            let flag = bytes[1];
            if flag == 0 {
                Ok(IpcResponse::FrameReady { scanlines: false })
            } else if flag == 1 {
                Ok(IpcResponse::FrameReady { scanlines: true })
            } else {
                Err(ProtocolError::InvalidFlag(flag))
            }
        } else if tag == TAG_READY {
            Ok(IpcResponse::Ready)
        } else {
            Ok(IpcResponse::Ack)
        }
    }
}

/// Decoding the encoding of a command gives the command back, whatever follows it.
pub proof fn lemma_command_roundtrip(c: IpcCommand, rest: Seq<u8>)
    ensures
        parse_command(command_bytes(c) + rest) == Ok::<IpcCommand, ProtocolError>(c),
        command_len_for_tag(command_bytes(c)[0]) == Some(command_bytes(c).len()),
{
    lemma_auto_spec_u32_to_from_le_bytes();
    lemma_auto_spec_u64_to_from_le_bytes();
    let s = command_bytes(c) + rest;
    match c {
        IpcCommand::Init { cols, rows } => {
            assert(s.subrange(1, 5) =~= spec_u32_to_le_bytes(cols));
            assert(s.subrange(5, 9) =~= spec_u32_to_le_bytes(rows));
        },
        IpcCommand::TickAndDraw { dt_micros } => {
            assert(s.subrange(1, 9) =~= spec_u64_to_le_bytes(dt_micros));
        },
        IpcCommand::SetSimulationRate { hz_bits } => {
            assert(s.subrange(1, 5) =~= spec_u32_to_le_bytes(hz_bits));
        },
        IpcCommand::Stop => {},
    }
}

/// A successful decode consumed exactly the encoding of the decoded command.
pub proof fn lemma_command_parse_is_encoding_prefix(s: Seq<u8>)
    requires
        parse_command(s) is Ok,
    ensures
        command_bytes(parse_command(s)->Ok_0).len() <= s.len(),
        s.subrange(0, command_bytes(parse_command(s)->Ok_0).len() as int) == command_bytes(
            parse_command(s)->Ok_0,
        ),
{
    lemma_auto_spec_u32_to_from_le_bytes();
    lemma_auto_spec_u64_to_from_le_bytes();
    let c = parse_command(s)->Ok_0;
    let b = command_bytes(c);
    match c {
        IpcCommand::Init { cols, rows } => {
            assert(spec_u32_to_le_bytes(spec_u32_from_le_bytes(s.subrange(1, 5))) == s.subrange(1, 5));
            assert(spec_u32_to_le_bytes(spec_u32_from_le_bytes(s.subrange(5, 9))) == s.subrange(5, 9));
            assert(s.subrange(0, 9) =~= b);
        },
        IpcCommand::TickAndDraw { dt_micros } => {
            assert(spec_u64_to_le_bytes(spec_u64_from_le_bytes(s.subrange(1, 9))) == s.subrange(1, 9));
            assert(s.subrange(0, 9) =~= b);
        },
        IpcCommand::SetSimulationRate { hz_bits } => {
            assert(spec_u32_to_le_bytes(spec_u32_from_le_bytes(s.subrange(1, 5))) == s.subrange(1, 5));
            assert(s.subrange(0, 5) =~= b);
        },
        IpcCommand::Stop => {
            assert(s.subrange(0, 1) =~= b);
        },
    }
}

/// Different commands have different encodings.
pub proof fn lemma_command_encoding_injective(a: IpcCommand, b: IpcCommand)
    requires
        command_bytes(a) == command_bytes(b),
    ensures
        a == b,
{
    lemma_command_roundtrip(a, Seq::empty());
    lemma_command_roundtrip(b, Seq::empty());
}

/// Decoding the encoding of a response gives the response back, whatever follows it.
pub proof fn lemma_response_roundtrip(r: IpcResponse, rest: Seq<u8>)
    ensures
        parse_response(response_bytes(r) + rest) == Ok::<IpcResponse, ProtocolError>(r),
        response_len_for_tag(response_bytes(r)[0]) == Some(response_bytes(r).len()),
{
}

/// A successful decode consumed exactly the encoding of the decoded response.
pub proof fn lemma_response_parse_is_encoding_prefix(s: Seq<u8>)
    requires
        parse_response(s) is Ok,
    ensures
        response_bytes(parse_response(s)->Ok_0).len() <= s.len(),
        s.subrange(0, response_bytes(parse_response(s)->Ok_0).len() as int) == response_bytes(
            parse_response(s)->Ok_0,
        ),
{
    let r = parse_response(s)->Ok_0;
    assert(s.subrange(0, response_bytes(r).len() as int) =~= response_bytes(r));
}

} // verus!
