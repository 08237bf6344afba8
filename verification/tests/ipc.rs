use idlescreen::protocol::{ProtocolError, command_frame_len, response_frame_len};
use idlescreen::{compute_shm_size, FfiTerminalCell, IpcCommand, IpcResponse, SharedMemoryHeader};

#[test]
fn test_ipc_commands() {
    let cmds = vec![
        IpcCommand::Init {
            cols: 120,
            rows: 40,
        },
        IpcCommand::TickAndDraw { dt_micros: 16666 },
        IpcCommand::SetSimulationRate { hz_bits: 60.0f32.to_bits() },
        IpcCommand::Stop,
    ];

    for cmd in cmds {
        let mut buf = Vec::new();
        cmd.write_to(&mut buf).unwrap();
        let decoded = IpcCommand::read_from(&buf[..]).unwrap();
        assert_eq!(cmd, decoded);
    }
}

#[test]
fn test_ipc_responses() {
    let resps = vec![
        IpcResponse::Ready,
        IpcResponse::FrameReady { scanlines: true },
        IpcResponse::FrameReady { scanlines: false },
        IpcResponse::Ack,
    ];

    for resp in resps {
        let mut buf = Vec::new();
        resp.write_to(&mut buf).unwrap();
        let decoded = IpcResponse::read_from(&buf[..]).unwrap();
        assert_eq!(resp, decoded);
    }
}

#[test]
fn test_shm_size() {
    let size = compute_shm_size(80, 24);
    let header_sz = std::mem::size_of::<SharedMemoryHeader>();
    let cell_sz = std::mem::size_of::<FfiTerminalCell>();
    assert_eq!(size, header_sz + 80 * 24 * cell_sz);
}

#[test]
fn command_encoding_bytes_are_tag_then_little_endian_payload() {
    let mut buf = Vec::new();
    IpcCommand::Init { cols: 0x0102_0304, rows: 40 }.write_to(&mut buf).unwrap();
    assert_eq!(buf, vec![0, 4, 3, 2, 1, 40, 0, 0, 0]);
    let mut buf = Vec::new();
    IpcCommand::TickAndDraw { dt_micros: 16666 }.write_to(&mut buf).unwrap();
    assert_eq!(buf, vec![1, 0x1a, 0x41, 0, 0, 0, 0, 0, 0]);
    let mut buf = Vec::new();
    IpcCommand::SetSimulationRate { hz_bits: 60.0f32.to_bits() }.write_to(&mut buf).unwrap();
    assert_eq!(buf.len(), 5);
    assert_eq!(f32::from_bits(u32::from_le_bytes([buf[1], buf[2], buf[3], buf[4]])), 60.0);
    let mut buf = Vec::new();
    IpcCommand::Stop.write_to(&mut buf).unwrap();
    assert_eq!(buf, vec![3]);
}

#[test]
fn write_appends_to_existing_bytes() {
    let mut buf = vec![9u8, 9];
    IpcResponse::FrameReady { scanlines: true }.write_to(&mut buf).unwrap();
    assert_eq!(buf, vec![9, 9, 1, 1]);
}

#[test]
fn decode_ignores_trailing_bytes_and_reports_errors() {
    assert_eq!(IpcCommand::read_from(&[3, 0xff, 0xff]), Ok(IpcCommand::Stop));
    assert_eq!(IpcCommand::read_from(&[]), Err(ProtocolError::Truncated));
    assert_eq!(IpcCommand::read_from(&[0, 1, 2]), Err(ProtocolError::Truncated));
    assert_eq!(IpcCommand::read_from(&[7]), Err(ProtocolError::UnknownTag(7)));
    assert_eq!(IpcResponse::read_from(&[1, 2]), Err(ProtocolError::InvalidFlag(2)));
    assert_eq!(IpcResponse::read_from(&[1]), Err(ProtocolError::Truncated));
    assert_eq!(IpcResponse::read_from(&[5]), Err(ProtocolError::UnknownTag(5)));
    assert_eq!(IpcResponse::read_from(&[2]), Ok(IpcResponse::Ack));
}

#[test]
fn frame_lengths_match_encodings() {
    assert_eq!(command_frame_len(0), Some(9));
    assert_eq!(command_frame_len(1), Some(9));
    assert_eq!(command_frame_len(2), Some(5));
    assert_eq!(command_frame_len(3), Some(1));
    assert_eq!(command_frame_len(4), None);
    assert_eq!(response_frame_len(0), Some(1));
    assert_eq!(response_frame_len(1), Some(2));
    assert_eq!(response_frame_len(2), Some(1));
    assert_eq!(response_frame_len(3), None);
}
