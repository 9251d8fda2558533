use serlib::error_handling::{describe_io_err, IoErrKind, SerlibErr};

#[test]
fn describe_parity() {
    assert_eq!(
        SerlibErr::ParitySizeErr(5).describe(),
        "The size specified for the parity neeeds to be between 0 and 2, specified value is 5."
    );
}

#[test]
fn describe_char_size() {
    assert_eq!(
        SerlibErr::CharSizeErr(12).describe(),
        "The size specified for the character size needs to be between 5 and 8, specified size is 12"
    );
}

#[test]
fn describe_stop_bits() {
    assert_eq!(
        SerlibErr::StopBitSizeErr(0).describe(),
        "The specified stop bit needs to be either 0 or 1, specified size is 0"
    );
}

#[test]
fn describe_large_number() {
    assert_eq!(
        SerlibErr::StopBitSizeErr(1234567890).describe(),
        "The specified stop bit needs to be either 0 or 1, specified size is 1234567890"
    );
}

#[test]
fn describe_flow_control() {
    assert_eq!(
        SerlibErr::FlowControlTypeErr("xon").describe(),
        "The specified value for the control value needs to be either \"None\", \"Software\" or \"Hardware\", specified value xon"
    );
}

#[test]
fn describe_buffer_size() {
    assert_eq!(
        SerlibErr::InvalidBufSizeErr("abc").describe(),
        "The specified value for the receiving buffer needs to be either an integer or \"Unlimmited\", specified value abc"
    );
}

#[test]
fn describe_port_errors() {
    assert_eq!(
        SerlibErr::InvalidInput.describe(),
        "Invalid input for the port name, ensure this is correct."
    );
    assert_eq!(
        SerlibErr::NoSerialDevice.describe(),
        "No such device is available, either used by another process or does not exist."
    );
}

#[test]
fn describe_io_error_uses_the_kind() {
    assert_eq!(SerlibErr::IoErr(IoErrKind::TimedOut).describe(), "Port timed out.");
    assert_eq!(
        SerlibErr::IoErr(IoErrKind::Unlisted).describe(),
        "Unknown IO level error."
    );
}

#[test]
fn describe_every_io_kind() {
    let expected: Vec<(IoErrKind, &str)> = vec![
        (IoErrKind::NotFound, "Port not found, check port name."),
        (IoErrKind::PermissionDenied, "Permission has been denied."),
        (IoErrKind::ConnectionRefused, "Connection has been refused."),
        (IoErrKind::ConnectionReset, "Connection has been reset."),
        (IoErrKind::ConnectionAborted, "Connection has been aborted."),
        (IoErrKind::NotConnected, "Not connected."),
        (IoErrKind::AddrInUse, "Port is in use."),
        (IoErrKind::AddrNotAvailable, "Port not found, check port name."),
        (IoErrKind::BrokenPipe, "Pipe has been broken, one process cannot pass to another."),
        (IoErrKind::AlreadyExists, "Connection already exists."),
        (
            IoErrKind::WouldBlock,
            "This operation needs the parent thread to block, however a block was not requested.",
        ),
        (IoErrKind::InvalidInput, "Input parameter is invalid."),
        (IoErrKind::InvalidData, "The data used for the operation is invalid."),
        (IoErrKind::TimedOut, "Port timed out."),
        (
            IoErrKind::WriteZero,
            "A write operation returned an Ok(0) indicating data was not written.",
        ),
        (IoErrKind::Interrupted, "The connection or operation was interupted."),
        (IoErrKind::Other, "Unknown IO level error."),
        (IoErrKind::UnexpectedEof, "An Eof (end of file) character was found."),
        (IoErrKind::Unlisted, "Unknown IO level error."),
    ];
    for (kind, text) in expected {
        assert_eq!(describe_io_err(&kind), text);
    }
}
