//! The errors of a session and their descriptions.

use vstd::prelude::*;
use vstd::string::*;

verus! {

/// The kind of an I/O failure, as the platform reports it.
#[derive(Debug, Clone, Copy, PartialEq, Eq, Structural)]
pub enum IoErrKind {
    NotFound,
    PermissionDenied,
    ConnectionRefused,
    ConnectionReset,
    ConnectionAborted,
    NotConnected,
    AddrInUse,
    AddrNotAvailable,
    BrokenPipe,
    AlreadyExists,
    WouldBlock,
    InvalidInput,
    InvalidData,
    TimedOut,
    WriteZero,
    Interrupted,
    Other,
    UnexpectedEof,
    /// Any kind that has no description of its own.
    Unlisted,
}

/// Why a setting was rejected or a transfer on the line failed.
#[derive(Debug, Clone, Copy, PartialEq, Eq)]
pub enum SerlibErr<'a> {
    /// The parity code is not 0, 1 or 2.
    ParitySizeErr(usize),
    /// The character size is not between 5 and 8.
    CharSizeErr(usize),
    /// The number of stop bits is not 1 or 2.
    StopBitSizeErr(usize),
    /// The flow control is not one of the three known names.
    FlowControlTypeErr(&'a str),
    /// The line refused the port's name.
    InvalidInput,
    /// The device does not exist or is in use.
    NoSerialDevice,
    /// Any other failure of the line.
    IoErr(IoErrKind),
    /// The receiving buffer size is neither the word for no limit nor a number.
    InvalidBufSizeErr(&'a str),
}

/// The character of a single decimal digit.
pub open spec fn digit_char(d: nat) -> char
    recommends
        d < 10,
{
    ((48 + d) as u8) as char
}

/// The decimal digits of a number, most significant first, without leading
/// zeros.
pub open spec fn decimal_digits(n: nat) -> Seq<char>
    decreases n,
{
    if n < 10 {
        seq![digit_char(n)]
    } else {
        decimal_digits(n / 10).push(digit_char(n % 10))
    }
}

/// What `describe_io_err` says of each kind.
pub open spec fn io_description(kind: IoErrKind) -> Seq<char> {
    match kind {
        IoErrKind::NotFound => "Port not found, check port name."@,
        IoErrKind::PermissionDenied => "Permission has been denied."@,
        IoErrKind::ConnectionRefused => "Connection has been refused."@,
        IoErrKind::ConnectionReset => "Connection has been reset."@,
        IoErrKind::ConnectionAborted => "Connection has been aborted."@,
        IoErrKind::NotConnected => "Not connected."@,
        IoErrKind::AddrInUse => "Port is in use."@,
        IoErrKind::AddrNotAvailable => "Port not found, check port name."@,
        IoErrKind::BrokenPipe => "Pipe has been broken, one process cannot pass to another."@,
        IoErrKind::AlreadyExists => "Connection already exists."@,
        IoErrKind::WouldBlock => "This operation needs the parent thread to block, however a block was not requested."@,
        IoErrKind::InvalidInput => "Input parameter is invalid."@,
        IoErrKind::InvalidData => "The data used for the operation is invalid."@,
        IoErrKind::TimedOut => "Port timed out."@,
        IoErrKind::WriteZero => "A write operation returned an Ok(0) indicating data was not written."@,
        IoErrKind::Interrupted => "The connection or operation was interupted."@,
        IoErrKind::Other => "Unknown IO level error."@,
        IoErrKind::UnexpectedEof => "An Eof (end of file) character was found."@,
        IoErrKind::Unlisted => "Unknown IO level error."@,
    }
}

/// What `describe` says of each error.
pub open spec fn description(err: SerlibErr) -> Seq<char> {
    match err {
        SerlibErr::ParitySizeErr(n) =>
            "The size specified for the parity neeeds to be between 0 and 2, specified value is "@
                + decimal_digits(n as nat) + "."@,
        SerlibErr::CharSizeErr(n) =>
            "The size specified for the character size needs to be between 5 and 8, specified size is "@
                + decimal_digits(n as nat),
        SerlibErr::StopBitSizeErr(n) =>
            "The specified stop bit needs to be either 0 or 1, specified size is "@
                + decimal_digits(n as nat),
        SerlibErr::FlowControlTypeErr(s) =>
            "The specified value for the control value needs to be either \"None\", \"Software\" or \"Hardware\", specified value "@
                + s@,
        SerlibErr::InvalidInput => "Invalid input for the port name, ensure this is correct."@,
        SerlibErr::NoSerialDevice =>
            "No such device is available, either used by another process or does not exist."@,
        SerlibErr::IoErr(kind) => io_description(kind),
        SerlibErr::InvalidBufSizeErr(s) =>
            "The specified value for the receiving buffer needs to be either an integer or \"Unlimmited\", specified value "@
                + s@,
    }
}

/// Calls `usize::to_string`. Trusted: the text is the number in decimal
/// digits, most significant first, with no sign and no leading zeros.
#[verifier::external_body]
fn decimal_string(n: usize) -> (text: String)
    ensures
        text@ == decimal_digits(n as nat),
{
    n.to_string()
}

impl SerlibErr<'_> {
    /// A sentence for the user that says what was wrong.
    pub fn describe(&self) -> (text: String)
        ensures
            text@ == description(*self),
    {
        match self {
            SerlibErr::ParitySizeErr(specified_size) => {
                let number = decimal_string(*specified_size);
                String::from_str(
                    "The size specified for the parity neeeds to be between 0 and 2, specified value is ",
                ).concat(number.as_str()).concat(".")
            },
            SerlibErr::CharSizeErr(specified_size) => {
                let number = decimal_string(*specified_size);
                String::from_str(
                    "The size specified for the character size needs to be between 5 and 8, specified size is ",
                ).concat(number.as_str())
            },
            SerlibErr::StopBitSizeErr(specified_size) => {
                let number = decimal_string(*specified_size);
                String::from_str(
                    "The specified stop bit needs to be either 0 or 1, specified size is ",
                ).concat(number.as_str())
            },
            SerlibErr::FlowControlTypeErr(specified_val) => String::from_str(
                "The specified value for the control value needs to be either \"None\", \"Software\" or \"Hardware\", specified value ",
            ).concat(specified_val),
            SerlibErr::InvalidInput => String::from_str(
                "Invalid input for the port name, ensure this is correct.",
            ),
            SerlibErr::NoSerialDevice => String::from_str(
                "No such device is available, either used by another process or does not exist.",
            ),
            SerlibErr::IoErr(io_err_kind) => describe_io_err(io_err_kind),
            SerlibErr::InvalidBufSizeErr(specified_val) => String::from_str(
                "The specified value for the receiving buffer needs to be either an integer or \"Unlimmited\", specified value ",
            ).concat(specified_val),
        }
    }
}

/// The fixed sentence for a kind of I/O failure.
pub fn describe_io_err(err: &IoErrKind) -> (text: String)
    ensures
        text@ == io_description(*err),
{
    match err {
        IoErrKind::NotFound => String::from_str("Port not found, check port name."),
        IoErrKind::PermissionDenied => String::from_str("Permission has been denied."),
        IoErrKind::ConnectionRefused => String::from_str("Connection has been refused."),
        IoErrKind::ConnectionReset => String::from_str("Connection has been reset."),
        IoErrKind::ConnectionAborted => String::from_str("Connection has been aborted."),
        IoErrKind::NotConnected => String::from_str("Not connected."),
        IoErrKind::AddrInUse => String::from_str("Port is in use."),
        IoErrKind::AddrNotAvailable => String::from_str("Port not found, check port name."),
        IoErrKind::BrokenPipe => String::from_str(
            "Pipe has been broken, one process cannot pass to another.",
        ),
        IoErrKind::AlreadyExists => String::from_str("Connection already exists."),
        IoErrKind::WouldBlock => String::from_str(
            "This operation needs the parent thread to block, however a block was not requested.",
        ),
        IoErrKind::InvalidInput => String::from_str("Input parameter is invalid."),
        IoErrKind::InvalidData => String::from_str("The data used for the operation is invalid."),
        IoErrKind::TimedOut => String::from_str("Port timed out."),
        IoErrKind::WriteZero => String::from_str(
            "A write operation returned an Ok(0) indicating data was not written.",
        ),
        IoErrKind::Interrupted => String::from_str("The connection or operation was interupted."),
        IoErrKind::Other => String::from_str("Unknown IO level error."),
        IoErrKind::UnexpectedEof => String::from_str("An Eof (end of file) character was found."),
        IoErrKind::Unlisted => String::from_str("Unknown IO level error."),
    }
}

} // verus!
