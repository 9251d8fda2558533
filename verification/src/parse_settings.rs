//! Validation of the raw values that a caller supplies for a line.

use vstd::prelude::*;
use vstd::string::*;
use crate::error_handling::{IoErrKind, SerlibErr};

verus! {

/// What limits the length of a segment that the session accepts.
#[derive(Debug, Clone, Copy, PartialEq, Eq, Structural)]
pub enum RecBufferSize {
    /// No limit.
    Unlimmited,
    /// At most this many bytes.
    Limmit(usize),
}

/// The speed of a line: one of the standard rates, or any other rate by its
/// number.
#[derive(Debug, Clone, Copy, PartialEq, Eq, Structural)]
pub enum BaudRate {
    Baud110,
    Baud300,
    Baud600,
    Baud1200,
    Baud2400,
    Baud4800,
    Baud9600,
    Baud19200,
    Baud38400,
    Baud57600,
    Baud115200,
    BaudOther(usize),
}

/// Number of bits per character.
#[derive(Debug, Clone, Copy, PartialEq, Eq, Structural)]
pub enum CharSize {
    Bits5,
    Bits6,
    Bits7,
    Bits8,
}

/// Parity checking mode.
#[derive(Debug, Clone, Copy, PartialEq, Eq, Structural)]
pub enum Parity {
    ParityNone,
    ParityOdd,
    ParityEven,
}

/// Number of stop bits after each character.
#[derive(Debug, Clone, Copy, PartialEq, Eq, Structural)]
pub enum StopBits {
    Stop1,
    Stop2,
}

/// Flow control mode.
#[derive(Debug, Clone, Copy, PartialEq, Eq, Structural)]
pub enum FlowControl {
    FlowNone,
    FlowSoftware,
    FlowHardware,
}

/// How the line classifies a failure of its own.
#[derive(Debug, Clone, Copy, PartialEq, Eq, Structural)]
pub enum CoreErrKind {
    /// The device is not available.
    NoDevice,
    /// A parameter was incorrect.
    InvalidInput,
    /// An I/O failure of the given kind.
    Io(IoErrKind),
}

/// The settings of a line and its timeout, as plain values.
pub struct LineSettings {
    pub parity: Parity,
    pub baud_rate: BaudRate,
    pub char_size: CharSize,
    pub stop_bits: StopBits,
    pub flow_control: FlowControl,
    pub timeout_seconds: usize,
    pub timeout_nanoseconds: usize,
}

/// Settings that passed validation. Only `build_line_configuration` makes one.
#[derive(Debug, Clone, Copy)]
pub struct LineConfiguration {
    parity: Parity,
    baud_rate: BaudRate,
    char_size: CharSize,
    stop_bits: StopBits,
    flow_control: FlowControl,
    timeout_seconds: usize,
    timeout_nanoseconds: usize,
}

impl View for LineConfiguration {
    type V = LineSettings;

    closed spec fn view(&self) -> LineSettings {
        LineSettings {
            parity: self.parity,
            baud_rate: self.baud_rate,
            char_size: self.char_size,
            stop_bits: self.stop_bits,
            flow_control: self.flow_control,
            timeout_seconds: self.timeout_seconds,
            timeout_nanoseconds: self.timeout_nanoseconds,
        }
    }
}

/// An ASCII capital letter becomes its small letter; any other character stays.
pub open spec fn lower_char(c: char) -> char {
    if 65 <= c as u32 && c as u32 <= 90 {
        ((c as u32 + 32) as u8) as char
    } else {
        c
    }
}

/// The text with every ASCII capital letter replaced by its small letter.
pub open spec fn ascii_lowercase(s: Seq<char>) -> Seq<char> {
    s.map_values(|c: char| lower_char(c))
}

/// Whether a character is one of the ten decimal digits.
pub open spec fn is_digit(c: char) -> bool {
    48 <= c as u32 && c as u32 <= 57
}

/// The number that a run of decimal digits denotes.
pub open spec fn digits_value(s: Seq<char>) -> nat
    decreases s.len(),
{
    if s.len() == 0 {
        0
    } else {
        digits_value(s.drop_last()) * 10 + (s.last() as u32 - 48) as nat
    }
}

/// Whether a text is one or more decimal digits and nothing else.
pub open spec fn all_digits(s: Seq<char>) -> bool {
    s.len() > 0 && (forall|i: int| 0 <= i < s.len() ==> is_digit(#[trigger] s[i]))
}

/// A text without the `+` that may stand at its start.
pub open spec fn unsigned_part(s: Seq<char>) -> Seq<char> {
    if s.len() > 0 && s[0] == '+' {
        s.skip(1)
    } else {
        s
    }
}

/// The number that a text denotes in base 10: one or more decimal digits, with
/// an optional `+` before them and nothing else. `None` for any other text.
pub open spec fn decimal_value(s: Seq<char>) -> Option<nat> {
    if all_digits(unsigned_part(s)) {
        Some(digits_value(unsigned_part(s)))
    } else {
        None
    }
}

/// Whether a text names no limit, in any mix of capital and small letters.
pub open spec fn is_unlimited(s: Seq<char>) -> bool {
    ascii_lowercase(s) == "unlimited"@
}

/// The buffer limit that a text stands for, if it stands for one.
pub open spec fn buffer_size_of(s: Seq<char>) -> Option<RecBufferSize> {
    if is_unlimited(s) {
        Some(RecBufferSize::Unlimmited)
    } else {
        match decimal_value(s) {
            Some(v) => if v <= usize::MAX {
                Some(RecBufferSize::Limmit(v as usize))
            } else {
                None
            },
            None => None,
        }
    }
}

/// Whether a text is one of the three flow control names, in any mix of
/// capital and small letters.
pub open spec fn is_flow_control_name(s: Seq<char>) -> bool {
    ||| ascii_lowercase(s) == "none"@
    ||| ascii_lowercase(s) == "software"@
    ||| ascii_lowercase(s) == "hardware"@
}

/// The rate for a speed: the standard rate of that speed if there is one.
pub open spec fn baud_rate_of(speed: usize) -> BaudRate {
    if speed == 110 {
        BaudRate::Baud110
    } else if speed == 300 {
        BaudRate::Baud300
    } else if speed == 600 {
        BaudRate::Baud600
    } else if speed == 1200 {
        BaudRate::Baud1200
    } else if speed == 2400 {
        BaudRate::Baud2400
    } else if speed == 4800 {
        BaudRate::Baud4800
    } else if speed == 9600 {
        BaudRate::Baud9600
    } else if speed == 19200 {
        BaudRate::Baud19200
    } else if speed == 38400 {
        BaudRate::Baud38400
    } else if speed == 57600 {
        BaudRate::Baud57600
    } else if speed == 115200 {
        BaudRate::Baud115200
    } else {
        BaudRate::BaudOther(speed)
    }
}

/// The character size for a number of bits.
pub open spec fn char_size_of(size: usize) -> Option<CharSize> {
    if size == 5 {
        Some(CharSize::Bits5)
    } else if size == 6 {
        Some(CharSize::Bits6)
    } else if size == 7 {
        Some(CharSize::Bits7)
    } else if size == 8 {
        Some(CharSize::Bits8)
    } else {
        None
    }
}

/// The number of bits of a character size.
pub open spec fn char_size_bits(size: CharSize) -> usize {
    match size {
        CharSize::Bits5 => 5,
        CharSize::Bits6 => 6,
        CharSize::Bits7 => 7,
        CharSize::Bits8 => 8,
    }
}

/// The parity mode for a code.
pub open spec fn parity_of(parity: usize) -> Option<Parity> {
    if parity == 0 {
        Some(Parity::ParityNone)
    } else if parity == 1 {
        Some(Parity::ParityOdd)
    } else if parity == 2 {
        Some(Parity::ParityEven)
    } else {
        None
    }
}

/// The stop bits for a count.
pub open spec fn stop_bits_of(size: usize) -> Option<StopBits> {
    if size == 1 {
        Some(StopBits::Stop1)
    } else if size == 2 {
        Some(StopBits::Stop2)
    } else {
        None
    }
}

/// The error that a failure of the line becomes.
pub open spec fn core_error(kind: CoreErrKind) -> SerlibErr<'static> {
    match kind {
        CoreErrKind::NoDevice => SerlibErr::NoSerialDevice,
        CoreErrKind::InvalidInput => SerlibErr::InvalidInput,
        CoreErrKind::Io(sub_kind) => SerlibErr::IoErr(sub_kind),
    }
}

/// What `build_line_configuration` returns: the settings if all four values
/// are valid, else the error of the first invalid one, taken in the order
/// character size, parity, stop bits, flow control.
pub open spec fn line_configuration_of<'a>(
    parity: usize,
    baud_rate: usize,
    char_size: usize,
    stop_bits: usize,
    flow_control: &'a str,
    timeout_seconds: usize,
    timeout_nanoseconds: usize,
) -> Result<LineSettings, SerlibErr<'a>> {
    if char_size_of(char_size) is None {
        Err(SerlibErr::CharSizeErr(char_size))
    } else if parity_of(parity) is None {
        Err(SerlibErr::ParitySizeErr(parity))
    } else if stop_bits_of(stop_bits) is None {
        Err(SerlibErr::StopBitSizeErr(stop_bits))
    } else if !is_flow_control_name(flow_control@) {
        Err(SerlibErr::FlowControlTypeErr(flow_control))
    } else {
        Ok(
            LineSettings {
                parity: parity_of(parity)->0,
                baud_rate: baud_rate_of(baud_rate),
                char_size: char_size_of(char_size)->0,
                stop_bits: stop_bits_of(stop_bits)->0,
                flow_control: FlowControl::FlowNone,
                timeout_seconds,
                timeout_nanoseconds,
            },
        )
    }
}

/// Calls `serial::core::BaudRate::from_speed`. Trusted: each of the eleven
/// standard speeds gives the rate of its name, and any other speed gives
/// `BaudOther` with that speed.
#[verifier::external_body]
fn baud_rate_from_speed(speed: usize) -> (rate: BaudRate)
    ensures
        rate == baud_rate_of(speed),
{
    match serial::core::BaudRate::from_speed(speed) {
        serial::core::BaudRate::Baud110 => BaudRate::Baud110,
        serial::core::BaudRate::Baud300 => BaudRate::Baud300,
        serial::core::BaudRate::Baud600 => BaudRate::Baud600,
        serial::core::BaudRate::Baud1200 => BaudRate::Baud1200,
        serial::core::BaudRate::Baud2400 => BaudRate::Baud2400,
        serial::core::BaudRate::Baud4800 => BaudRate::Baud4800,
        serial::core::BaudRate::Baud9600 => BaudRate::Baud9600,
        serial::core::BaudRate::Baud19200 => BaudRate::Baud19200,
        serial::core::BaudRate::Baud38400 => BaudRate::Baud38400,
        serial::core::BaudRate::Baud57600 => BaudRate::Baud57600,
        serial::core::BaudRate::Baud115200 => BaudRate::Baud115200,
        serial::core::BaudRate::BaudOther(n) => BaudRate::BaudOther(n),
    }
}

/// Calls `str::to_ascii_lowercase`. Trusted: the result has the same
/// characters, but for the ASCII capital letters, which are replaced by their
/// small letters.
#[verifier::external_body]
fn ascii_lowercase_of(s: &str) -> (lower: String)
    ensures
        lower@ == ascii_lowercase(s@),
{
    s.to_ascii_lowercase()
}

/// Calls `str::parse` for `usize`. Trusted: a text is accepted when it is one
/// or more decimal digits, with an optional `+` before them, and the number
/// fits in `usize`; the result is then that number.
#[verifier::external_body]
fn parse_usize(s: &str) -> (number: Option<usize>)
    ensures
        number == match decimal_value(s@) {
            Some(v) => if v <= usize::MAX {
                Some(v as usize)
            } else {
                None
            },
            None => None,
        },
{
    s.parse::<usize>().ok()
}

/// Reads a buffer limit: the word `unlimited` in any mix of capital and small
/// letters, or a number in base 10.
pub fn new_rec_buffer_size<'a>(size: &'a str) -> (r: Result<RecBufferSize, SerlibErr<'a>>)
    ensures
        r == match buffer_size_of(size@) {
            Some(limit) => Ok::<RecBufferSize, SerlibErr<'a>>(limit),
            None => Err(SerlibErr::InvalidBufSizeErr(size)),
        },
{
    let size_lower = ascii_lowercase_of(size);
    if size_lower == String::from_str("unlimited") {
        Ok(RecBufferSize::Unlimmited)
    } else {
        match parse_usize(size) {
            Some(ret_int) => Ok(RecBufferSize::Limmit(ret_int)),
            None => Err(SerlibErr::InvalidBufSizeErr(size)),
        }
    }
}

/// Accepts the three flow control names in any mix of capital and small
/// letters. All three select no flow control.
pub fn get_flow_control<'a>(flow_control: &'a str) -> (r: Result<FlowControl, SerlibErr<'a>>)
    ensures
        r == if is_flow_control_name(flow_control@) {
            Ok::<FlowControl, SerlibErr<'a>>(FlowControl::FlowNone)
        } else {
            Err(SerlibErr::FlowControlTypeErr(flow_control))
        },
{
    let flow_control_lower = ascii_lowercase_of(flow_control);
    if flow_control_lower == String::from_str("none") {
        Ok(FlowControl::FlowNone)
    } else if flow_control_lower == String::from_str("software") {
        Ok(FlowControl::FlowNone)
    } else if flow_control_lower == String::from_str("hardware") {
        Ok(FlowControl::FlowNone)
    } else {
        Err(SerlibErr::FlowControlTypeErr(flow_control))
    }
}

/// Accepts 5, 6, 7 and 8 bits per character.
pub fn get_char_size<'a>(size: usize) -> (r: Result<CharSize, SerlibErr<'a>>)
    ensures
        r == match char_size_of(size) {
            Some(bits) => Ok::<CharSize, SerlibErr<'a>>(bits),
            None => Err(SerlibErr::CharSizeErr(size)),
        },
        5 <= size <= 8 ==> r is Ok && char_size_bits(r->Ok_0) == size,
        !(5 <= size <= 8) ==> r == Err::<CharSize, SerlibErr<'a>>(SerlibErr::CharSizeErr(size)),
{
    match size {
        5 => Ok(CharSize::Bits5),
        6 => Ok(CharSize::Bits6),
        7 => Ok(CharSize::Bits7),
        8 => Ok(CharSize::Bits8),
        _ => Err(SerlibErr::CharSizeErr(size)),
    }
}

/// Accepts the parity codes 0 (none), 1 (odd) and 2 (even).
pub fn get_parity<'a>(parity: usize) -> (r: Result<Parity, SerlibErr<'a>>)
    ensures
        r == match parity_of(parity) {
            Some(mode) => Ok::<Parity, SerlibErr<'a>>(mode),
            None => Err(SerlibErr::ParitySizeErr(parity)),
        },
        parity <= 2 ==> r is Ok,
        parity > 2 ==> r == Err::<Parity, SerlibErr<'a>>(SerlibErr::ParitySizeErr(parity)),
{
    match parity {
        0 => Ok(Parity::ParityNone),
        1 => Ok(Parity::ParityOdd),
        2 => Ok(Parity::ParityEven),
        _ => Err(SerlibErr::ParitySizeErr(parity)),
    }
}

/// Accepts 1 and 2 stop bits.
pub fn get_stop_bits<'a>(size: usize) -> (r: Result<StopBits, SerlibErr<'a>>)
    ensures
        r == match stop_bits_of(size) {
            Some(bits) => Ok::<StopBits, SerlibErr<'a>>(bits),
            None => Err(SerlibErr::StopBitSizeErr(size)),
        },
        1 <= size <= 2 ==> r is Ok,
        !(1 <= size <= 2) ==> r == Err::<StopBits, SerlibErr<'a>>(SerlibErr::StopBitSizeErr(size)),
{
    match size {
        1 => Ok(StopBits::Stop1),
        2 => Ok(StopBits::Stop2),
        _ => Err(SerlibErr::StopBitSizeErr(size)),
    }
}

/// Turns a failure of the line into the session's error.
pub fn handle_core_errors<'a>(kind: CoreErrKind) -> (err: SerlibErr<'a>)
    ensures
        err == core_error(kind),
{
    match kind {
        CoreErrKind::NoDevice => SerlibErr::NoSerialDevice,
        CoreErrKind::InvalidInput => SerlibErr::InvalidInput,
        CoreErrKind::Io(sub_kind) => SerlibErr::IoErr(sub_kind),
    }
}

/// Validates the four settings in the order character size, parity, stop
/// bits, flow control, and returns the error of the first that is rejected.
pub fn build_line_configuration<'a>(
    parity: usize,
    baud_rate: usize,
    char_size: usize,
    stop_bits: usize,
    flow_control: &'a str,
    timeout_seconds: usize,
    timeout_nanoseconds: usize,
) -> (r: Result<LineConfiguration, SerlibErr<'a>>)
    ensures
        match line_configuration_of(
            parity,
            baud_rate,
            char_size,
            stop_bits,
            flow_control,
            timeout_seconds,
            timeout_nanoseconds,
        ) {
            Ok(settings) => r is Ok && r->Ok_0@ == settings,
            Err(e) => r == Err::<LineConfiguration, SerlibErr<'a>>(e),
        },
        r is Ok <==> 5 <= char_size <= 8 && parity <= 2 && 1 <= stop_bits <= 2
            && is_flow_control_name(flow_control@),
{
    let baud_rate = baud_rate_from_speed(baud_rate);
    let char_size = match get_char_size(char_size) {
        Ok(bits) => bits,
        Err(e) => { return Err(e); },
    };
    let parity = match get_parity(parity) {
        Ok(mode) => mode,
        Err(e) => { return Err(e); },
    };
    let stop_bits = match get_stop_bits(stop_bits) {
        Ok(bits) => bits,
        Err(e) => { return Err(e); },
    };
    let flow_control = match get_flow_control(flow_control) {
        Ok(mode) => mode,
        Err(e) => { return Err(e); },
    };
    Ok(
        LineConfiguration {
            parity,
            baud_rate,
            char_size,
            stop_bits,
            flow_control,
            timeout_seconds,
            timeout_nanoseconds,
        },
    )
}

impl LineConfiguration {
    /// The parity checking mode.
    pub fn parity(&self) -> (r: Parity)
        ensures
            r == self@.parity,
    {
        self.parity
    }

    /// The speed of the line.
    pub fn baud_rate(&self) -> (r: BaudRate)
        ensures
            r == self@.baud_rate,
    {
        self.baud_rate
    }

    /// The number of bits per character.
    pub fn char_size(&self) -> (r: CharSize)
        ensures
            r == self@.char_size,
    {
        self.char_size
    }

    /// The number of stop bits.
    pub fn stop_bits(&self) -> (r: StopBits)
        ensures
            r == self@.stop_bits,
    {
        self.stop_bits
    }

    /// The flow control mode.
    pub fn flow_control(&self) -> (r: FlowControl)
        ensures
            r == self@.flow_control,
    {
        self.flow_control
    }

    /// The whole seconds of the timeout.
    pub fn timeout_seconds(&self) -> (r: usize)
        ensures
            r == self@.timeout_seconds,
    {
        self.timeout_seconds
    }

    /// The nanoseconds of the timeout beyond its whole seconds.
    pub fn timeout_nanoseconds(&self) -> (r: usize)
        ensures
            r == self@.timeout_nanoseconds,
    {
        self.timeout_nanoseconds
    }
}

} // verus!
