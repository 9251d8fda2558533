use serlib::error_handling::{IoErrKind, SerlibErr};
use serlib::parse_settings::{
    BaudRate, CharSize, CoreErrKind, FlowControl, LineConfiguration, Parity, RecBufferSize, StopBits,
};
use serlib::serlib::{
    Exchange, ExchangeEvent, ExchangeStep, OpenStage, OpenStep, Port, PortOpener, ReadProgress,
};

/// A line that records what is done to it and answers from a queue of bytes.
struct Line {
    opens: usize,
    configures: usize,
    timeouts: usize,
    fail_open: Option<CoreErrKind>,
    fail_configure: Option<CoreErrKind>,
    fail_timeout: Option<CoreErrKind>,
    input: Vec<u8>,
    reads: usize,
    fail_read_at: Option<usize>,
    writes: Vec<Vec<u8>>,
    fail_write_at: Option<usize>,
    echo: bool,
}

impl Line {
    fn new(input: Vec<u8>) -> Line {
        Line {
            opens: 0,
            configures: 0,
            timeouts: 0,
            fail_open: None,
            fail_configure: None,
            fail_timeout: None,
            input,
            reads: 0,
            fail_read_at: None,
            writes: Vec::new(),
            fail_write_at: None,
            echo: false,
        }
    }

    fn open(&mut self) -> Result<(), CoreErrKind> {
        self.opens += 1;
        match self.fail_open {
            Some(kind) => Err(kind),
            None => Ok(()),
        }
    }

    fn configure(&mut self, _settings: &LineConfiguration) -> Result<(), CoreErrKind> {
        self.configures += 1;
        match self.fail_configure {
            Some(kind) => Err(kind),
            None => Ok(()),
        }
    }

    fn set_timeout(&mut self, _seconds: usize, _nanoseconds: usize) -> Result<(), CoreErrKind> {
        self.timeouts += 1;
        match self.fail_timeout {
            Some(kind) => Err(kind),
            None => Ok(()),
        }
    }

    fn read_byte(&mut self) -> Result<u8, IoErrKind> {
        if self.fail_read_at == Some(self.reads) {
            return Err(IoErrKind::TimedOut);
        }
        let byte: u8 = self.input[self.reads];
        self.reads += 1;
        Ok(byte)
    }

    fn write(&mut self, bytes: &[u8]) -> Result<usize, IoErrKind> {
        if self.fail_write_at == Some(self.writes.len()) {
            return Err(IoErrKind::BrokenPipe);
        }
        self.writes.push(bytes.to_vec());
        if self.echo {
            self.input.extend_from_slice(bytes);
            if self.writes.len() % 2 == 0 {
                self.input.push(0x1C);
            }
        }
        Ok(bytes.len())
    }
}

fn run_opening<'a>(line: &mut Line, first: PortOpener<'a>) -> Result<Port, SerlibErr<'a>> {
    let mut opener = first;
    loop {
        let outcome = match opener.stage() {
            OpenStage::OpenDevice => line.open(),
            OpenStage::Configure => line.configure(&opener.settings()),
            OpenStage::SetTimeout => {
                let settings = opener.settings();
                line.set_timeout(settings.timeout_seconds(), settings.timeout_nanoseconds())
            }
        };
        match opener.advance(outcome) {
            OpenStep::Pending(next) => opener = next,
            OpenStep::Ready(port) => return Ok(port),
            OpenStep::Failed(e) => return Err(e),
        }
    }
}

fn default_port() -> Port {
    let mut line = Line::new(Vec::new());
    run_opening(&mut line, Port::open(String::from("COM1"), 9600).unwrap()).unwrap()
}

fn port_with(end_read_byte: i8, end_write_byte: &[u8]) -> Port {
    let mut line = Line::new(Vec::new());
    let opener = Port::open_with_settings(
        String::from("COM1"),
        0,
        9600,
        8,
        1,
        "None",
        &end_read_byte,
        60,
        end_write_byte,
        0,
        "unlimited",
    )
    .unwrap();
    run_opening(&mut line, opener).unwrap()
}

fn read_frame(port: &Port, line: &mut Line) -> Result<Vec<i8>, IoErrKind> {
    let mut frame: Vec<i8> = Vec::new();
    loop {
        let event = line.read_byte().map(Port::read_i8);
        match port.read_until_eof_char(frame, event) {
            ReadProgress::NeedByte(next) => frame = next,
            ReadProgress::Complete(whole) => return Ok(whole),
            ReadProgress::Failed(kind) => return Err(kind),
        }
    }
}

fn exchange(port: &Port, line: &mut Line, data: &Vec<&str>) -> Result<Vec<i8>, IoErrKind> {
    let mut step = port.serial_write_segments_read(data, Exchange::new(), ExchangeEvent::Start);
    loop {
        step = match step {
            ExchangeStep::Write(state, bytes) => {
                let outcome = line.write(&bytes);
                port.serial_write_segments_read(data, state, ExchangeEvent::Wrote(outcome))
            }
            ExchangeStep::ReadByte(state) => {
                let outcome = line.read_byte().map(Port::read_i8);
                port.serial_write_segments_read(data, state, ExchangeEvent::Read(outcome))
            }
            ExchangeStep::Finished(replies) => return Ok(replies),
            ExchangeStep::Failed(kind) => return Err(kind),
        };
    }
}

fn signed(bytes: &[u8]) -> Vec<i8> {
    bytes.iter().map(|b| Port::read_i8(*b)).collect()
}

#[test]
fn read_i8_reinterprets_the_byte() {
    assert_eq!(Port::read_i8(0), 0);
    assert_eq!(Port::read_i8(0x1C), 28);
    assert_eq!(Port::read_i8(0x7F), 127);
    assert_eq!(Port::read_i8(0x80), -128);
    assert_eq!(Port::read_i8(0xFF), -1);
}

#[test]
fn read_until_terminator_drops_nul_and_stops() {
    let port = default_port();
    let mut line = Line::new(vec![0x41, 0x00, 0x42, 0x1C, 0x43]);
    assert_eq!(read_frame(&port, &mut line), Ok(vec![0x41i8, 0x42]));
    assert_eq!(line.reads, 4);
}

#[test]
fn read_until_terminator_takes_an_empty_frame() {
    let port = default_port();
    let mut line = Line::new(vec![0x1C, 0x41]);
    assert_eq!(read_frame(&port, &mut line), Ok(Vec::new()));
    assert_eq!(line.reads, 1);
}

#[test]
fn read_until_terminator_compares_signed_bytes() {
    let port = port_with(-1, b"S");
    let mut line = Line::new(vec![0x1C, 0x80, 0xFF, 0x01]);
    assert_eq!(read_frame(&port, &mut line), Ok(vec![0x1Ci8, -128]));
    assert_eq!(line.reads, 3);
}

#[test]
fn a_zero_terminator_ends_the_frame() {
    let port = port_with(0, b"S");
    let mut line = Line::new(vec![0x41, 0x00, 0x42]);
    assert_eq!(read_frame(&port, &mut line), Ok(vec![0x41i8]));
    assert_eq!(line.reads, 2);
}

#[test]
fn a_failed_read_is_returned_not_fatal() {
    let port = default_port();
    let mut line = Line::new(vec![0x41, 0x42, 0x1C]);
    line.fail_read_at = Some(2);
    assert_eq!(read_frame(&port, &mut line), Err(IoErrKind::TimedOut));
    assert_eq!(line.reads, 2);
}

#[test]
fn one_read_step_at_a_time() {
    let port = default_port();
    assert!(matches!(
        port.read_until_eof_char(vec![1, 2], Ok(3)),
        ReadProgress::NeedByte(f) if f == vec![1i8, 2, 3]
    ));
    assert!(matches!(
        port.read_until_eof_char(vec![1, 2], Ok(0)),
        ReadProgress::NeedByte(f) if f == vec![1i8, 2]
    ));
    assert!(matches!(
        port.read_until_eof_char(vec![1, 2], Ok(0x1C)),
        ReadProgress::Complete(f) if f == vec![1i8, 2]
    ));
    assert!(matches!(
        port.read_until_eof_char(vec![1, 2], Err(IoErrKind::Interrupted)),
        ReadProgress::Failed(IoErrKind::Interrupted)
    ));
}

#[test]
fn write_segments_and_read_echo() {
    let port = default_port();
    let mut line = Line::new(Vec::new());
    line.echo = true;
    let data: Vec<&str> = vec!["ping", "pong"];
    let replies = exchange(&port, &mut line, &data).unwrap();
    assert_eq!(
        line.writes,
        vec![b"ping".to_vec(), b"S".to_vec(), b"pong".to_vec(), b"S".to_vec()]
    );
    assert_eq!(replies, signed(b"pingSpongS"));
}

#[test]
fn write_segments_strips_nul_from_replies() {
    let port = default_port();
    let mut line = Line::new(Vec::new());
    line.echo = true;
    let data: Vec<&str> = vec!["a\0b", "", "c"];
    let replies = exchange(&port, &mut line, &data).unwrap();
    assert_eq!(line.writes.len(), 6);
    assert_eq!(line.writes[0], b"a\0b".to_vec());
    assert_eq!(line.writes[2], Vec::<u8>::new());
    assert_eq!(replies, signed(b"abSScS"));
}

#[test]
fn write_segments_uses_the_write_terminator() {
    let port = port_with(0x0A, b"\r\n");
    let mut line = Line::new(vec![0x6F, 0x6B, 0x0A]);
    let data: Vec<&str> = vec!["AT"];
    assert_eq!(exchange(&port, &mut line, &data), Ok(signed(b"ok")));
    assert_eq!(line.writes, vec![b"AT".to_vec(), b"\r\n".to_vec()]);
}

#[test]
fn no_segments_no_transfers() {
    let port = default_port();
    let mut line = Line::new(Vec::new());
    let data: Vec<&str> = Vec::new();
    assert_eq!(exchange(&port, &mut line, &data), Ok(Vec::new()));
    assert_eq!(line.writes.len(), 0);
    assert_eq!(line.reads, 0);
}

#[test]
fn a_failed_write_ends_the_exchange() {
    let port = default_port();
    let mut line = Line::new(Vec::new());
    line.echo = true;
    line.fail_write_at = Some(2);
    let data: Vec<&str> = vec!["ping", "pong"];
    assert_eq!(exchange(&port, &mut line, &data), Err(IoErrKind::BrokenPipe));
    assert_eq!(line.writes, vec![b"ping".to_vec(), b"S".to_vec()]);
}

#[test]
fn a_failed_read_ends_the_exchange() {
    let port = default_port();
    let mut line = Line::new(vec![0x41]);
    line.fail_read_at = Some(1);
    let data: Vec<&str> = vec!["ping", "pong"];
    assert_eq!(exchange(&port, &mut line, &data), Err(IoErrKind::TimedOut));
    assert_eq!(line.writes.len(), 2);
}

#[test]
fn an_event_that_answers_nothing_is_ignored() {
    let port = default_port();
    let data: Vec<&str> = vec!["ping"];
    let step = port.serial_write_segments_read(&data, Exchange::new(), ExchangeEvent::Read(Ok(5)));
    let state = match step {
        ExchangeStep::Write(state, bytes) => {
            assert_eq!(bytes, b"ping".to_vec());
            state
        }
        other => panic!("{:?}", other),
    };
    let step = port.serial_write_segments_read(&data, state, ExchangeEvent::Wrote(Ok(4)));
    assert!(matches!(step, ExchangeStep::Write(_, bytes) if bytes == b"S".to_vec()));
}

#[test]
fn invalid_parity_fails_before_the_line_is_opened() {
    let mut line = Line::new(Vec::new());
    let end_read_byte: i8 = 0x1C;
    let r = match Port::open_with_settings(
        String::from("COM1"),
        5,
        9600,
        8,
        1,
        "None",
        &end_read_byte,
        60,
        b"S",
        0,
        "64",
    ) {
        Ok(opener) => run_opening(&mut line, opener),
        Err(e) => Err(e),
    };
    assert_eq!(r.unwrap_err(), SerlibErr::ParitySizeErr(5));
    assert_eq!(line.opens, 0);
    assert_eq!(line.configures, 0);
    assert_eq!(line.timeouts, 0);
}

#[test]
fn settings_are_checked_in_order() {
    let end_read_byte: i8 = 0x1C;
    let r = Port::open_with_settings(
        String::from("COM1"),
        7,
        9600,
        4,
        0,
        "rts",
        &end_read_byte,
        60,
        b"S",
        0,
        "abc",
    );
    assert_eq!(r.unwrap_err(), SerlibErr::CharSizeErr(4));
    let r = Port::open_with_settings(
        String::from("COM1"),
        0,
        9600,
        8,
        1,
        "rts",
        &end_read_byte,
        60,
        b"S",
        0,
        "abc",
    );
    assert_eq!(r.unwrap_err(), SerlibErr::FlowControlTypeErr("rts"));
}

#[test]
fn open_with_defaults() {
    let mut line = Line::new(Vec::new());
    let opener = Port::open(String::from("COM1"), 9600).unwrap();
    assert_eq!(opener.stage(), OpenStage::OpenDevice);
    assert_eq!(opener.port(), "COM1");
    let settings = opener.settings();
    assert_eq!(settings.parity(), Parity::ParityNone);
    assert_eq!(settings.baud_rate(), BaudRate::Baud9600);
    assert_eq!(settings.char_size(), CharSize::Bits8);
    assert_eq!(settings.stop_bits(), StopBits::Stop1);
    assert_eq!(settings.flow_control(), FlowControl::FlowNone);
    assert_eq!(settings.timeout_seconds(), 60);
    assert_eq!(settings.timeout_nanoseconds(), 0);
    let port = run_opening(&mut line, opener).unwrap();
    assert_eq!(port.end_read_byte(), 0x1C);
    assert_eq!(port.end_write_byte(), b"S");
    assert_eq!(port.receiving_buffer_size(), RecBufferSize::Limmit(64));
    assert_eq!((line.opens, line.configures, line.timeouts), (1, 1, 1));
}

#[test]
fn opening_goes_through_three_stages() {
    let opener = Port::open(String::from("COM1"), 9600).unwrap();
    let opener = match opener.advance(Ok(())) {
        OpenStep::Pending(next) => next,
        other => panic!("{:?}", other),
    };
    assert_eq!(opener.stage(), OpenStage::Configure);
    let opener = match opener.advance(Ok(())) {
        OpenStep::Pending(next) => next,
        other => panic!("{:?}", other),
    };
    assert_eq!(opener.stage(), OpenStage::SetTimeout);
    assert!(matches!(opener.advance(Ok(())), OpenStep::Ready(_)));
}

#[test]
fn a_missing_device_fails_the_opening() {
    let mut line = Line::new(Vec::new());
    line.fail_open = Some(CoreErrKind::NoDevice);
    let opener = Port::open(String::from("COM9"), 9600).unwrap();
    assert_eq!(run_opening(&mut line, opener).unwrap_err(), SerlibErr::NoSerialDevice);
    assert_eq!((line.opens, line.configures, line.timeouts), (1, 0, 0));
}

#[test]
fn a_refused_name_fails_the_opening() {
    let mut line = Line::new(Vec::new());
    line.fail_open = Some(CoreErrKind::InvalidInput);
    let opener = Port::open(String::from(""), 9600).unwrap();
    assert_eq!(run_opening(&mut line, opener).unwrap_err(), SerlibErr::InvalidInput);
}

#[test]
fn a_failed_configure_fails_the_opening() {
    let mut line = Line::new(Vec::new());
    line.fail_configure = Some(CoreErrKind::Io(IoErrKind::PermissionDenied));
    let opener = Port::open(String::from("COM1"), 9600).unwrap();
    assert_eq!(
        run_opening(&mut line, opener).unwrap_err(),
        SerlibErr::IoErr(IoErrKind::PermissionDenied)
    );
    assert_eq!((line.opens, line.configures, line.timeouts), (1, 1, 0));
}

#[test]
fn a_failed_timeout_fails_the_opening() {
    let mut line = Line::new(Vec::new());
    line.fail_timeout = Some(CoreErrKind::Io(IoErrKind::Other));
    let opener = Port::open(String::from("COM1"), 9600).unwrap();
    assert_eq!(
        run_opening(&mut line, opener).unwrap_err(),
        SerlibErr::IoErr(IoErrKind::Other)
    );
}

#[test]
fn the_buffer_size_is_read_last() {
    let mut line = Line::new(Vec::new());
    let end_read_byte: i8 = 0x1C;
    let opener = Port::open_with_settings(
        String::from("COM1"),
        0,
        9600,
        8,
        1,
        "None",
        &end_read_byte,
        60,
        b"S",
        0,
        "abc",
    )
    .unwrap();
    assert_eq!(
        run_opening(&mut line, opener).unwrap_err(),
        SerlibErr::InvalidBufSizeErr("abc")
    );
    assert_eq!((line.opens, line.configures, line.timeouts), (1, 1, 1));
}

#[test]
fn the_session_keeps_its_own_terminators() {
    let port = {
        let end_write: Vec<u8> = vec![0x0D, 0x0A];
        let end_read: i8 = -2;
        port_with(end_read, &end_write)
    };
    assert_eq!(port.end_write_byte(), b"\r\n");
    assert_eq!(port.end_read_byte(), -2);
    assert_eq!(port.receiving_buffer_size(), RecBufferSize::Unlimmited);
}
