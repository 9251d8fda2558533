//! The session over an opened line: how it is opened, and how frames are
//! written and read.
//!
//! Every transfer on the line is made by the caller. The session says which
//! transfer comes next and takes its outcome as an event.

use vstd::prelude::*;
use vstd::slice::slice_to_vec;
use vstd::string::*;
use crate::error_handling::{IoErrKind, SerlibErr};
use crate::parse_settings::{
    ascii_lowercase, baud_rate_of, buffer_size_of, build_line_configuration, core_error, handle_core_errors,
    is_flow_control_name, line_configuration_of, new_rec_buffer_size, CharSize, CoreErrKind,
    FlowControl, LineConfiguration, LineSettings, Parity, RecBufferSize, StopBits,
};

verus! {

/// A configured session: the two terminators and the buffer limit.
#[derive(Debug)]
pub struct Port {
    receiving_buffer_size: RecBufferSize,
    end_write_byte: Vec<u8>,
    end_read_byte: i8,
}

/// What a session holds, as plain values.
pub struct PortView {
    pub receiving_buffer_size: RecBufferSize,
    pub end_write_byte: Seq<u8>,
    pub end_read_byte: i8,
}

impl View for Port {
    type V = PortView;

    closed spec fn view(&self) -> PortView {
        PortView {
            receiving_buffer_size: self.receiving_buffer_size,
            end_write_byte: self.end_write_byte@,
            end_read_byte: self.end_read_byte,
        }
    }
}

/// The transfer that an opening session waits for.
#[derive(Debug, Clone, Copy, PartialEq, Eq, Structural)]
pub enum OpenStage {
    /// The device has to be opened by its name.
    OpenDevice,
    /// The settings have to be applied to the opened device.
    Configure,
    /// The timeout has to be applied to the opened device.
    SetTimeout,
}

/// A session that is being opened. Its settings have passed validation.
#[derive(Debug)]
pub struct PortOpener<'a> {
    stage: OpenStage,
    port: String,
    settings: LineConfiguration,
    end_read_byte: i8,
    end_write_byte: Vec<u8>,
    receiving_buffer_size: &'a str,
}

/// What an opening session holds, as plain values.
pub struct OpenerView<'a> {
    pub stage: OpenStage,
    pub port: Seq<char>,
    pub settings: LineSettings,
    pub end_read_byte: i8,
    pub end_write_byte: Seq<u8>,
    pub receiving_buffer_size: &'a str,
}

impl<'a> View for PortOpener<'a> {
    type V = OpenerView<'a>;

    closed spec fn view(&self) -> OpenerView<'a> {
        OpenerView {
            stage: self.stage,
            port: self.port@,
            settings: self.settings@,
            end_read_byte: self.end_read_byte,
            end_write_byte: self.end_write_byte@,
            receiving_buffer_size: self.receiving_buffer_size,
        }
    }
}

/// Where an opening session stands after an outcome.
#[derive(Debug)]
pub enum OpenStep<'a> {
    /// Another transfer is to be made.
    Pending(PortOpener<'a>),
    /// The session is configured.
    Ready(Port),
    /// The opening failed; nothing is left of the session.
    Failed(SerlibErr<'a>),
}

/// `OpenStep` over plain values.
pub enum OpenStepView<'a> {
    Pending(OpenerView<'a>),
    Ready(PortView),
    Failed(SerlibErr<'a>),
}

impl<'a> View for OpenStep<'a> {
    type V = OpenStepView<'a>;

    open spec fn view(&self) -> OpenStepView<'a> {
        match *self {
            OpenStep::Pending(opener) => OpenStepView::Pending(opener@),
            OpenStep::Ready(port) => OpenStepView::Ready(port@),
            OpenStep::Failed(err) => OpenStepView::Failed(err),
        }
    }
}

/// What `PortOpener::advance` returns. A failed transfer ends the opening with
/// the error of its kind. A successful one leads to the next stage; after the
/// last stage the buffer limit is read, and the session is ready if that text
/// is valid.
pub open spec fn open_step<'a>(
    opener: OpenerView<'a>,
    outcome: Result<(), CoreErrKind>,
) -> OpenStepView<'a> {
    match outcome {
        Err(kind) => OpenStepView::Failed(core_error(kind)),
        Ok(_) => match opener.stage {
            OpenStage::OpenDevice => OpenStepView::Pending(
                OpenerView { stage: OpenStage::Configure, ..opener },
            ),
            OpenStage::Configure => OpenStepView::Pending(
                OpenerView { stage: OpenStage::SetTimeout, ..opener },
            ),
            OpenStage::SetTimeout => match buffer_size_of(opener.receiving_buffer_size@) {
                Some(limit) => OpenStepView::Ready(
                    PortView {
                        receiving_buffer_size: limit,
                        end_write_byte: opener.end_write_byte,
                        end_read_byte: opener.end_read_byte,
                    },
                ),
                None => OpenStepView::Failed(
                    SerlibErr::InvalidBufSizeErr(opener.receiving_buffer_size),
                ),
            },
        },
    }
}

/// What a frame reader does next.
#[derive(Debug)]
pub enum ReadProgress {
    /// Another byte has to be read; the frame so far is kept.
    NeedByte(Vec<i8>),
    /// The terminator was read; the frame is whole.
    Complete(Vec<i8>),
    /// The read failed.
    Failed(IoErrKind),
}

/// `ReadProgress` over plain values.
pub enum ReadState {
    NeedByte(Seq<i8>),
    Complete(Seq<i8>),
    Failed(IoErrKind),
}

impl View for ReadProgress {
    type V = ReadState;

    open spec fn view(&self) -> ReadState {
        match *self {
            ReadProgress::NeedByte(frame) => ReadState::NeedByte(frame@),
            ReadProgress::Complete(frame) => ReadState::Complete(frame@),
            ReadProgress::Failed(kind) => ReadState::Failed(kind),
        }
    }
}

/// What one read does to a frame: a failure ends the frame with its kind, the
/// terminator completes it and is not kept, a zero byte is dropped, and any
/// other byte is appended.
pub open spec fn read_step(
    end_read_byte: i8,
    frame: Seq<i8>,
    event: Result<i8, IoErrKind>,
) -> ReadState {
    match event {
        Err(kind) => ReadState::Failed(kind),
        Ok(byte) => if byte == end_read_byte {
            ReadState::Complete(frame)
        } else if byte == 0 {
            ReadState::NeedByte(frame)
        } else {
            ReadState::NeedByte(frame.push(byte))
        },
    }
}

/// The byte of the line as a signed value.
pub open spec fn signed_byte(raw: u8) -> i8 {
    if raw < 128 {
        raw as i8
    } else {
        (raw - 256) as i8
    }
}

impl Port {
    /// The limit on the length of a segment.
    pub fn receiving_buffer_size(&self) -> (r: RecBufferSize)
        ensures
            r == self@.receiving_buffer_size,
    {
        self.receiving_buffer_size
    }

    /// The bytes that are written after every segment.
    pub fn end_write_byte(&self) -> (r: &[u8])
        ensures
            r@ == self@.end_write_byte,
    {
        self.end_write_byte.as_slice()
    }

    /// The byte that ends a frame on reading.
    pub fn end_read_byte(&self) -> (r: i8)
        ensures
            r == self@.end_read_byte,
    {
        self.end_read_byte
    }

    /// Takes the outcome of reading one byte into the frame read so far.
    pub fn read_until_eof_char(
        &self,
        frame: Vec<i8>,
        event: Result<i8, IoErrKind>,
    ) -> (next: ReadProgress)
        ensures
            next@ == read_step(self@.end_read_byte, frame@, event),
    {
        match event {
            Err(kind) => ReadProgress::Failed(kind),
            Ok(byte) => {
                if byte == self.end_read_byte {
                    ReadProgress::Complete(frame)
                } else if byte != 0 {
                    let mut frame = frame;
                    frame.push(byte);
                    ReadProgress::NeedByte(frame)
                } else {
                    ReadProgress::NeedByte(frame)
                }
            },
        }
    }

    /// Reads the one byte that the line delivered as a signed value.
    pub fn read_i8(read_buffer: u8) -> (byte: i8)
        ensures
            byte == signed_byte(read_buffer),
    {
        if read_buffer < 128 {
            read_buffer as i8
        } else {
            (read_buffer as i16 - 256) as i8
        }
    }
}

/// What `Port::open_with_settings` returns: an opening session at its first
/// stage if the four settings are valid, else the error of the first that is
/// not.
pub open spec fn opening_of<'a>(
    port: Seq<char>,
    parity: usize,
    baud_rate: usize,
    char_size: usize,
    stop_bits: usize,
    flow_control: &'a str,
    end_read_byte: i8,
    timeout_seconds: usize,
    end_write_byte: Seq<u8>,
    timeout_nanoseconds: usize,
    receiving_buffer_size: &'a str,
) -> Result<OpenerView<'a>, SerlibErr<'a>> {
    match line_configuration_of(
        parity,
        baud_rate,
        char_size,
        stop_bits,
        flow_control,
        timeout_seconds,
        timeout_nanoseconds,
    ) {
        Ok(settings) => Ok(
            OpenerView {
                stage: OpenStage::OpenDevice,
                port,
                settings,
                end_read_byte,
                end_write_byte,
                receiving_buffer_size,
            },
        ),
        Err(e) => Err(e),
    }
}

/// The opening session that `Port::open` returns for a port and a baud rate.
pub open spec fn default_opening(port: Seq<char>, baud_rate: usize) -> OpenerView<'static> {
    OpenerView {
        stage: OpenStage::OpenDevice,
        port,
        settings: LineSettings {
            parity: Parity::ParityNone,
            baud_rate: baud_rate_of(baud_rate),
            char_size: CharSize::Bits8,
            stop_bits: StopBits::Stop1,
            flow_control: FlowControl::FlowNone,
            timeout_seconds: 60,
            timeout_nanoseconds: 0,
        },
        end_read_byte: 0x1C,
        end_write_byte: seq![0x53u8],
        receiving_buffer_size: "64",
    }
}

impl Port {
    /// Starts opening a port at a baud rate with the default settings: no
    /// parity, 8 bits, 1 stop bit, no flow control, a timeout of 60 seconds,
    /// frames read up to the byte 0x1C and written with the letter `S` after
    /// them, and segments of at most 64 bytes.
    pub fn open<'a>(port: String, baud_rate: usize) -> (r: Result<PortOpener<'a>, SerlibErr<'a>>)
        ensures
            r is Ok,
            r->Ok_0@ == default_opening(port@, baud_rate),
    {
        let end_read_byte: i8 = 0x1C;
        let end_write_byte: Vec<u8> = vec![0x53u8];
        proof {
            lemma_none_is_flow_control_name();
            assert(end_write_byte@ =~= seq![0x53u8]);
        }
        Port::open_with_settings(
            port,
            0,
            baud_rate,
            8,
            1,
            "None",
            &end_read_byte,
            60,
            end_write_byte.as_slice(),
            0,
            "64",
        )
    }

    /// Validates the settings and starts opening a port with them. Nothing is
    /// opened unless all four settings are valid.
    pub fn open_with_settings<'a>(
        port: String,
        parity: usize,
        baud_rate: usize,
        char_size: usize,
        stop_bits: usize,
        flow_control: &'a str,
        end_read_byte: &i8,
        timeout_seconds: usize,
        end_write_byte: &[u8],
        timeout_nanoseconds: usize,
        receiving_buffer_size: &'a str,
    ) -> (r: Result<PortOpener<'a>, SerlibErr<'a>>)
        ensures
            match opening_of(
                port@,
                parity,
                baud_rate,
                char_size,
                stop_bits,
                flow_control,
                *end_read_byte,
                timeout_seconds,
                end_write_byte@,
                timeout_nanoseconds,
                receiving_buffer_size,
            ) {
                Ok(opener) => r is Ok && r->Ok_0@ == opener,
                Err(e) => r == Err::<PortOpener<'a>, SerlibErr<'a>>(e),
            },
            r is Ok <==> 5 <= char_size <= 8 && parity <= 2 && 1 <= stop_bits <= 2
                && is_flow_control_name(flow_control@),
    {
        match build_line_configuration(
            parity,
            baud_rate,
            char_size,
            stop_bits,
            flow_control,
            timeout_seconds,
            timeout_nanoseconds,
        ) {
            Err(e) => Err(e),
            Ok(settings) => Ok(
                PortOpener {
                    stage: OpenStage::OpenDevice,
                    port,
                    settings,
                    end_read_byte: *end_read_byte,
                    end_write_byte: slice_to_vec(end_write_byte),
                    receiving_buffer_size,
                },
            ),
        }
    }
}

impl<'a> PortOpener<'a> {
    /// The transfer that is to be made next.
    pub fn stage(&self) -> (r: OpenStage)
        ensures
            r == self@.stage,
    {
        self.stage
    }

    /// The name of the port to open.
    pub fn port(&self) -> (r: &str)
        ensures
            r@ == self@.port,
    {
        self.port.as_str()
    }

    /// The settings to apply.
    pub fn settings(&self) -> (r: LineConfiguration)
        ensures
            r@ == self@.settings,
    {
        self.settings
    }

    /// Takes the outcome of the transfer that `stage` asked for.
    pub fn advance(self, outcome: Result<(), CoreErrKind>) -> (step: OpenStep<'a>)
        ensures
            step@ == open_step(self@, outcome),
    {
        match outcome {
            Err(kind) => OpenStep::Failed(handle_core_errors(kind)),
            Ok(_) => match self.stage {
                OpenStage::OpenDevice => OpenStep::Pending(
                    PortOpener { stage: OpenStage::Configure, ..self },
                ),
                OpenStage::Configure => OpenStep::Pending(
                    PortOpener { stage: OpenStage::SetTimeout, ..self },
                ),
                OpenStage::SetTimeout => match new_rec_buffer_size(self.receiving_buffer_size) {
                    Ok(limit) => OpenStep::Ready(
                        Port {
                            receiving_buffer_size: limit,
                            end_write_byte: self.end_write_byte,
                            end_read_byte: self.end_read_byte,
                        },
                    ),
                    Err(e) => OpenStep::Failed(e),
                },
            },
        }
    }
}

/// The default flow control name is one of the three names.
proof fn lemma_none_is_flow_control_name()
    ensures
        is_flow_control_name("None"@),
{
    reveal_strlit("None");
    reveal_strlit("none");
    assert(ascii_lowercase("None"@) =~= "none"@);
}

/// The transfer that an exchange waits for.
#[derive(Debug, Clone, Copy, PartialEq, Eq, Structural)]
pub enum ExchangePhase {
    /// The bytes of the current segment have to be written.
    WriteSegment,
    /// The write terminator has to be written.
    WriteTerminator,
    /// A byte of the reply has to be read.
    ReadReply,
}

/// An exchange of segments for replies that is under way.
#[derive(Debug)]
pub struct Exchange {
    segment: usize,
    phase: ExchangePhase,
    frame: Vec<i8>,
    replies: Vec<i8>,
}

/// What an exchange holds, as plain values: the index of the current segment,
/// the transfer it waits for, the reply frame read so far and the replies of
/// the segments before.
pub struct ExchangeView {
    pub segment: usize,
    pub phase: ExchangePhase,
    pub frame: Seq<i8>,
    pub replies: Seq<i8>,
}

impl View for Exchange {
    type V = ExchangeView;

    closed spec fn view(&self) -> ExchangeView {
        ExchangeView {
            segment: self.segment,
            phase: self.phase,
            frame: self.frame@,
            replies: self.replies@,
        }
    }
}

/// The outcome of a transfer, as the caller reports it.
#[derive(Debug, Clone, Copy)]
pub enum ExchangeEvent {
    /// No transfer was made yet.
    Start,
    /// A write returned: the number of bytes written, or why it failed.
    Wrote(Result<usize, IoErrKind>),
    /// A read of one byte returned: the byte, or why it failed.
    Read(Result<i8, IoErrKind>),
}

/// Where an exchange stands after an event, and what is to be done next.
#[derive(Debug)]
pub enum ExchangeStep {
    /// These bytes have to be written.
    Write(Exchange, Vec<u8>),
    /// One byte has to be read.
    ReadByte(Exchange),
    /// Every segment was answered; these are the replies, one after another.
    Finished(Vec<i8>),
    /// A transfer failed; the exchange is over.
    Failed(IoErrKind),
}

/// `ExchangeStep` over plain values.
pub enum ExchangeStepView {
    Write(ExchangeView, Seq<u8>),
    ReadByte(ExchangeView),
    Finished(Seq<i8>),
    Failed(IoErrKind),
}

impl View for ExchangeStep {
    type V = ExchangeStepView;

    open spec fn view(&self) -> ExchangeStepView {
        match *self {
            ExchangeStep::Write(state, bytes) => ExchangeStepView::Write(state@, bytes@),
            ExchangeStep::ReadByte(state) => ExchangeStepView::ReadByte(state@),
            ExchangeStep::Finished(replies) => ExchangeStepView::Finished(replies@),
            ExchangeStep::Failed(kind) => ExchangeStepView::Failed(kind),
        }
    }
}

/// An exchange before its first transfer.
pub open spec fn exchange_start() -> ExchangeView {
    ExchangeView {
        segment: 0,
        phase: ExchangePhase::WriteSegment,
        frame: Seq::empty(),
        replies: Seq::empty(),
    }
}

/// What a state asks for: nothing more once every segment was answered, else
/// the transfer of its phase.
pub open spec fn exchange_pending(
    port: PortView,
    data: Seq<&str>,
    state: ExchangeView,
) -> ExchangeStepView {
    if state.segment >= data.len() {
        ExchangeStepView::Finished(state.replies)
    } else {
        match state.phase {
            ExchangePhase::WriteSegment => ExchangeStepView::Write(
                state,
                data[state.segment as int].spec_bytes(),
            ),
            ExchangePhase::WriteTerminator => ExchangeStepView::Write(state, port.end_write_byte),
            ExchangePhase::ReadReply => ExchangeStepView::ReadByte(state),
        }
    }
}

/// What an event does to a state. A successful write leads from the segment
/// to the terminator and from the terminator to the reply. A byte read goes
/// into the reply frame; when the frame is whole it is appended to the
/// replies, and the next segment is due. A failed transfer ends the exchange.
/// An event that does not answer the transfer asked for changes nothing.
pub open spec fn exchange_advance(
    port: PortView,
    data: Seq<&str>,
    state: ExchangeView,
    event: ExchangeEvent,
) -> Result<ExchangeView, IoErrKind> {
    if state.segment >= data.len() {
        Ok(state)
    } else {
        match state.phase {
            ExchangePhase::WriteSegment => match event {
                ExchangeEvent::Wrote(Ok(_)) => Ok(
                    ExchangeView { phase: ExchangePhase::WriteTerminator, ..state },
                ),
                ExchangeEvent::Wrote(Err(kind)) => Err(kind),
                _ => Ok(state),
            },
            ExchangePhase::WriteTerminator => match event {
                ExchangeEvent::Wrote(Ok(_)) => Ok(
                    ExchangeView { phase: ExchangePhase::ReadReply, frame: Seq::empty(), ..state },
                ),
                ExchangeEvent::Wrote(Err(kind)) => Err(kind),
                _ => Ok(state),
            },
            ExchangePhase::ReadReply => match event {
                ExchangeEvent::Read(outcome) => match read_step(
                    port.end_read_byte,
                    state.frame,
                    outcome,
                ) {
                    ReadState::NeedByte(frame) => Ok(ExchangeView { frame, ..state }),
                    ReadState::Complete(frame) => Ok(
                        ExchangeView {
                            segment: (state.segment + 1) as usize,
                            phase: ExchangePhase::WriteSegment,
                            frame: Seq::empty(),
                            replies: state.replies + frame,
                        },
                    ),
                    ReadState::Failed(kind) => Err(kind),
                },
                _ => Ok(state),
            },
        }
    }
}

/// What `Port::serial_write_segments_read` returns: the failure, or the new
/// state with what it asks for.
pub open spec fn exchange_step(
    port: PortView,
    data: Seq<&str>,
    state: ExchangeView,
    event: ExchangeEvent,
) -> ExchangeStepView {
    match exchange_advance(port, data, state, event) {
        Ok(next) => exchange_pending(port, data, next),
        Err(kind) => ExchangeStepView::Failed(kind),
    }
}

impl Exchange {
    /// An exchange before its first transfer.
    pub fn new() -> (state: Exchange)
        ensures
            state@ == exchange_start(),
    {
        Exchange {
            segment: 0,
            phase: ExchangePhase::WriteSegment,
            frame: Vec::new(),
            replies: Vec::new(),
        }
    }
}

impl Port {
    /// Takes the outcome of a transfer into an exchange of the segments in
    /// `data`: each segment is written, then the write terminator, then a
    /// reply frame is read up to the read terminator. The replies come back
    /// as one sequence, in the order of the segments.
    pub fn serial_write_segments_read(
        &self,
        data: &Vec<&str>,
        state: Exchange,
        event: ExchangeEvent,
    ) -> (step: ExchangeStep)
        ensures
            step@ == exchange_step(self@, data@, state@, event),
    {
        let Exchange { segment, phase, frame, replies } = state;
        if segment >= data.len() {
            return self.pending_transfer(data, Exchange { segment, phase, frame, replies });
        }
        let next = match phase {
            ExchangePhase::WriteSegment => match event {
                ExchangeEvent::Wrote(Ok(_)) => Exchange {
                    segment,
                    phase: ExchangePhase::WriteTerminator,
                    frame,
                    replies,
                },
                ExchangeEvent::Wrote(Err(kind)) => { return ExchangeStep::Failed(kind); },
                _ => Exchange { segment, phase, frame, replies },
            },
            ExchangePhase::WriteTerminator => match event {
                ExchangeEvent::Wrote(Ok(_)) => Exchange {
                    segment,
                    phase: ExchangePhase::ReadReply,
                    frame: Vec::new(),
                    replies,
                },
                ExchangeEvent::Wrote(Err(kind)) => { return ExchangeStep::Failed(kind); },
                _ => Exchange { segment, phase, frame, replies },
            },
            ExchangePhase::ReadReply => match event {
                ExchangeEvent::Read(outcome) => match self.read_until_eof_char(frame, outcome) {
                    ReadProgress::NeedByte(frame) => Exchange { segment, phase, frame, replies },
                    ReadProgress::Complete(frame) => {
                        let mut frame = frame;
                        let mut replies = replies;
                        replies.append(&mut frame);
                        Exchange {
                            segment: segment + 1,
                            phase: ExchangePhase::WriteSegment,
                            frame,
                            replies,
                        }
                    },
                    ReadProgress::Failed(kind) => { return ExchangeStep::Failed(kind); },
                },
                _ => Exchange { segment, phase, frame, replies },
            },
        };
        self.pending_transfer(data, next)
    }

    /// The transfer that a state asks for.
    fn pending_transfer(&self, data: &Vec<&str>, state: Exchange) -> (step: ExchangeStep)
        ensures
            step@ == exchange_pending(self@, data@, state@),
    {
        if state.segment >= data.len() {
            ExchangeStep::Finished(state.replies)
        } else {
            match state.phase {
                ExchangePhase::WriteSegment => {
                    let bytes = slice_to_vec(data[state.segment].as_bytes());
                    ExchangeStep::Write(state, bytes)
                },
                ExchangePhase::WriteTerminator => {
                    let bytes = slice_to_vec(self.end_write_byte.as_slice());
                    ExchangeStep::Write(state, bytes)
                },
                ExchangePhase::ReadReply => ExchangeStep::ReadByte(state),
            }
        }
    }
}

} // verus!
