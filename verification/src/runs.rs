//! What whole sequences of events do to a frame reader, to an exchange and to
//! an opening session.

use vstd::prelude::*;
use crate::error_handling::{IoErrKind, SerlibErr};
use crate::parse_settings::{
    all_digits, ascii_lowercase, buffer_size_of, core_error, digits_value, unsigned_part,
    CoreErrKind, RecBufferSize,
};
use crate::serlib::{
    default_opening, exchange_advance, exchange_pending, exchange_start, exchange_step,
    open_step, read_step, ExchangeEvent, ExchangePhase, ExchangeStepView, ExchangeView,
    OpenStage, OpenStepView, OpenerView, PortView, ReadState,
};

verus! {

/// The bytes of a frame without its zero bytes.
pub open spec fn strip_nul(bytes: Seq<i8>) -> Seq<i8> {
    bytes.filter(|b: i8| b != 0)
}

/// Where a frame reader stands after the bytes of `bytes` were read one after
/// another with success, starting from an empty frame. Once the frame is
/// whole, further bytes change nothing.
pub open spec fn read_run(end_read_byte: i8, bytes: Seq<i8>) -> ReadState
    decreases bytes.len(),
{
    if bytes.len() == 0 {
        ReadState::NeedByte(Seq::empty())
    } else {
        match read_run(end_read_byte, bytes.drop_last()) {
            ReadState::NeedByte(frame) => read_step(
                end_read_byte,
                frame,
                Ok::<i8, IoErrKind>(bytes.last()),
            ),
            done => done,
        }
    }
}

/// As long as no terminator is read, the frame holds every byte read but the
/// zero bytes, in their order, and the reader asks for more.
pub proof fn lemma_read_run_unterminated(end_read_byte: i8, bytes: Seq<i8>)
    requires
        forall|i: int| 0 <= i < bytes.len() ==> bytes[i] != end_read_byte,
    ensures
        read_run(end_read_byte, bytes) == ReadState::NeedByte(strip_nul(bytes)),
    decreases bytes.len(),
{
    reveal(Seq::filter);
    if bytes.len() > 0 {
        lemma_read_run_unterminated(end_read_byte, bytes.drop_last());
    } else {
        assert(strip_nul(bytes) =~= Seq::<i8>::empty());
    }
}

/// The first terminator completes the frame: it holds the bytes before the
/// terminator but the zero bytes, and neither the terminator nor any byte
/// after it.
pub proof fn lemma_read_run_terminated(end_read_byte: i8, bytes: Seq<i8>, k: int)
    requires
        0 <= k < bytes.len(),
        bytes[k] == end_read_byte,
        forall|i: int| 0 <= i < k ==> bytes[i] != end_read_byte,
    ensures
        read_run(end_read_byte, bytes) == ReadState::Complete(strip_nul(bytes.take(k))),
    decreases bytes.len(),
{
    if bytes.len() == k + 1 {
        assert(bytes.drop_last() =~= bytes.take(k));
        lemma_read_run_unterminated(end_read_byte, bytes.take(k));
    } else {
        lemma_read_run_terminated(end_read_byte, bytes.drop_last(), k);
        assert(bytes.drop_last().take(k) =~= bytes.take(k));
    }
}

/// Where an exchange stands after a sequence of events, or the failure that
/// ended it.
pub open spec fn exchange_run(
    port: PortView,
    data: Seq<&str>,
    state: ExchangeView,
    events: Seq<ExchangeEvent>,
) -> Result<ExchangeView, IoErrKind>
    decreases events.len(),
{
    if events.len() == 0 {
        Ok(state)
    } else {
        match exchange_run(port, data, state, events.drop_last()) {
            Ok(before) => exchange_advance(port, data, before, events.last()),
            Err(kind) => Err(kind),
        }
    }
}

/// The events of reading these bytes one after another with success.
pub open spec fn read_events(bytes: Seq<i8>) -> Seq<ExchangeEvent> {
    bytes.map_values(|b: i8| ExchangeEvent::Read(Ok::<i8, IoErrKind>(b)))
}

/// The events of one segment whose transfers all succeed: two writes, then
/// the bytes of the reply.
pub open spec fn round_events(
    written: usize,
    written_end: usize,
    reply: Seq<i8>,
) -> Seq<ExchangeEvent> {
    seq![
        ExchangeEvent::Wrote(Ok::<usize, IoErrKind>(written)),
        ExchangeEvent::Wrote(Ok::<usize, IoErrKind>(written_end)),
    ] + read_events(reply)
}

proof fn lemma_round_unterminated(
    port: PortView,
    data: Seq<&str>,
    state: ExchangeView,
    written: usize,
    written_end: usize,
    reply: Seq<i8>,
)
    requires
        state.segment < data.len(),
        state.phase == ExchangePhase::WriteSegment,
        forall|i: int| 0 <= i < reply.len() ==> reply[i] != port.end_read_byte,
    ensures
        exchange_run(port, data, state, round_events(written, written_end, reply)) == Ok::<
            ExchangeView,
            IoErrKind,
        >(ExchangeView { phase: ExchangePhase::ReadReply, frame: strip_nul(reply), ..state }),
    decreases reply.len(),
{
    reveal(Seq::filter);
    let events = round_events(written, written_end, reply);
    if reply.len() == 0 {
        let first = events.drop_last();
        assert(first.drop_last().len() == 0);
        assert(exchange_run(port, data, state, first.drop_last()) == Ok::<
            ExchangeView,
            IoErrKind,
        >(state));
        assert(first.last() == ExchangeEvent::Wrote(Ok::<usize, IoErrKind>(written)));
        assert(events.last() == ExchangeEvent::Wrote(Ok::<usize, IoErrKind>(written_end)));
        assert(strip_nul(reply) =~= Seq::<i8>::empty());
        let terminator = ExchangeView { phase: ExchangePhase::WriteTerminator, ..state };
        assert(exchange_run(port, data, state, first) == Ok::<ExchangeView, IoErrKind>(
            terminator,
        ));
    } else {
        lemma_round_unterminated(port, data, state, written, written_end, reply.drop_last());
        assert(events.drop_last() =~= round_events(written, written_end, reply.drop_last()));
        assert(events.last() == ExchangeEvent::Read(Ok::<i8, IoErrKind>(reply.last())));
    }
}

/// Whether a reply ends with the terminator and holds it nowhere else.
pub open spec fn ends_at_terminator(end_read_byte: i8, reply: Seq<i8>) -> bool {
    &&& reply.len() > 0
    &&& reply.last() == end_read_byte
    &&& forall|i: int| 0 <= i < reply.len() - 1 ==> reply[i] != end_read_byte
}

/// One segment of an exchange whose transfers all succeed: after the two
/// writes and a reply that ends with the first terminator in it, the next
/// segment is due, and the replies have grown by the bytes of the reply
/// without the terminator and without the zero bytes.
pub proof fn lemma_exchange_round(
    port: PortView,
    data: Seq<&str>,
    state: ExchangeView,
    written: usize,
    written_end: usize,
    reply: Seq<i8>,
)
    requires
        state.segment < data.len(),
        state.phase == ExchangePhase::WriteSegment,
        ends_at_terminator(port.end_read_byte, reply),
    ensures
        exchange_run(port, data, state, round_events(written, written_end, reply)) == Ok::<
            ExchangeView,
            IoErrKind,
        >(
            ExchangeView {
                segment: (state.segment + 1) as usize,
                phase: ExchangePhase::WriteSegment,
                frame: Seq::empty(),
                replies: state.replies + strip_nul(reply.drop_last()),
            },
        ),
{
    let events = round_events(written, written_end, reply);
    lemma_round_unterminated(port, data, state, written, written_end, reply.drop_last());
    assert(events.drop_last() =~= round_events(written, written_end, reply.drop_last()));
    assert(events.last() == ExchangeEvent::Read(Ok::<i8, IoErrKind>(reply.last())));
}

/// What the line does in one segment of an exchange whose transfers all
/// succeed: the two counts of bytes written and the bytes of the reply.
pub struct Round {
    pub written: usize,
    pub written_end: usize,
    pub reply: Seq<i8>,
}

/// The events of these rounds, one round after another.
pub open spec fn rounds_events(rounds: Seq<Round>) -> Seq<ExchangeEvent>
    decreases rounds.len(),
{
    if rounds.len() == 0 {
        Seq::empty()
    } else {
        rounds_events(rounds.drop_last()) + round_events(
            rounds.last().written,
            rounds.last().written_end,
            rounds.last().reply,
        )
    }
}

/// The replies of these rounds as one sequence: of each reply the bytes
/// before the terminator without the zero bytes, in the order of the rounds.
pub open spec fn rounds_replies(rounds: Seq<Round>) -> Seq<i8>
    decreases rounds.len(),
{
    if rounds.len() == 0 {
        Seq::empty()
    } else {
        rounds_replies(rounds.drop_last()) + strip_nul(rounds.last().reply.drop_last())
    }
}

/// Events taken one after another may be taken in two parts.
pub proof fn lemma_exchange_run_split(
    port: PortView,
    data: Seq<&str>,
    state: ExchangeView,
    first: Seq<ExchangeEvent>,
    second: Seq<ExchangeEvent>,
)
    ensures
        exchange_run(port, data, state, first + second) == match exchange_run(
            port,
            data,
            state,
            first,
        ) {
            Ok(between) => exchange_run(port, data, between, second),
            Err(kind) => Err(kind),
        },
    decreases second.len(),
{
    if second.len() == 0 {
        assert(first + second =~= first);
    } else {
        lemma_exchange_run_split(port, data, state, first, second.drop_last());
        assert((first + second).drop_last() =~= first + second.drop_last());
        assert((first + second).last() == second.last());
    }
}

/// An exchange whose transfers all succeed, with one well-ended reply for
/// each of its first segments: after those rounds the next segment is due and
/// the replies are those of the rounds, one after another.
pub proof fn lemma_exchange_rounds(port: PortView, data: Seq<&str>, rounds: Seq<Round>)
    requires
        rounds.len() <= data.len(),
        data.len() <= usize::MAX,
        forall|i: int|
            0 <= i < rounds.len() ==> ends_at_terminator(
                port.end_read_byte,
                (#[trigger] rounds[i]).reply,
            ),
    ensures
        exchange_run(port, data, exchange_start(), rounds_events(rounds)) == Ok::<
            ExchangeView,
            IoErrKind,
        >(
            ExchangeView {
                segment: rounds.len() as usize,
                phase: ExchangePhase::WriteSegment,
                frame: Seq::empty(),
                replies: rounds_replies(rounds),
            },
        ),
    decreases rounds.len(),
{
    if rounds.len() > 0 {
        let before = rounds.drop_last();
        let last = rounds.last();
        lemma_exchange_rounds(port, data, before);
        let state = ExchangeView {
            segment: before.len() as usize,
            phase: ExchangePhase::WriteSegment,
            frame: Seq::empty(),
            replies: rounds_replies(before),
        };
        lemma_exchange_run_split(
            port,
            data,
            exchange_start(),
            rounds_events(before),
            round_events(last.written, last.written_end, last.reply),
        );
        lemma_exchange_round(port, data, state, last.written, last.written_end, last.reply);
    }
}

/// An exchange whose transfers all succeed, with one well-ended reply for
/// every segment, finishes with the replies of all rounds, one after another.
pub proof fn lemma_exchange_finishes(port: PortView, data: Seq<&str>, rounds: Seq<Round>)
    requires
        rounds.len() == data.len(),
        data.len() <= usize::MAX,
        forall|i: int|
            0 <= i < rounds.len() ==> ends_at_terminator(
                port.end_read_byte,
                (#[trigger] rounds[i]).reply,
            ),
    ensures
        exchange_run(port, data, exchange_start(), rounds_events(rounds)) is Ok,
        exchange_pending(
            port,
            data,
            exchange_run(port, data, exchange_start(), rounds_events(rounds))->Ok_0,
        ) == ExchangeStepView::Finished(rounds_replies(rounds)),
{
    lemma_exchange_rounds(port, data, rounds);
}

/// An exchange ends as soon as the transfer it asked for fails, with the kind
/// of that failure: nothing is tried again and no further segment is written.
pub proof fn lemma_exchange_fails_at_once(
    port: PortView,
    data: Seq<&str>,
    state: ExchangeView,
    kind: IoErrKind,
)
    requires
        state.segment < data.len(),
    ensures
        state.phase != ExchangePhase::ReadReply ==> exchange_step(
            port,
            data,
            state,
            ExchangeEvent::Wrote(Err(kind)),
        ) == ExchangeStepView::Failed(kind),
        state.phase == ExchangePhase::ReadReply ==> exchange_step(
            port,
            data,
            state,
            ExchangeEvent::Read(Err(kind)),
        ) == ExchangeStepView::Failed(kind),
{
}

/// The text `64` stands for a limit of 64 bytes.
proof fn lemma_default_buffer_size()
    ensures
        buffer_size_of("64"@) == Some(RecBufferSize::Limmit(64)),
{
    reveal_strlit("64");
    reveal_strlit("unlimited");
    let s = "64"@;
    assert(ascii_lowercase(s).len() == 2);
    assert(all_digits(unsigned_part(s)));
    assert(s.drop_last() =~= seq!['6']);
    reveal_with_fuel(digits_value, 3);
}

/// Where an opening session stands after the device was opened, configured
/// and given its timeout, all three with success.
pub open spec fn opened_with_success<'a>(opener: OpenerView<'a>) -> OpenStepView<'a> {
    let opened = open_step(opener, Ok(()));
    let configured = open_step(opened->Pending_0, Ok(()));
    open_step(configured->Pending_0, Ok(()))
}

/// An opening session whose three transfers succeed gives a session with the
/// terminators it was asked for if the text of its buffer limit is valid, and
/// else fails with that text; the two transfers before the last leave it
/// pending.
pub proof fn lemma_opening_with_success<'a>(opener: OpenerView<'a>)
    requires
        opener.stage == OpenStage::OpenDevice,
    ensures
        open_step(opener, Ok(())) is Pending,
        open_step(open_step(opener, Ok(()))->Pending_0, Ok(())) is Pending,
        opened_with_success(opener) == match buffer_size_of(opener.receiving_buffer_size@) {
            Some(limit) => OpenStepView::Ready(
                PortView {
                    receiving_buffer_size: limit,
                    end_write_byte: opener.end_write_byte,
                    end_read_byte: opener.end_read_byte,
                },
            ),
            None => OpenStepView::Failed(
                SerlibErr::InvalidBufSizeErr(opener.receiving_buffer_size),
            ),
        },
{
}

/// An opening session fails as soon as a transfer fails, whatever its stage,
/// with the error of that failure.
pub proof fn lemma_opening_fails_at_once<'a>(opener: OpenerView<'a>, kind: CoreErrKind)
    ensures
        open_step(opener, Err(kind)) == OpenStepView::Failed(core_error(kind)),
{
}

/// A session opened with the default settings is ready after the device was
/// opened, configured and given its timeout with success: it reads frames up
/// to the byte 0x1C, writes the letter `S` after every segment and accepts
/// segments of at most 64 bytes.
pub proof fn lemma_default_opening_ready(port: Seq<char>, baud_rate: usize)
    ensures
        opened_with_success(default_opening(port, baud_rate)) == OpenStepView::Ready(
            PortView {
                receiving_buffer_size: RecBufferSize::Limmit(64),
                end_write_byte: seq![0x53u8],
                end_read_byte: 0x1C,
            },
        ),
{
    lemma_default_buffer_size();
    lemma_opening_with_success(default_opening(port, baud_rate));
}

} // verus!
