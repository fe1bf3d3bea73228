//! Sending frames to an RGB panel by DMA, over and over.
#[allow(unused_imports)]
use crate::board::law_panel_sizes;
use crate::board::Board;
use vstd::prelude::*;

verus! {

/// Alignment that the frame buffer must have, in bytes.
pub const DMA_ALIGNMENT: usize = 64;

/// What the DMA engine reports, and what it hands back: the peripheral, the buffer, or the
/// transfer that holds both while it runs.
#[derive(Debug, PartialEq, Eq)]
pub enum DmaEvent<Dpi, Buf, Transfer> {
    /// Nothing was sent yet.
    Begin { dpi: Dpi, buf: Buf },
    /// The transfer was started.
    Started { transfer: Transfer },
    /// The transfer could not be started.
    Refused { dpi: Dpi, buf: Buf },
    /// The started transfer is over.
    Finished { ok: bool, dpi: Dpi, buf: Buf },
}

/// What the display task does next.
#[derive(Debug, PartialEq, Eq)]
pub enum DmaAction<Dpi, Buf, Transfer> {
    /// Send the first `length` bytes of the buffer through the peripheral, once; report
    /// first that the transfer before failed, if it did.
    Send { dpi: Dpi, buf: Buf, length: usize, report_failure: bool },
    /// Wait for the transfer to end.
    Wait { transfer: Transfer },
}

/// What the display task of `board` does after `event`.
pub open spec fn dma_step<Dpi, Buf, Transfer>(
    board: Board,
    event: DmaEvent<Dpi, Buf, Transfer>,
) -> DmaAction<Dpi, Buf, Transfer> {
    let length = (2 * board.pixels()) as usize;
    match event {
        DmaEvent::Begin { dpi, buf } => DmaAction::Send {
            dpi,
            buf,
            length,
            report_failure: false,
        },
        DmaEvent::Started { transfer } => DmaAction::Wait { transfer },
        DmaEvent::Refused { dpi, buf } => DmaAction::Send {
            dpi,
            buf,
            length,
            report_failure: true,
        },
        DmaEvent::Finished { ok, dpi, buf } => DmaAction::Send {
            dpi,
            buf,
            length,
            report_failure: !ok,
        },
    }
}

/// What the display task of `board` does after `event`: it sends full frames for ever, with
/// the peripheral and the buffer that it was handed back, and goes on with the next frame
/// whether or not the one before got through.
pub fn next_dma_action<Dpi, Buf, Transfer>(
    board: Board,
    event: DmaEvent<Dpi, Buf, Transfer>,
) -> (action: DmaAction<Dpi, Buf, Transfer>)
    ensures
        action == dma_step(board, event),
{
    let length: usize = board.frame_bytes();
    match event {
        DmaEvent::Begin { dpi, buf } => DmaAction::Send {
            dpi,
            buf,
            length,
            report_failure: false,
        },
        DmaEvent::Started { transfer } => DmaAction::Wait { transfer },
        DmaEvent::Refused { dpi, buf } => DmaAction::Send {
            dpi,
            buf,
            length,
            report_failure: true,
        },
        DmaEvent::Finished { ok, dpi, buf } => DmaAction::Send {
            dpi,
            buf,
            length,
            report_failure: !ok,
        },
    }
}

/// Number of DMA descriptors that a buffer of `frame_bytes` takes when one descriptor
/// covers up to `chunk_size` bytes.
pub fn dma_descriptor_count(frame_bytes: usize, chunk_size: usize) -> (n: usize)
    requires
        chunk_size > 0,
        frame_bytes + chunk_size <= usize::MAX,
    ensures
        n * chunk_size >= frame_bytes,
        n > 0 ==> (n - 1) * chunk_size < frame_bytes,
{
    let n: usize = (frame_bytes + chunk_size - 1) / chunk_size;
    proof {
        let a: int = frame_bytes + chunk_size - 1;
        let c: int = chunk_size as int;
        vstd::arithmetic::div_mod::lemma_fundamental_div_mod(a, c);
        assert(c * (a / c) == (a / c) * c) by (nonlinear_arith);
        assert(((a / c) - 1) * c == (a / c) * c - c) by (nonlinear_arith);
    }
    n
}

/// Whether the frame buffer may be handed to the DMA engine: its address must be a
/// multiple of 64.
pub fn is_dma_aligned(address: usize) -> (ok: bool)
    ensures
        ok == (address % 64 == 0),
{
    address % DMA_ALIGNMENT == 0
}

/// One attempt to send a frame, as the DMA engine decides it.
pub struct DmaRound<Dpi, Buf, Transfer> {
    /// The transfer, if it was started.
    pub transfer: Option<Transfer>,
    /// Whether the started transfer ended well.
    pub ok: bool,
    /// The peripheral handed back.
    pub dpi: Dpi,
    /// The buffer handed back.
    pub buf: Buf,
}

/// What the display task does in a round that `event` leads to.
pub open spec fn round_actions<Dpi, Buf, Transfer>(
    board: Board,
    event: DmaEvent<Dpi, Buf, Transfer>,
    round: DmaRound<Dpi, Buf, Transfer>,
) -> Seq<DmaAction<Dpi, Buf, Transfer>> {
    match round.transfer {
        None => seq![dma_step(board, event)],
        Some(transfer) => seq![
            dma_step(board, event),
            dma_step(board, DmaEvent::Started { transfer }),
        ],
    }
}

/// How a round ends.
pub open spec fn round_end<Dpi, Buf, Transfer>(round: DmaRound<Dpi, Buf, Transfer>) -> DmaEvent<
    Dpi,
    Buf,
    Transfer,
> {
    match round.transfer {
        None => DmaEvent::Refused { dpi: round.dpi, buf: round.buf },
        Some(_) => DmaEvent::Finished { ok: round.ok, dpi: round.dpi, buf: round.buf },
    }
}

/// All that the display task does in a series of rounds after `first`, round by round.
pub open spec fn dma_actions<Dpi, Buf, Transfer>(
    board: Board,
    first: DmaEvent<Dpi, Buf, Transfer>,
    rounds: Seq<DmaRound<Dpi, Buf, Transfer>>,
) -> Seq<Seq<DmaAction<Dpi, Buf, Transfer>>>
    decreases rounds.len(),
{
    if rounds.len() == 0 {
        Seq::empty()
    } else {
        seq![round_actions(board, first, rounds[0])] + dma_actions(
            board,
            round_end(rounds[0]),
            rounds.skip(1),
        )
    }
}

/// What the display task does in one of a series of rounds.
proof fn lemma_round<Dpi, Buf, Transfer>(
    board: Board,
    first: DmaEvent<Dpi, Buf, Transfer>,
    rounds: Seq<DmaRound<Dpi, Buf, Transfer>>,
    i: int,
)
    requires
        0 <= i < rounds.len(),
    ensures
        dma_actions(board, first, rounds).len() == rounds.len(),
        dma_actions(board, first, rounds)[i] == round_actions(
            board,
            if i == 0 {
                first
            } else {
                round_end(rounds[i - 1])
            },
            rounds[i],
        ),
    decreases rounds.len(),
{
    reveal_with_fuel(dma_actions, 2);
    let rest = rounds.skip(1);
    if rest.len() > 0 {
        lemma_round(
            board,
            round_end(rounds[0]),
            rest,
            if i == 0 {
                0
            } else {
                i - 1
            },
        );
    }
}

/// However transfers are refused, fail or end well, the display task goes on: in every
/// round it sends one whole frame, with exactly the peripheral and the buffer that the round
/// before handed back, and waits for the transfer that this started, if any. It reports a
/// failure exactly if the round before failed.
pub proof fn law_handles_are_passed_on<Dpi, Buf, Transfer>(
    board: Board,
    dpi: Dpi,
    buf: Buf,
    rounds: Seq<DmaRound<Dpi, Buf, Transfer>>,
    i: int,
)
    requires
        0 <= i < rounds.len(),
    ensures
        ({
            let actions = dma_actions(board, DmaEvent::Begin { dpi, buf }, rounds);
            let send = DmaAction::Send {
                dpi: if i == 0 {
                    dpi
                } else {
                    rounds[i - 1].dpi
                },
                buf: if i == 0 {
                    buf
                } else {
                    rounds[i - 1].buf
                },
                length: (2 * board.spec_h_res() * board.spec_v_res()) as usize,
                report_failure: i > 0 && (rounds[i - 1].transfer is None || !rounds[i - 1].ok),
            };
            &&& actions.len() == rounds.len()
            &&& actions[i] == match rounds[i].transfer {
                None => seq![send],
                Some(transfer) => seq![send, DmaAction::Wait { transfer }],
            }
        }),
{
    lemma_round(board, DmaEvent::Begin { dpi, buf }, rounds, i);
    lemma_frame_length(board);
}

/// The length of a frame in bytes.
proof fn lemma_frame_length(board: Board)
    ensures
        2 * board.pixels() == 2 * board.spec_h_res() * board.spec_v_res(),
        2 * board.pixels() <= 460800,
{
    assert(board.pixels() == board.spec_h_res() * board.spec_v_res());
    assert(2 * board.pixels() == 2 * board.spec_h_res() * board.spec_v_res())
        by (nonlinear_arith)
        requires
            board.pixels() == board.spec_h_res() * board.spec_v_res(),
    ;
}

/// Every transfer of the display task is one whole frame, never more and never less.
pub proof fn law_whole_frames_only<Dpi, Buf, Transfer>(
    board: Board,
    event: DmaEvent<Dpi, Buf, Transfer>,
)
    ensures
        dma_step(board, event) matches DmaAction::Send { length, .. } ==> length == 2
            * board.spec_h_res() * board.spec_v_res(),
{
    lemma_frame_length(board);
}

/// The ESoPe sends frames of 153600 bytes and the LCD-EV-Board frames of 460800 bytes,
/// whatever came before. What was handed back is what is used next, and a transfer that was
/// started is waited for.
pub proof fn law_transfers_of_each_board<Dpi, Buf, Transfer>(
    board: Board,
    dpi: Dpi,
    buf: Buf,
    transfer: Transfer,
    ok: bool,
)
    ensures
        ({
            let length: usize = if board == Board::LcdEv {
                460_800
            } else {
                153_600
            };
            let first: DmaEvent<Dpi, Buf, Transfer> = DmaEvent::Begin { dpi, buf };
            let refused: DmaEvent<Dpi, Buf, Transfer> = DmaEvent::Refused { dpi, buf };
            let finished: DmaEvent<Dpi, Buf, Transfer> = DmaEvent::Finished { ok, dpi, buf };
            let started: DmaEvent<Dpi, Buf, Transfer> = DmaEvent::Started { transfer };
            let plain: DmaAction<Dpi, Buf, Transfer> = DmaAction::Send {
                dpi,
                buf,
                length,
                report_failure: false,
            };
            let reporting: DmaAction<Dpi, Buf, Transfer> = DmaAction::Send {
                dpi,
                buf,
                length,
                report_failure: true,
            };
            let wait: DmaAction<Dpi, Buf, Transfer> = DmaAction::Wait { transfer };
            &&& dma_step(board, first) == plain
            &&& dma_step(board, refused) == reporting
            &&& dma_step(board, finished) == if ok {
                plain
            } else {
                reporting
            }
            &&& dma_step(board, started) == wait
        }),
{
    law_panel_sizes(board);
}

} // verus!
