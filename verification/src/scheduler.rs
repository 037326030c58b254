//! The frame scheduler: drives render/idle iterations of the cooperative
//! loop. Each iteration is an explicit step — given the dirty rows the
//! rasterizer reported (if any) and whether an animation is running, it
//! either renders the frame row by row through the adapter or stays idle,
//! and says whether the loop should run again immediately or may idle.

use vstd::prelude::*;

use crate::adapter::buf_after;
use crate::adapter::line_tx;
use crate::adapter::DrawBuffer;
use crate::display::DisplaySink;
use crate::display::Pixel;
use crate::display::TransportError;
use crate::display::WriteTxView;
use crate::display::HEIGHT;
use crate::display::WIDTH;
use crate::producer::PixelProducer;

verus! {

/// One dirty row segment the rasterizer reported: columns
/// `[start, end)` of `row` changed and must be repainted.
#[derive(Clone, Copy, Debug)]
pub struct RowDesc {
    pub row: usize,
    pub start: usize,
    pub end: usize,
}

/// Mathematical image of a row descriptor.
pub struct RowDescView {
    pub row: int,
    pub start: int,
    pub end: int,
}

impl View for RowDesc {
    type V = RowDescView;

    open spec fn view(&self) -> RowDescView {
        RowDescView { row: self.row as int, start: self.start as int, end: self.end as int }
    }
}

/// A row descriptor that fits the panel.
pub open spec fn row_desc_wf(r: RowDescView) -> bool {
    &&& 0 <= r.row < HEIGHT
    &&& 0 <= r.start <= r.end <= WIDTH
}

/// The views of a sequence of row descriptors.
pub open spec fn row_views(rows: Seq<RowDesc>) -> Seq<RowDescView> {
    Seq::new(rows.len(), |i: int| rows[i]@)
}

/// The write transactions a complete pass over `rows` commits, in order:
/// one transaction per non-empty segment, none for empty ones.
pub open spec fn pass_txs<P: PixelProducer>(p: &P, rows: Seq<RowDescView>) -> Seq<WriteTxView>
    decreases rows.len(),
{
    if rows.len() == 0 {
        Seq::empty()
    } else {
        let last = rows.last();
        pass_txs(p, rows.drop_last()) + (if last.start < last.end {
            seq![line_tx(p, last.row, last.start, last.end)]
        } else {
            Seq::empty()
        })
    }
}

/// The row buffer after a pass over `rows`: each descriptor's segment
/// overwritten in turn by the producer's pixels for its row.
pub open spec fn buf_after_pass<P: PixelProducer>(
    buf0: Seq<Pixel>,
    p: &P,
    rows: Seq<RowDescView>,
) -> Seq<Pixel>
    decreases rows.len(),
{
    if rows.len() == 0 {
        buf0
    } else {
        let last = rows.last();
        buf_after(buf_after_pass(buf0, p, rows.drop_last()), p, last.row, last.start, last.end)
    }
}

/// Renders one pass: processes every row descriptor in the order given,
/// top to bottom as the rasterizer reports them, through the adapter.
///
/// On success the display has committed exactly the pass's transactions,
/// appended in order; success is owed whenever the sink cannot fail on
/// any of the pass's rows. A transport failure aborts the pass: the rows
/// before the failing one are already committed and stay, the failing row
/// (a non-empty segment on which the sink could fail) commits nothing,
/// and the rows after it are never attempted.
pub fn render_pass<P: PixelProducer, D: DisplaySink>(
    buffer: &mut DrawBuffer,
    display: &mut D,
    producer: &P,
    rows: &Vec<RowDesc>,
) -> (r: Result<(), TransportError>)
    requires
        old(buffer).wf(),
        forall|i: int| 0 <= i < rows@.len() ==> row_desc_wf(#[trigger] rows@[i]@),
    ensures
        final(buffer).wf(),
        match r {
            Ok(()) => final(display).committed() == old(display).committed() + pass_txs(
                producer,
                row_views(rows@),
            ) && final(buffer).buf() == buf_after_pass(
                old(buffer).buf(),
                producer,
                row_views(rows@),
            ),
            Err(_) => exists|k: int|
                0 <= k < rows@.len() && (#[trigger] rows@[k])@.start < rows@[k]@.end && old(
                    display,
                ).may_fail_on(rows@[k]@.row) && final(display).committed() == old(
                    display,
                ).committed() + pass_txs(producer, row_views(rows@).take(k))
                    && final(buffer).buf() == buf_after_pass(
                    old(buffer).buf(),
                    producer,
                    row_views(rows@).take(k + 1),
                ),
        },
        forall|q: int| #[trigger] final(display).may_fail_on(q) == old(display).may_fail_on(q),
{
    let mut i: usize = 0;
    while i < rows.len()
        invariant
            buffer.wf(),
            i <= rows@.len(),
            forall|j: int| 0 <= j < rows@.len() ==> row_desc_wf(#[trigger] rows@[j]@),
            display.committed() == old(display).committed() + pass_txs(
                producer,
                row_views(rows@).take(i as int),
            ),
            buffer.buf() == buf_after_pass(
                old(buffer).buf(),
                producer,
                row_views(rows@).take(i as int),
            ),
            forall|q: int| #[trigger] display.may_fail_on(q) == old(display).may_fail_on(q),
        decreases rows@.len() - i,
    {
        let rd = rows[i];
        proof {
            assert(row_desc_wf(rows@[i as int]@));
        }
        let res = buffer.process_line(display, producer, rd.row, rd.start, rd.end);
        proof {
            let views = row_views(rows@);
            assert(views.take(i + 1).drop_last() =~= views.take(i as int));
            assert(views.take(i + 1).last() == rows@[i as int]@);
        }
        if let Err(e) = res {
            return Err(e);
        }
        proof {
            assert(display.committed() =~= old(display).committed() + pass_txs(
                producer,
                row_views(rows@).take(i + 1),
            ));
        }
        i += 1;
    }
    proof {
        assert(row_views(rows@).take(rows@.len() as int) =~= row_views(rows@));
    }
    Ok(())
}

/// The two states of the scheduler's state machine: an iteration either
/// stays idle or renders a pass.
#[derive(Clone, Copy, PartialEq, Eq, Structural, Debug)]
pub enum SchedulerState {
    Idle,
    Rendering,
}

/// What the loop should do after an iteration: run the next iteration
/// immediately (an animation is still driving changes) or idle until an
/// external wake event or timer tick.
#[derive(Clone, Copy, PartialEq, Eq, Structural, Debug)]
pub enum LoopDirective {
    RunAgain,
    MayIdle,
}

/// What one scheduler iteration did.
#[derive(Debug)]
pub struct StepReport {
    /// The state this iteration entered.
    pub state: SchedulerState,
    /// How the rendering pass ended; an idle iteration always reports
    /// success.
    pub outcome: Result<(), TransportError>,
    /// Whether the loop must run again immediately or may idle.
    pub directive: LoopDirective,
}

/// One iteration of the cooperative loop, after time-driven UI state has
/// been advanced and the rasterizer has been asked what is dirty.
///
/// With no dirty rows the iteration is an idle pass: it commits nothing
/// and reports success. With dirty rows it renders them as one pass
/// through the adapter; a transport failure abandons the rest of that
/// pass, and the next iteration starts afresh. Either way the loop is told
/// to run again immediately exactly when an animation is still active.
pub fn step<P: PixelProducer, D: DisplaySink>(
    buffer: &mut DrawBuffer,
    display: &mut D,
    producer: &P,
    dirty: Option<&Vec<RowDesc>>,
    animations_active: bool,
) -> (report: StepReport)
    requires
        old(buffer).wf(),
        match dirty {
            Some(rows) => forall|i: int|
                0 <= i < rows@.len() ==> row_desc_wf(#[trigger] rows@[i]@),
            None => true,
        },
    ensures
        final(buffer).wf(),
        match dirty {
            None => report.state == SchedulerState::Idle && report.outcome == Ok::<
                (),
                TransportError,
            >(()) && final(display).committed() == old(display).committed() && final(buffer).buf()
                == old(buffer).buf(),
            Some(rows) => report.state == SchedulerState::Rendering && (match report.outcome {
                Ok(()) => final(display).committed() == old(display).committed() + pass_txs(
                    producer,
                    row_views(rows@),
                ) && final(buffer).buf() == buf_after_pass(
                    old(buffer).buf(),
                    producer,
                    row_views(rows@),
                ),
                Err(_) => exists|k: int|
                    0 <= k < rows@.len() && (#[trigger] rows@[k])@.start < rows@[k]@.end && old(
                        display,
                    ).may_fail_on(rows@[k]@.row) && final(display).committed() == old(
                        display,
                    ).committed() + pass_txs(producer, row_views(rows@).take(k))
                        && final(buffer).buf() == buf_after_pass(
                        old(buffer).buf(),
                        producer,
                        row_views(rows@).take(k + 1),
                    ),
            }),
        },
        forall|q: int| #[trigger] final(display).may_fail_on(q) == old(display).may_fail_on(q),
        report.directive == (if animations_active {
            LoopDirective::RunAgain
        } else {
            LoopDirective::MayIdle
        }),
{
    let (state, outcome) = match dirty {
        None => (SchedulerState::Idle, Ok(())),
        Some(rows) => (SchedulerState::Rendering, render_pass(buffer, display, producer, rows)),
    };
    let directive = if animations_active {
        LoopDirective::RunAgain
    } else {
        LoopDirective::MayIdle
    };
    StepReport { state, outcome, directive }
}

} // verus!
