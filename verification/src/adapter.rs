//! The line buffer adapter: one reusable row-sized pixel buffer bridging a
//! row-oriented pixel producer to a region-addressable display sink, with
//! O(1) extra memory regardless of display height.

use vstd::prelude::*;
use vstd::slice::slice_subrange;

use crate::display::DisplaySink;
use crate::display::Pixel;
use crate::display::TransportError;
use crate::display::WriteTxView;
use crate::display::HEIGHT;
use crate::display::WIDTH;
use crate::producer::PixelProducer;

verus! {

/// The pixel values a producer renders for columns `[start, end)` of `row`:
/// exactly the payload of the write transaction for that segment.
pub open spec fn line_pixels<P: PixelProducer>(p: &P, row: int, start: int, end: int) -> Seq<
    Pixel,
> {
    Seq::new((end - start) as nat, |i: int| p.pixel_at(row, start + i))
}

/// The write transaction the adapter issues for a non-empty segment
/// `[start, end)` of `row`. It depends on the producer and the segment
/// alone, never on what the row buffer held before.
pub open spec fn line_tx<P: PixelProducer>(p: &P, row: int, start: int, end: int) -> WriteTxView {
    WriteTxView { row, start, end, pixels: line_pixels(p, row, start, end) }
}

/// The row buffer after the adapter processes the segment: freshly
/// rendered pixels inside `[start, end)`, the previous contents elsewhere.
pub open spec fn buf_after<P: PixelProducer>(
    buf0: Seq<Pixel>,
    p: &P,
    row: int,
    start: int,
    end: int,
) -> Seq<Pixel> {
    Seq::new(buf0.len(), |i: int| if start <= i < end { p.pixel_at(row, i) } else { buf0[i] })
}

/// The line buffer adapter. It owns the one row-sized buffer, allocated
/// once and reused for every row of every frame.
pub struct DrawBuffer {
    line_buffer: Vec<Pixel>,
}

impl DrawBuffer {
    /// The current contents of the row buffer.
    pub closed spec fn buf(&self) -> Seq<Pixel> {
        self.line_buffer@
    }

    /// Well-formedness: the buffer spans exactly one full row.
    pub open spec fn wf(&self) -> bool {
        self.buf().len() == WIDTH
    }

    /// Allocates the row buffer, zero-filled, the only allocation the
    /// adapter ever makes.
    pub fn new() -> (d: DrawBuffer)
        ensures
            d.wf(),
            forall|i: int| 0 <= i < WIDTH ==> d.buf()[i] == 0u16,
    {
        let mut line_buffer: Vec<Pixel> = Vec::new();
        let mut i: usize = 0;
        while i < WIDTH
            invariant
                i <= WIDTH,
                line_buffer@.len() == i,
                forall|j: int| 0 <= j < i ==> line_buffer@[j] == 0u16,
            decreases WIDTH - i,
        {
            line_buffer.push(0u16);
            i += 1;
        }
        DrawBuffer { line_buffer }
    }

    /// Reads one pixel of the row buffer.
    pub fn buffer_pixel(&self, i: usize) -> (p: Pixel)
        requires
            self.wf(),
            i < WIDTH,
        ensures
            p == self.buf()[i as int],
    {
        self.line_buffer[i]
    }

    /// Processes one row descriptor: invokes the producer once to fill the
    /// columns `[start, end)` of the row buffer, then issues exactly one
    /// write transaction carrying that freshly filled segment to the region
    /// (x: [start, end), y: [row, row + 1)) of the display, and no other.
    ///
    /// An empty segment invokes no producer and issues no transaction. A
    /// transport failure is propagated unchanged, with nothing committed
    /// for this segment. The buffer outside `[start, end)` is never
    /// touched and never transmitted, and no allocation occurs.
    pub fn process_line<P: PixelProducer, D: DisplaySink>(
        &mut self,
        display: &mut D,
        producer: &P,
        row: usize,
        start: usize,
        end: usize,
    ) -> (r: Result<(), TransportError>)
        requires
            old(self).wf(),
            row < HEIGHT,
            start <= end,
            end <= WIDTH,
        ensures
            final(self).wf(),
            final(self).buf() == buf_after(
                old(self).buf(),
                producer,
                row as int,
                start as int,
                end as int,
            ),
            start == end ==> r == Ok::<(), TransportError>(()) && final(display).committed()
                == old(display).committed(),
            start < end ==> match r {
                Ok(()) => final(display).committed() == old(display).committed().push(
                    line_tx(producer, row as int, start as int, end as int),
                ),
                Err(_) => final(display).committed() == old(display).committed() && old(
                    display,
                ).may_fail_on(row as int),
            },
            forall|q: int| #[trigger] final(display).may_fail_on(q) == old(display).may_fail_on(q),
    {
        if start == end {
            proof {
                assert(self.buf() =~= buf_after(
                    self.buf(),
                    producer,
                    row as int,
                    start as int,
                    end as int,
                ));
            }
            return Ok(());
        }
        producer.fill(&mut self.line_buffer, row, start, end);
        proof {
            assert(self.buf() =~= buf_after(
                old(self).buf(),
                producer,
                row as int,
                start as int,
                end as int,
            ));
        }
        let segment = slice_subrange(self.line_buffer.as_slice(), start, end);
        proof {
            assert(segment@ =~= line_pixels(producer, row as int, start as int, end as int));
        }
        display.write_region(row, start, end, segment)
    }
}

/// Processing the same (row, segment, producer) twice is idempotent: the
/// second pass leaves the row buffer exactly as the first did, and — since
/// the transaction `line_tx` is a function of the producer and the segment
/// alone, never of the buffer — a committed history extended by two such
/// passes ends in two identical write transactions.
pub proof fn lemma_process_line_idempotent<P: PixelProducer>(
    buf0: Seq<Pixel>,
    committed0: Seq<WriteTxView>,
    p: &P,
    row: int,
    start: int,
    end: int,
)
    ensures
        buf_after(buf_after(buf0, p, row, start, end), p, row, start, end) == buf_after(
            buf0,
            p,
            row,
            start,
            end,
        ),
        ({
            let twice = committed0.push(line_tx(p, row, start, end)).push(
                line_tx(p, row, start, end),
            );
            twice[twice.len() - 1] == twice[twice.len() - 2]
        }),
{
    assert(buf_after(buf_after(buf0, p, row, start, end), p, row, start, end) =~= buf_after(
        buf0,
        p,
        row,
        start,
        end,
    ));
}

/// Buffer reuse is safe: after processing row `r1` and then row `r2`, every
/// pixel transmitted for `r2` is the one the producer rendered for `r2` —
/// nothing of `r1`'s fill leaks into `r2`'s transmitted segment, whatever
/// the two segments were.
pub proof fn lemma_no_stale_pixels<P: PixelProducer>(
    buf0: Seq<Pixel>,
    p: &P,
    r1: int,
    a1: int,
    b1: int,
    r2: int,
    a2: int,
    b2: int,
)
    requires
        a2 <= b2,
    ensures
        forall|i: int|
            a2 <= i < b2 ==> line_tx(p, r2, a2, b2).pixels[i - a2] == p.pixel_at(r2, i),
        forall|i: int|
            a2 <= i < b2 && 0 <= i < buf0.len() ==> buf_after(
                buf_after(buf0, p, r1, a1, b1),
                p,
                r2,
                a2,
                b2,
            )[i] == p.pixel_at(r2, i),
{
}

/// The full-width segment `[0, WIDTH)` fills the entire row buffer and
/// transmits all of it: afterwards the buffer holds exactly the producer's
/// whole row, which is exactly the transaction payload.
pub proof fn lemma_full_row<P: PixelProducer>(buf0: Seq<Pixel>, p: &P, row: int)
    requires
        buf0.len() == WIDTH,
    ensures
        buf_after(buf0, p, row, 0, WIDTH as int) == line_pixels(p, row, 0, WIDTH as int),
        line_tx(p, row, 0, WIDTH as int).pixels.len() == WIDTH,
{
    assert(buf_after(buf0, p, row, 0, WIDTH as int) =~= line_pixels(p, row, 0, WIDTH as int));
}

} // verus!
