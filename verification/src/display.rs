//! Model of the display device: pixels, write transactions, and the sink
//! capability that accepts rectangular one-row-tall pixel-region writes.

use vstd::prelude::*;

verus! {

/// Horizontal resolution of the panel, in pixels.
pub const WIDTH: usize = 240;

/// Vertical resolution of the panel, in pixels.
pub const HEIGHT: usize = 240;

/// A pixel in 5-6-5 RGB packing, the one in-memory representation used
/// end-to-end between rasterizer output and hardware write.
pub type Pixel = u16;

/// A failure of the physical transport while a write transaction was in
/// flight. The transaction takes effect atomically: on failure nothing of
/// it reaches the panel.
#[derive(Clone, Copy, PartialEq, Eq, Structural, Debug)]
pub enum TransportError {
    /// The bus was busy and the transfer could not start.
    Busy,
    /// The controller did not acknowledge the transfer.
    Nack,
    /// The transfer did not complete in time.
    Timeout,
}

/// One committed write transaction: the pixels sent to the rectangular
/// region (x: [start, end), y: [row, row + 1)).
#[derive(Debug)]
pub struct WriteTx {
    pub row: usize,
    pub start: usize,
    pub end: usize,
    pub pixels: Vec<Pixel>,
}

/// Mathematical image of a write transaction.
pub struct WriteTxView {
    pub row: int,
    pub start: int,
    pub end: int,
    pub pixels: Seq<Pixel>,
}

impl View for WriteTx {
    type V = WriteTxView;

    open spec fn view(&self) -> WriteTxView {
        WriteTxView {
            row: self.row as int,
            start: self.start as int,
            end: self.end as int,
            pixels: self.pixels@,
        }
    }
}

/// The display device capability: a sink of rectangular pixel-region
/// writes, modelled by the sequence of transactions it has committed.
///
/// An implementation decides for itself whether a given transfer succeeds
/// (a real transport can fail at any time); the contract only pins down
/// what each outcome means for the committed history.
pub trait DisplaySink {
    /// The transactions committed to the panel so far, oldest first.
    spec fn committed(&self) -> Seq<WriteTxView>;

    /// Whether a write targeting `row` might fail. On a row where the
    /// sink cannot fail, success is owed; a real transport, which can be
    /// busy or time out at any moment, may answer `true` everywhere.
    spec fn may_fail_on(&self, row: int) -> bool;

    /// Sends `pixels` to the region (x: [start, end), y: [row, row + 1)).
    /// On success exactly that transaction is appended to the committed
    /// history; on failure the history is unchanged — the transaction
    /// takes effect atomically or not at all.
    fn write_region(
        &mut self,
        row: usize,
        start: usize,
        end: usize,
        pixels: &[Pixel],
    ) -> (r: Result<(), TransportError>)
        requires
            row < HEIGHT,
            start < end,
            end <= WIDTH,
            pixels@.len() == end - start,
        ensures
            match r {
                Ok(()) => final(self).committed() == old(self).committed().push(
                    WriteTxView {
                        row: row as int,
                        start: start as int,
                        end: end as int,
                        pixels: pixels@,
                    },
                ),
                Err(_) => final(self).committed() == old(self).committed() && old(
                    self,
                ).may_fail_on(row as int),
            },
            forall|q: int| #[trigger] final(self).may_fail_on(q) == old(self).may_fail_on(q),
    ;
}

} // verus!
