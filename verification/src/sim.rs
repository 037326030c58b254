//! An in-memory display sink: commits transactions to a log instead of a
//! bus, with an optional injected transport failure on a chosen row. It
//! stands in for the hardware device wherever the bridge is exercised
//! without a panel attached.

use vstd::prelude::*;

use crate::display::DisplaySink;
use crate::display::Pixel;
use crate::display::TransportError;
use crate::display::WriteTx;
use crate::display::WriteTxView;

verus! {

/// A display device whose panel is a transaction log. If a failure is
/// injected for some row, every write targeting that row fails with the
/// injected error and commits nothing; all other writes succeed.
pub struct SimDisplay {
    writes: Vec<WriteTx>,
    failure: Option<(usize, TransportError)>,
}

impl SimDisplay {
    /// The injected failure, if any: the row on which writes fail and the
    /// error they fail with.
    pub closed spec fn failure_on(&self) -> Option<(usize, TransportError)> {
        self.failure
    }

    /// A sink that accepts every write.
    pub fn new() -> (d: SimDisplay)
        ensures
            d.committed() == Seq::<WriteTxView>::empty(),
            d.failure_on() is None,
    {
        SimDisplay { writes: Vec::new(), failure: None }
    }

    /// A sink on which every write targeting `row` fails with `err`.
    pub fn new_failing_on(row: usize, err: TransportError) -> (d: SimDisplay)
        ensures
            d.committed() == Seq::<WriteTxView>::empty(),
            d.failure_on() == Some((row, err)),
    {
        SimDisplay { writes: Vec::new(), failure: Some((row, err)) }
    }

    /// Clears the injected failure, as a transient transport fault clears
    /// itself; the committed history is kept.
    pub fn clear_failure(&mut self)
        ensures
            final(self).committed() == old(self).committed(),
            final(self).failure_on() is None,
    {
        self.failure = None;
    }

    /// How many transactions have been committed.
    pub fn write_count(&self) -> (n: usize)
        ensures
            n == self.committed().len(),
    {
        self.writes.len()
    }

    /// The `i`-th committed transaction, oldest first.
    pub fn write_at(&self, i: usize) -> (t: &WriteTx)
        requires
            i < self.committed().len(),
        ensures
            t@ == self.committed()[i as int],
    {
        &self.writes[i]
    }
}

impl DisplaySink for SimDisplay {
    closed spec fn committed(&self) -> Seq<WriteTxView> {
        Seq::new(self.writes@.len(), |i: int| self.writes@[i]@)
    }

    open spec fn may_fail_on(&self, row: int) -> bool {
        match self.failure_on() {
            Some((fr, _)) => fr == row,
            None => false,
        }
    }

    fn write_region(
        &mut self,
        row: usize,
        start: usize,
        end: usize,
        pixels: &[Pixel],
    ) -> (r: Result<(), TransportError>)
        ensures
            final(self).failure_on() == old(self).failure_on(),
            match old(self).failure_on() {
                Some((fr, e)) => r == (if fr == row {
                    Err::<(), TransportError>(e)
                } else {
                    Ok::<(), TransportError>(())
                }),
                None => r is Ok,
            },
    {
        match self.failure {
            Some((fail_row, err)) => {
                if fail_row == row {
                    return Err(err);
                }
            },
            None => {},
        }
        let mut payload: Vec<Pixel> = Vec::new();
        let mut i: usize = 0;
        while i < pixels.len()
            invariant
                i <= pixels@.len(),
                payload@ == pixels@.take(i as int),
            decreases pixels@.len() - i,
        {
            payload.push(*vstd::slice::slice_index_get(pixels, i));
            proof {
                assert(payload@ =~= pixels@.take(i + 1));
            }
            i += 1;
        }
        proof {
            assert(payload@ =~= pixels@);
        }
        let tx = WriteTx { row, start, end, pixels: payload };
        self.writes.push(tx);
        proof {
            assert(self.committed() =~= old(self).committed().push(
                WriteTxView {
                    row: row as int,
                    start: start as int,
                    end: end as int,
                    pixels: pixels@,
                },
            ));
        }
        Ok(())
    }
}

} // verus!
