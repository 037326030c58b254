use scanline_bridge::adapter::DrawBuffer;
use scanline_bridge::display::TransportError;
use scanline_bridge::display::WIDTH;
use scanline_bridge::producer::ColumnProducer;
use scanline_bridge::producer::SolidProducer;
use scanline_bridge::sim::SimDisplay;

#[test]
fn single_dirty_row_solid_red() {
    // One dirty row (row 5, columns [10, 50)) filled with solid 0xF800:
    // exactly one transaction, 40 pixels, all red, to that region.
    let mut buffer = DrawBuffer::new();
    let mut display = SimDisplay::new();
    let producer = SolidProducer { color: 0xF800 };
    let r = buffer.process_line(&mut display, &producer, 5, 10, 50);
    assert_eq!(r, Ok(()));
    assert_eq!(display.write_count(), 1);
    let tx = display.write_at(0);
    assert_eq!(tx.row, 5);
    assert_eq!(tx.start, 10);
    assert_eq!(tx.end, 50);
    assert_eq!(tx.pixels.len(), 40);
    assert!(tx.pixels.iter().all(|&p| p == 0xF800));
}

#[test]
fn writes_exactly_the_segment() {
    // The transaction carries exactly (end - start) pixels, each the one
    // the producer rendered for its column, and nothing else is written.
    let mut buffer = DrawBuffer::new();
    let mut display = SimDisplay::new();
    let producer = ColumnProducer {};
    let r = buffer.process_line(&mut display, &producer, 7, 3, 20);
    assert_eq!(r, Ok(()));
    assert_eq!(display.write_count(), 1);
    let tx = display.write_at(0);
    assert_eq!(tx.row, 7);
    assert_eq!(tx.start, 3);
    assert_eq!(tx.end, 20);
    assert_eq!(tx.pixels.len(), 17);
    for i in 0..17 {
        assert_eq!(tx.pixels[i], (3 + i) as u16);
    }
}

#[test]
fn repeat_invocation_is_idempotent() {
    // The same (row, range, producer) twice: two identical transactions,
    // and the row buffer is in the same final state after each pass.
    let mut buffer = DrawBuffer::new();
    let mut display = SimDisplay::new();
    let producer = ColumnProducer {};
    assert_eq!(buffer.process_line(&mut display, &producer, 9, 30, 90), Ok(()));
    let snapshot: Vec<u16> = (0..WIDTH).map(|i| buffer.buffer_pixel(i)).collect();
    assert_eq!(buffer.process_line(&mut display, &producer, 9, 30, 90), Ok(()));
    assert_eq!(display.write_count(), 2);
    let first = display.write_at(0);
    let second = display.write_at(1);
    assert_eq!(first.row, second.row);
    assert_eq!(first.start, second.start);
    assert_eq!(first.end, second.end);
    assert_eq!(first.pixels, second.pixels);
    for i in 0..WIDTH {
        assert_eq!(buffer.buffer_pixel(i), snapshot[i]);
    }
}

#[test]
fn empty_range_is_a_no_op() {
    // A zero-length column range: no producer call, no write transaction,
    // and the row buffer is untouched.
    let mut buffer = DrawBuffer::new();
    let mut display = SimDisplay::new();
    let producer = SolidProducer { color: 0xFFFF };
    let r = buffer.process_line(&mut display, &producer, 9, 42, 42);
    assert_eq!(r, Ok(()));
    assert_eq!(display.write_count(), 0);
    for i in 0..WIDTH {
        assert_eq!(buffer.buffer_pixel(i), 0);
    }
}

#[test]
fn full_width_range_fills_whole_buffer() {
    // The range [0, 240) fills and transmits the entire row buffer.
    let mut buffer = DrawBuffer::new();
    let mut display = SimDisplay::new();
    let producer = ColumnProducer {};
    let r = buffer.process_line(&mut display, &producer, 0, 0, WIDTH);
    assert_eq!(r, Ok(()));
    assert_eq!(display.write_count(), 1);
    let tx = display.write_at(0);
    assert_eq!(tx.pixels.len(), WIDTH);
    for i in 0..WIDTH {
        assert_eq!(tx.pixels[i], i as u16);
        assert_eq!(buffer.buffer_pixel(i), i as u16);
    }
}

#[test]
fn no_stale_pixels_across_rows() {
    // Row r1 filled red on [0, 100), then row r2 blue on [100, 200) with a
    // disjoint range: r2's transmitted segment holds only r2's fill, even
    // though the buffer still holds r1's pixels outside that range.
    let mut buffer = DrawBuffer::new();
    let mut display = SimDisplay::new();
    let red = SolidProducer { color: 0xF800 };
    let blue = SolidProducer { color: 0x001F };
    assert_eq!(buffer.process_line(&mut display, &red, 1, 0, 100), Ok(()));
    assert_eq!(buffer.process_line(&mut display, &blue, 2, 100, 200), Ok(()));
    assert_eq!(display.write_count(), 2);
    let tx = display.write_at(1);
    assert_eq!(tx.row, 2);
    assert_eq!(tx.pixels.len(), 100);
    assert!(tx.pixels.iter().all(|&p| p == 0x001F));
    // the reused buffer still holds r1's fill outside r2's range
    assert_eq!(buffer.buffer_pixel(0), 0xF800);
    assert_eq!(buffer.buffer_pixel(99), 0xF800);
    assert_eq!(buffer.buffer_pixel(100), 0x001F);
}

#[test]
fn transport_failure_commits_nothing() {
    // A failing write propagates its error unchanged and the committed
    // history stays empty: the transaction is atomic.
    let producer = SolidProducer { color: 1 };
    for err in [TransportError::Busy, TransportError::Nack, TransportError::Timeout] {
        let mut buffer = DrawBuffer::new();
        let mut display = SimDisplay::new_failing_on(5, err);
        let r = buffer.process_line(&mut display, &producer, 5, 0, WIDTH);
        assert_eq!(r, Err(err));
        assert_eq!(display.write_count(), 0);
    }
}

#[test]
fn failure_is_limited_to_its_row() {
    // A sink that fails on one row accepts writes to every other row.
    let producer = SolidProducer { color: 2 };
    let mut buffer = DrawBuffer::new();
    let mut display = SimDisplay::new_failing_on(5, TransportError::Nack);
    let r = buffer.process_line(&mut display, &producer, 4, 0, WIDTH);
    assert_eq!(r, Ok(()));
    assert_eq!(display.write_count(), 1);
}
