use esp_slint_boards::ft5x06::{Ft5x06, TouchReply, TouchStep};

type Outcome = Result<Option<(u16, u16)>, &'static str>;

/// Runs a poll against fixed answers; returns the transfers made and the outcome.
fn poll(
    count: Result<[u8; 1], &'static str>,
    point: Result<[u8; 4], &'static str>,
) -> (Vec<(u8, u8, usize)>, Outcome) {
    let dev = Ft5x06::new("bus", 0x38);
    let mut transfers = Vec::new();
    let mut reply = TouchReply::Begin;
    loop {
        match dev.get_touch(reply) {
            TouchStep::Done(outcome) => return (transfers, outcome),
            TouchStep::WriteRead { address, register, length } => {
                transfers.push((address, register, length));
                reply = if register == 0x02 {
                    TouchReply::Count(count)
                } else {
                    TouchReply::Point(point)
                };
            }
        }
    }
}

#[test]
fn controller_keeps_bus_and_address() {
    let dev = Ft5x06::new("bus", 0x38);
    assert_eq!(dev.i2c, "bus");
    assert_eq!(dev.address, 0x38);
}

#[test]
fn no_touch_ends_after_the_count() {
    let (transfers, outcome) = poll(Ok([0x00]), Ok([1, 2, 3, 4]));
    assert_eq!(transfers, vec![(0x38, 0x02, 1)]);
    assert_eq!(outcome, Ok(None));
}

#[test]
fn upper_bits_of_the_count_are_no_touch() {
    let (_, outcome) = poll(Ok([0xF0]), Ok([1, 2, 3, 4]));
    assert_eq!(outcome, Ok(None));
}

#[test]
fn touch_reads_the_first_point() {
    let (transfers, outcome) = poll(Ok([0x01]), Ok([0x81, 0x23, 0x52, 0x0F]));
    assert_eq!(transfers, vec![(0x38, 0x02, 1), (0x38, 0x03, 4)]);
    assert_eq!(outcome, Ok(Some((0x123, 0x20F))));
}

#[test]
fn largest_coordinates() {
    let (_, outcome) = poll(Ok([0x05]), Ok([0xFF, 0xFF, 0xFF, 0xFF]));
    assert_eq!(outcome, Ok(Some((4095, 4095))));
}

#[test]
fn flag_bits_do_not_change_the_point() {
    let (_, plain) = poll(Ok([0x02]), Ok([0x01, 0x10, 0x00, 0x20]));
    let (_, flagged) = poll(Ok([0xA2]), Ok([0xC1, 0x10, 0xF0, 0x20]));
    assert_eq!(plain, flagged);
    assert_eq!(plain, Ok(Some((0x110, 0x20))));
}

#[test]
fn failed_count_read_ends_the_poll() {
    let (transfers, outcome) = poll(Err("nack"), Ok([1, 2, 3, 4]));
    assert_eq!(transfers.len(), 1);
    assert_eq!(outcome, Err("nack"));
}

#[test]
fn failed_point_read_ends_the_poll() {
    let (transfers, outcome) = poll(Ok([1]), Err("nack"));
    assert_eq!(transfers.len(), 2);
    assert_eq!(outcome, Err("nack"));
}
