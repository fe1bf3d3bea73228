//! FT5x06 touch controller: which registers a poll reads, and what they mean.
use vstd::prelude::*;

verus! {

/// Register that holds the number of touch points.
pub const TOUCH_COUNT_REG: u8 = 0x02;

/// First of the four registers that hold the coordinates of the first point.
pub const FIRST_POINT_REG: u8 = 0x03;

/// An FT5x06 on an I2C bus.
///
/// The bus handle is carried for whoever performs the transfers that
/// [`Ft5x06::get_touch`] asks for.
pub struct Ft5x06<I2C> {
    pub i2c: I2C,
    pub address: u8,
}

/// What the bus has answered so far in one poll.
pub enum TouchReply<E> {
    /// Nothing was asked yet.
    Begin,
    /// The touch count register, or the bus error.
    Count(Result<[u8; 1], E>),
    /// The four coordinate registers of the first point, or the bus error.
    Point(Result<[u8; 4], E>),
}

/// What a poll does next.
pub enum TouchStep<E> {
    /// Write the register number to the device, then read `length` bytes back.
    WriteRead { address: u8, register: u8, length: usize },
    /// The poll is over: the first touch point, if any, or the bus error.
    Done(Result<Option<(u16, u16)>, E>),
}

/// Whether the count register reports a touch: its low four bits are the count.
pub open spec fn is_touched(count: Seq<u8>) -> bool {
    count[0] % 16 != 0
}

/// A twelve-bit coordinate: the low four bits of the first byte, then the second byte.
pub open spec fn coordinate(high: u8, low: u8) -> int {
    (high % 16) * 256 + low
}

/// The first touch point, as the four coordinate registers give it.
pub open spec fn decoded_point(regs: Seq<u8>) -> (u16, u16) {
    (coordinate(regs[0], regs[1]) as u16, coordinate(regs[2], regs[3]) as u16)
}

/// What a poll does next after `reply`.
pub open spec fn touch_step<E>(address: u8, reply: TouchReply<E>) -> TouchStep<E> {
    match reply {
        TouchReply::Begin => TouchStep::WriteRead { address, register: 0x02, length: 1 },
        TouchReply::Count(Err(e)) => TouchStep::Done(Err(e)),
        TouchReply::Count(Ok(count)) => if is_touched(count@) {
            TouchStep::WriteRead { address, register: 0x03, length: 4 }
        } else {
            TouchStep::Done(Ok(None))
        },
        TouchReply::Point(Err(e)) => TouchStep::Done(Err(e)),
        TouchReply::Point(Ok(regs)) => TouchStep::Done(Ok(Some(decoded_point(regs@)))),
    }
}

/// What a whole poll comes to, when the bus answers `count` and, if asked, `point`.
pub open spec fn poll_result<E>(count: Result<[u8; 1], E>, point: Result<[u8; 4], E>) -> Result<
    Option<(u16, u16)>,
    E,
> {
    match count {
        Err(e) => Err(e),
        Ok(c) => if !is_touched(c@) {
            Ok(None)
        } else {
            match point {
                Err(e) => Err(e),
                Ok(p) => Ok(Some(decoded_point(p@))),
            }
        },
    }
}

/// The steps of a poll that has come to `reply`, on a bus that answers a read of the
/// count register with `count` and any other read with `point`; at most `fuel` of them.
pub open spec fn conversation<E>(
    address: u8,
    reply: TouchReply<E>,
    count: Result<[u8; 1], E>,
    point: Result<[u8; 4], E>,
    fuel: nat,
) -> Seq<TouchStep<E>>
    decreases fuel,
{
    if fuel == 0 {
        Seq::empty()
    } else {
        let step = touch_step(address, reply);
        match step {
            TouchStep::Done(_) => seq![step],
            TouchStep::WriteRead { register, .. } => {
                let answer = if register == 0x02 {
                    TouchReply::Count(count)
                } else {
                    TouchReply::Point(point)
                };
                seq![step] + conversation(address, answer, count, point, (fuel - 1) as nat)
            },
        }
    }
}

/// Joins the two bytes of a coordinate.
fn join_coordinate(high: u8, low: u8) -> (c: u16)
    ensures
        c == coordinate(high, low),
{
    let c: u16 = (((high & 0x0F) as u16) << 8) | low as u16;
    assert(c == (high % 16) * 256 + low) by (bit_vector)
        requires
            c == (((high & 0x0F) as u16) << 8) | low as u16,
    ;
    c
}

impl<I2C> Ft5x06<I2C> {
    /// The controller at `address` on the bus `i2c`.
    pub fn new(i2c: I2C, address: u8) -> (dev: Self)
        ensures
            dev.i2c == i2c,
            dev.address == address,
    {
        Self { i2c, address }
    }

    /// Reads the first touch point, one bus transfer at a time.
    ///
    /// Start with [`TouchReply::Begin`], perform each transfer that comes back and hand
    /// in its answer, until the poll is done. It ends in `Some((x, y))` if the panel is
    /// touched, in `None` otherwise, and in the bus error as soon as there is one.
    pub fn get_touch<E>(&self, reply: TouchReply<E>) -> (step: TouchStep<E>)
        ensures
            step == touch_step(self.address, reply),
    {
        match reply {
            TouchReply::Begin => TouchStep::WriteRead {
                address: self.address,
                register: TOUCH_COUNT_REG,
                length: 1,
            },
            TouchReply::Count(Err(e)) => TouchStep::Done(Err(e)),
            TouchReply::Count(Ok(buf)) => {
                let byte: u8 = buf[0];
                let count: u8 = byte & 0x0F;
                assert(count == byte % 16) by (bit_vector)
                    requires
                        count == byte & 0x0F,
                ;
                if count == 0 {
                    return TouchStep::Done(Ok(None));
                }
                TouchStep::WriteRead {
                    address: self.address,
                    register: FIRST_POINT_REG,
                    length: 4,
                }
            },
            TouchReply::Point(Err(e)) => TouchStep::Done(Err(e)),
            TouchReply::Point(Ok(data)) => {
                let x: u16 = join_coordinate(data[0], data[1]);
                let y: u16 = join_coordinate(data[2], data[3]);
                TouchStep::Done(Ok(Some((x, y))))
            },
        }
    }
}

/// A poll ends after at most two transfers: it reads the count; only if that succeeds
/// and reports a touch does it read the point; and it ends in [`poll_result`].
pub proof fn law_poll_runs_to_its_result<E>(
    address: u8,
    count: Result<[u8; 1], E>,
    point: Result<[u8; 4], E>,
    fuel: nat,
)
    requires
        fuel >= 3,
    ensures
        ({
            let steps = conversation(address, TouchReply::Begin, count, point, fuel);
            let read_count = TouchStep::<E>::WriteRead { address, register: 0x02, length: 1 };
            let read_point = TouchStep::<E>::WriteRead { address, register: 0x03, length: 4 };
            let done = TouchStep::Done(poll_result(count, point));
            if count is Ok && is_touched(count->Ok_0@) {
                steps == seq![read_count, read_point, done]
            } else {
                steps == seq![read_count, done]
            }
        }),
{
    reveal_with_fuel(conversation, 4);
    let steps = conversation(address, TouchReply::Begin, count, point, fuel);
    let read_count = TouchStep::<E>::WriteRead { address, register: 0x02, length: 1 };
    let read_point = TouchStep::<E>::WriteRead { address, register: 0x03, length: 4 };
    let done = TouchStep::Done(poll_result(count, point));
    if count is Ok && is_touched(count->Ok_0@) {
        assert(steps =~= seq![read_count, read_point, done]);
    } else {
        assert(steps =~= seq![read_count, done]);
    }
}

/// A reported point lies in the twelve-bit coordinate range of the controller.
pub proof fn law_point_is_twelve_bit<E>(
    count: Result<[u8; 1], E>,
    point: Result<[u8; 4], E>,
)
    requires
        poll_result(count, point) matches Ok(Some(_)),
    ensures
        poll_result(count, point)->Ok_0->Some_0.0 < 4096,
        poll_result(count, point)->Ok_0->Some_0.1 < 4096,
{
}

/// The flag bits above the count and above each coordinate do not change the outcome.
pub proof fn law_flag_bits_are_ignored<E>(c1: [u8; 1], c2: [u8; 1], p1: [u8; 4], p2: [u8; 4])
    requires
        c1@[0] % 16 == c2@[0] % 16,
        p1@[0] % 16 == p2@[0] % 16,
        p1@[1] == p2@[1],
        p1@[2] % 16 == p2@[2] % 16,
        p1@[3] == p2@[3],
    ensures
        poll_result::<E>(Ok(c1), Ok(p1)) == poll_result::<E>(Ok(c2), Ok(p2)),
{
}

/// Every position of the panel is read back: where the registers hold a twelve-bit `x` and a
/// twelve-bit `y`, the upper four bits of each in the low half of a byte and the lower eight
/// in the byte after it, the poll ends in exactly that point, whatever the flag bits.
pub proof fn law_stored_point_is_read_back<E>(address: u8, x: u16, y: u16, regs: [u8; 4])
    requires
        x < 4096,
        y < 4096,
        regs@[0] % 16 == x / 256,
        regs@[1] == x % 256,
        regs@[2] % 16 == y / 256,
        regs@[3] == y % 256,
    ensures
        touch_step::<E>(address, TouchReply::Point(Ok(regs))) == TouchStep::<E>::Done(
            Ok(Some((x, y))),
        ),
{
    assert(x == (x / 256) * 256 + x % 256);
    assert(y == (y / 256) * 256 + y % 256);
}

/// A whole poll of a panel that is touched: it reads one byte from register 2 and then four
/// from register 3, both at the address of the controller, and ends in the point that the
/// registers hold.
pub proof fn law_touched_panel_is_located<E>(
    address: u8,
    count: [u8; 1],
    x: u16,
    y: u16,
    regs: [u8; 4],
)
    requires
        count@[0] % 16 > 0,
        x < 4096,
        y < 4096,
        regs@[0] % 16 == x / 256,
        regs@[1] == x % 256,
        regs@[2] % 16 == y / 256,
        regs@[3] == y % 256,
    ensures
        conversation::<E>(address, TouchReply::Begin, Ok(count), Ok(regs), 3) == seq![
            TouchStep::<E>::WriteRead { address, register: 2, length: 1 },
            TouchStep::<E>::WriteRead { address, register: 3, length: 4 },
            TouchStep::<E>::Done(Ok(Some((x, y)))),
        ],
{
    law_stored_point_is_read_back::<E>(address, x, y, regs);
    law_poll_runs_to_its_result::<E>(address, Ok(count), Ok(regs), 3);
    assert(TouchStep::<E>::Done(Ok(Some((x, y)))) == touch_step::<E>(
        address,
        TouchReply::Point(Ok(regs)),
    ));
}

/// A whole poll of a panel that is not touched: one transfer, and no point, whatever the
/// point registers hold.
pub proof fn law_untouched_panel_has_no_point<E>(
    address: u8,
    count: [u8; 1],
    point: Result<[u8; 4], E>,
)
    requires
        count@[0] % 16 == 0,
    ensures
        conversation::<E>(address, TouchReply::Begin, Ok(count), point, 3) == seq![
            TouchStep::<E>::WriteRead { address, register: 2, length: 1 },
            TouchStep::<E>::Done(Ok(None)),
        ],
{
    law_poll_runs_to_its_result::<E>(address, Ok(count), point, 3);
}

/// A bus error ends the poll at once, and is what the poll comes to.
pub proof fn law_bus_error_ends_the_poll<E>(
    address: u8,
    e: E,
    count: [u8; 1],
    point: Result<[u8; 4], E>,
)
    ensures
        conversation::<E>(address, TouchReply::Begin, Err(e), point, 3) == seq![
            TouchStep::<E>::WriteRead { address, register: 2, length: 1 },
            TouchStep::<E>::Done(Err(e)),
        ],
        count@[0] % 16 > 0 ==> conversation::<E>(
            address,
            TouchReply::Begin,
            Ok(count),
            Err(e),
            3,
        ) == seq![
            TouchStep::<E>::WriteRead { address, register: 2, length: 1 },
            TouchStep::<E>::WriteRead { address, register: 3, length: 4 },
            TouchStep::<E>::Done(Err(e)),
        ],
{
    law_poll_runs_to_its_result::<E>(address, Err(e), point, 3);
    law_poll_runs_to_its_result::<E>(address, Ok(count), Err(e), 3);
}

} // verus!
