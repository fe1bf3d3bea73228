//! The panel's nine-bit serial line, bit-banged over three expander outputs.
use vstd::prelude::*;

verus! {

/// Chip select, active low.
pub const SCS_BIT: u8 = 0b0000_0010;

/// Serial clock.
pub const SCL_BIT: u8 = 0b0000_0100;

/// Serial data.
pub const SDA_BIT: u8 = 0b0000_1000;

/// The output lines with chip select, clock and data low, and the others at rest.
pub const LINES_BASE: u8 = 0b1111_0001;

/// The output lines before the first and after every byte: chip select high.
pub const LINES_IDLE: u8 = 0b1111_0011;

/// The directions of the lines: the three serial lines are outputs.
pub const LINES_DIRECTION: u8 = 0b1111_0001;

/// The output register for the given levels of the three serial lines.
pub open spec fn lines(sda: bool, scl: bool, scs: bool) -> u8 {
    (0xF1 + (if sda { 8int } else { 0 }) + (if scl { 4int } else { 0 }) + (if scs {
        2int
    } else {
        0
    })) as u8
}

/// The level of the data line.
pub open spec fn sda_level(output: u8) -> bool {
    output & 0b0000_1000 != 0
}

/// The level of the clock line.
pub open spec fn scl_level(output: u8) -> bool {
    output & 0b0000_0100 != 0
}

/// The level of the chip select line.
pub open spec fn scs_level(output: u8) -> bool {
    output & 0b0000_0010 != 0
}

/// Bit `i` of `b`, bit 0 being the least significant.
pub open spec fn bit_of(b: u8, i: int) -> bool {
    (b >> (i as u8)) & 1 != 0
}

/// The nine bits that carry a byte: low for a command and high for data, then the byte,
/// most significant bit first.
pub open spec fn frame_bits(b: u8, is_cmd: bool) -> Seq<bool> {
    Seq::new(
        9,
        |k: int|
            if k == 0 {
                !is_cmd
            } else {
                bit_of(b, 8 - k)
            },
    )
}

/// The outputs that shift one bit, when the data line is at `sda` and the clock at `scl`:
/// the data line changes if it has to, then the clock falls and rises.
pub open spec fn bit_writes(sda: bool, scl: bool, bit: bool) -> Seq<u8> {
    (if bit != sda {
        seq![lines(bit, scl, false)]
    } else {
        Seq::empty()
    }) + seq![lines(bit, false, false), lines(bit, true, false)]
}

/// The level of the data line once `bits` are shifted.
pub open spec fn sda_after(bits: Seq<bool>) -> bool {
    bits.len() > 0 && bits.last()
}

/// The outputs that shift `bits`, beginning with clock and data low.
pub open spec fn shift_writes(bits: Seq<bool>) -> Seq<u8>
    decreases bits.len(),
{
    if bits.len() == 0 {
        Seq::empty()
    } else {
        let before = bits.drop_last();
        shift_writes(before) + bit_writes(sda_after(before), before.len() > 0, bits.last())
    }
}

/// All outputs that send a byte: chip select falls, nine bits are shifted, then clock,
/// data and chip select go back to their idle levels, one after the other.
pub open spec fn byte_writes(b: u8, is_cmd: bool) -> Seq<u8> {
    let bits = frame_bits(b, is_cmd);
    seq![lines(false, false, false)] + shift_writes(bits) + seq![
        lines(bits.last(), false, false),
        lines(false, false, false),
        lines(false, false, true),
    ]
}

/// The bits that a panel receives while the outputs take the values `writes`, coming from
/// `start`: at each rising edge of the clock with chip select low, the data line's level.
pub open spec fn received(start: u8, writes: Seq<u8>) -> Seq<bool>
    decreases writes.len(),
{
    if writes.len() == 0 {
        Seq::empty()
    } else {
        let earlier = writes.drop_last();
        let bits = received(start, earlier);
        let from = level_after(start, earlier);
        let to = writes.last();
        if !scl_level(from) && scl_level(to) && !scs_level(to) {
            bits.push(sda_level(to))
        } else {
            bits
        }
    }
}

/// The outputs after `writes`, coming from `start`.
pub open spec fn level_after(start: u8, writes: Seq<u8>) -> u8 {
    if writes.len() == 0 {
        start
    } else {
        writes.last()
    }
}

/// What setting and clearing single lines does to the output register.
proof fn lemma_lines()
    ensures
        forall|sda: bool, scl: bool, scs: bool|
            {
                let v = #[trigger] lines(sda, scl, scs);
                &&& v | 0b0000_1000 == lines(true, scl, scs)
                &&& v & !0b0000_1000u8 == lines(false, scl, scs)
                &&& v | 0b0000_0100 == lines(sda, true, scs)
                &&& v & !0b0000_0100u8 == lines(sda, false, scs)
                &&& v | 0b0000_0010 == lines(sda, scl, true)
                &&& v & !0b0000_0010u8 == lines(sda, scl, false)
                &&& sda_level(v) == sda
                &&& scl_level(v) == scl
                &&& scs_level(v) == scs
            },
{
    assert forall|sda: bool, scl: bool, scs: bool|
        {
            let v = #[trigger] lines(sda, scl, scs);
            &&& v | 0b0000_1000 == lines(true, scl, scs)
            &&& v & !0b0000_1000u8 == lines(false, scl, scs)
            &&& v | 0b0000_0100 == lines(sda, true, scs)
            &&& v & !0b0000_0100u8 == lines(sda, false, scs)
            &&& v | 0b0000_0010 == lines(sda, scl, true)
            &&& v & !0b0000_0010u8 == lines(sda, scl, false)
            &&& sda_level(v) == sda
            &&& scl_level(v) == scl
            &&& scs_level(v) == scs
        } by {
        let v = lines(sda, scl, scs);
        lemma_line_bits(v);
    }
}

/// [`lemma_lines`] for one register value.
proof fn lemma_line_bits(v: u8)
    by (bit_vector)
    requires
        v == 0xF1 || v == 0xF3 || v == 0xF5 || v == 0xF7 || v == 0xF9 || v == 0xFB || v == 0xFD
            || v == 0xFF,
    ensures
        v | 0b0000_1000 == (if v < 0xF8 { (v + 8) as u8 } else { v }),
        v & !0b0000_1000u8 == (if v < 0xF8 { v } else { (v - 8) as u8 }),
        v & 0b0000_1000 != 0 <==> v > 0xF8,
        v | 0b0000_0100 == (if v == 0xF1 || v == 0xF3 || v == 0xF9 || v == 0xFB {
            (v + 4) as u8
        } else {
            v
        }),
        v & !0b0000_0100u8 == (if v == 0xF1 || v == 0xF3 || v == 0xF9 || v == 0xFB {
            v
        } else {
            (v - 4) as u8
        }),
        v & 0b0000_0100 == 0 <==> (v == 0xF1 || v == 0xF3 || v == 0xF9 || v == 0xFB),
        v | 0b0000_0010 == (if v == 0xF1 || v == 0xF5 || v == 0xF9 || v == 0xFD {
            (v + 2) as u8
        } else {
            v
        }),
        v & !0b0000_0010u8 == (if v == 0xF1 || v == 0xF5 || v == 0xF9 || v == 0xFD {
            v
        } else {
            (v - 2) as u8
        }),
        v & 0b0000_0010 == 0 <==> (v == 0xF1 || v == 0xF5 || v == 0xF9 || v == 0xFD),
{
}

/// The values of the expander's output register, in order, that send one byte to the
/// panel as a command or as data.
pub fn write_byte(b: u8, is_cmd: bool) -> (writes: Vec<u8>)
    ensures
        writes@ == byte_writes(b, is_cmd),
{
    let ghost bits = frame_bits(b, is_cmd);
    let mut writes: Vec<u8> = Vec::new();
    proof {
        lemma_lines();
    }
    let mut output: u8 = LINES_BASE & !SCS_BIT;
    assert(output == 0xF1) by (bit_vector)
        requires
            output == 0b1111_0001u8 & !0b0000_0010u8,
    ;
    writes.push(output);
    let mut k: u8 = 0;
    while k < 9
        invariant
            k <= 9,
            bits == frame_bits(b, is_cmd),
            output == lines(sda_after(bits.take(k as int)), k > 0, false),
            writes@ == seq![lines(false, false, false)] + shift_writes(bits.take(k as int)),
        decreases 9 - k,
    {
        proof {
            lemma_lines();
        }
        let bit: bool = if k == 0 {
            !is_cmd
        } else {
            let i: u8 = 8 - k;
            (b >> i) & 0b1 != 0
        };
        assert(bit == bits[k as int]);
        let prev: u8 = output;
        if bit {
            output = output | SDA_BIT;
        } else {
            output = output & !SDA_BIT;
        }
        if prev != output {
            writes.push(output);
        }
        output = output & !SCL_BIT;
        writes.push(output);
        output = output | SCL_BIT;
        writes.push(output);
        proof {
            let before = bits.take(k as int);
            let now = bits.take(k + 1);
            assert(now.drop_last() =~= before);
            assert(now.last() == bit);
            assert(writes@ =~= seq![lines(false, false, false)] + shift_writes(before)
                + bit_writes(sda_after(before), before.len() > 0, bit));
            assert(writes@ =~= seq![lines(false, false, false)] + shift_writes(now));
        }
        k = k + 1;
    }
    proof {
        lemma_lines();
        assert(bits.take(9) =~= bits);
    }
    output = output & !SCL_BIT;
    writes.push(output);
    output = output & !SDA_BIT;
    writes.push(output);
    output = output | SCS_BIT;
    writes.push(output);
    assert(writes@ =~= byte_writes(b, is_cmd));
    writes
}

/// Reception goes on where it stopped.
pub proof fn lemma_received_concat(start: u8, a: Seq<u8>, b: Seq<u8>)
    ensures
        received(start, a + b) == received(start, a) + received(level_after(start, a), b),
        level_after(start, a + b) == level_after(level_after(start, a), b),
    decreases b.len(),
{
    if b.len() == 0 {
        assert(a + b =~= a);
        assert(received(start, a) + received(level_after(start, a), b) =~= received(start, a));
    } else {
        let earlier = b.drop_last();
        assert((a + b).drop_last() =~= a + earlier);
        lemma_received_concat(start, a, earlier);
        assert(received(start, a + b) =~= received(start, a) + received(
            level_after(start, a),
            b,
        ));
    }
}

/// Shifting one bit lets the panel receive that bit.
proof fn lemma_bit_received(start: u8, sda: bool, scl: bool, bit: bool)
    requires
        start == lines(sda, scl, false),
    ensures
        received(start, bit_writes(sda, scl, bit)) == seq![bit],
        level_after(start, bit_writes(sda, scl, bit)) == lines(bit, true, false),
{
    lemma_lines();
    reveal_with_fuel(received, 4);
    let w = bit_writes(sda, scl, bit);
    assert(w.last() == lines(bit, true, false));
    assert(w.drop_last().last() == lines(bit, false, false));
    if bit != sda {
        assert(w.drop_last().drop_last() =~= seq![lines(bit, scl, false)]);
        assert(w.drop_last().drop_last().drop_last() =~= Seq::<u8>::empty());
    } else {
        assert(w.drop_last().drop_last() =~= Seq::<u8>::empty());
    }
    assert(received(start, w) =~= seq![bit]);
}

/// Shifting bits lets the panel receive those bits.
proof fn lemma_shift_received(bits: Seq<bool>)
    ensures
        received(lines(false, false, false), shift_writes(bits)) == bits,
        level_after(lines(false, false, false), shift_writes(bits)) == lines(
            sda_after(bits),
            bits.len() > 0,
            false,
        ),
    decreases bits.len(),
{
    let start = lines(false, false, false);
    if bits.len() == 0 {
        assert(received(start, shift_writes(bits)) =~= bits);
    } else {
        let before = bits.drop_last();
        lemma_shift_received(before);
        let more = bit_writes(sda_after(before), before.len() > 0, bits.last());
        lemma_received_concat(start, shift_writes(before), more);
        lemma_bit_received(
            level_after(start, shift_writes(before)),
            sda_after(before),
            before.len() > 0,
            bits.last(),
        );
        assert(before + seq![bits.last()] =~= bits);
    }
}

/// Sending a byte lets the panel receive exactly its nine bits, in whatever state the
/// lines were before; it leaves the lines idle.
pub proof fn law_byte_is_received(start: u8, b: u8, is_cmd: bool)
    ensures
        received(start, byte_writes(b, is_cmd)) == frame_bits(b, is_cmd),
        byte_writes(b, is_cmd).last() == LINES_IDLE,
{
    lemma_lines();
    let bits = frame_bits(b, is_cmd);
    let head = seq![lines(false, false, false)];
    let tail = seq![
        lines(bits.last(), false, false),
        lines(false, false, false),
        lines(false, false, true),
    ];
    reveal_with_fuel(received, 4);
    assert(head.drop_last() =~= Seq::<u8>::empty());
    assert(received(start, head) =~= Seq::<bool>::empty());
    lemma_received_concat(start, head, shift_writes(bits));
    lemma_shift_received(bits);
    let mid = level_after(start, head + shift_writes(bits));
    lemma_received_concat(start, head + shift_writes(bits), tail);
    assert(tail.drop_last() =~= seq![lines(bits.last(), false, false), lines(false, false, false)]);
    assert(tail.drop_last().drop_last() =~= seq![lines(bits.last(), false, false)]);
    assert(tail.drop_last().drop_last().drop_last() =~= Seq::<u8>::empty());
    assert(received(mid, tail) =~= Seq::<bool>::empty());
    assert(received(start, byte_writes(b, is_cmd)) =~= bits);
}

/// While a byte is sent, the lines that are not part of the serial line keep their
/// resting levels: every output is one of the eight line patterns.
pub proof fn law_other_lines_rest(b: u8, is_cmd: bool, i: int)
    requires
        0 <= i < byte_writes(b, is_cmd).len(),
    ensures
        byte_writes(b, is_cmd)[i] & 0b1111_0001 == LINES_BASE,
{
    let bits = frame_bits(b, is_cmd);
    lemma_shift_rests(bits);
    let v = byte_writes(b, is_cmd)[i];
    assert(is_line_pattern(v));
    assert(v & 0b1111_0001 == 0b1111_0001) by (bit_vector)
        requires
            v == 0xF1 || v == 0xF3 || v == 0xF5 || v == 0xF7 || v == 0xF9 || v == 0xFB || v == 0xFD
                || v == 0xFF,
    ;
}

/// Whether `v` is the output register for some levels of the three serial lines.
spec fn is_line_pattern(v: u8) -> bool {
    exists|sda: bool, scl: bool, scs: bool| v == lines(sda, scl, scs)
}

/// Shifting uses line patterns only.
proof fn lemma_shift_rests(bits: Seq<bool>)
    ensures
        forall|i: int|
            0 <= i < shift_writes(bits).len() ==> is_line_pattern(#[trigger] shift_writes(bits)[i]),
    decreases bits.len(),
{
    if bits.len() > 0 {
        let before = bits.drop_last();
        lemma_shift_rests(before);
        let shifted = shift_writes(before);
        let more = bit_writes(sda_after(before), before.len() > 0, bits.last());
        assert forall|i: int| 0 <= i < shift_writes(bits).len() implies is_line_pattern(
            #[trigger] shift_writes(bits)[i],
        ) by {
            if i < shifted.len() {
                assert(shift_writes(bits)[i] == shifted[i]);
            } else {
                assert(shift_writes(bits)[i] == more[i - shifted.len()]);
            }
        }
    }
}

/// The nine bits tell which byte was sent, and whether as a command.
pub proof fn law_frames_are_distinct(b1: u8, cmd1: bool, b2: u8, cmd2: bool)
    requires
        frame_bits(b1, cmd1) == frame_bits(b2, cmd2),
    ensures
        b1 == b2,
        cmd1 == cmd2,
{
    let f1 = frame_bits(b1, cmd1);
    let f2 = frame_bits(b2, cmd2);
    assert(f1[0] == !cmd1);
    assert(f2[0] == !cmd2);
    assert forall|i: int| 0 <= i < 8 implies #[trigger] bit_of(b1, i) == bit_of(b2, i) by {
        assert(f1[8 - i] == bit_of(b1, i));
        assert(f2[8 - i] == bit_of(b2, i));
    }
    assert(bit_of(b1, 0) == bit_of(b2, 0) && bit_of(b1, 1) == bit_of(b2, 1));
    assert(bit_of(b1, 2) == bit_of(b2, 2) && bit_of(b1, 3) == bit_of(b2, 3));
    assert(bit_of(b1, 4) == bit_of(b2, 4) && bit_of(b1, 5) == bit_of(b2, 5));
    assert(bit_of(b1, 6) == bit_of(b2, 6) && bit_of(b1, 7) == bit_of(b2, 7));
    assert(b1 == b2) by (bit_vector)
        requires
            ((b1 >> 0u8) & 1 != 0) == ((b2 >> 0u8) & 1 != 0),
            ((b1 >> 1u8) & 1 != 0) == ((b2 >> 1u8) & 1 != 0),
            ((b1 >> 2u8) & 1 != 0) == ((b2 >> 2u8) & 1 != 0),
            ((b1 >> 3u8) & 1 != 0) == ((b2 >> 3u8) & 1 != 0),
            ((b1 >> 4u8) & 1 != 0) == ((b2 >> 4u8) & 1 != 0),
            ((b1 >> 5u8) & 1 != 0) == ((b2 >> 5u8) & 1 != 0),
            ((b1 >> 6u8) & 1 != 0) == ((b2 >> 6u8) & 1 != 0),
            ((b1 >> 7u8) & 1 != 0) == ((b2 >> 7u8) & 1 != 0),
    ;
}

/// The serial line uses bits 1, 2 and 3 of the expander: select, clock and data. These three
/// are outputs, and all others are inputs; at rest only the select line of the three is high.
pub proof fn law_serial_lines_are_pins(v: u8)
    ensures
        SCS_BIT == 2,
        SCL_BIT == 4,
        SDA_BIT == 8,
        scs_level(v) <==> (v / 2) % 2 == 1,
        scl_level(v) <==> (v / 4) % 2 == 1,
        sda_level(v) <==> (v / 8) % 2 == 1,
        LINES_DIRECTION == 255 - (2 + 4 + 8),
        LINES_BASE == 255 - (2 + 4 + 8),
        LINES_IDLE == 255 - (4 + 8),
{
    assert((v & 0b0000_0010 != 0) == ((v / 2) % 2 == 1)) by (bit_vector);
    assert((v & 0b0000_0100 != 0) == ((v / 4) % 2 == 1)) by (bit_vector);
    assert((v & 0b0000_1000 != 0) == ((v / 8) % 2 == 1)) by (bit_vector);
}

/// One for a high level, zero for a low one.
pub open spec fn level_value(level: bool) -> int {
    if level {
        1
    } else {
        0
    }
}

/// The number that the last eight of nine bits stand for, the first of them counting most.
pub open spec fn frame_value(bits: Seq<bool>) -> int {
    128 * level_value(bits[1]) + 64 * level_value(bits[2]) + 32 * level_value(bits[3]) + 16
        * level_value(bits[4]) + 8 * level_value(bits[5]) + 4 * level_value(bits[6]) + 2
        * level_value(bits[7]) + level_value(bits[8])
}

/// A panel that looks at the data line whenever the clock rises hears exactly nine bits: a
/// low one for a command or a high one for data, and then the byte, most significant bit
/// first.
pub proof fn law_panel_hears_the_byte(start: u8, b: u8, is_cmd: bool)
    ensures
        ({
            let bits = received(start, byte_writes(b, is_cmd));
            &&& bits.len() == 9
            &&& bits[0] == !is_cmd
            &&& 128 * level_value(bits[1]) + 64 * level_value(bits[2]) + 32 * level_value(bits[3])
                + 16 * level_value(bits[4]) + 8 * level_value(bits[5]) + 4 * level_value(bits[6])
                + 2 * level_value(bits[7]) + level_value(bits[8]) == b
            &&& frame_value(bits) == b
        }),
{
    law_byte_is_received(start, b, is_cmd);
    let bits = frame_bits(b, is_cmd);
    assert(bits[1] == bit_of(b, 7) && bits[2] == bit_of(b, 6));
    assert(bits[3] == bit_of(b, 5) && bits[4] == bit_of(b, 4));
    assert(bits[5] == bit_of(b, 3) && bits[6] == bit_of(b, 2));
    assert(bits[7] == bit_of(b, 1) && bits[8] == bit_of(b, 0));
    assert(b == 128 * (if (b >> 7u8) & 1 != 0 { 1u8 } else { 0u8 }) + 64 * (if (b >> 6u8) & 1 != 0 {
        1u8
    } else {
        0u8
    }) + 32 * (if (b >> 5u8) & 1 != 0 {
        1u8
    } else {
        0u8
    }) + 16 * (if (b >> 4u8) & 1 != 0 {
        1u8
    } else {
        0u8
    }) + 8 * (if (b >> 3u8) & 1 != 0 {
        1u8
    } else {
        0u8
    }) + 4 * (if (b >> 2u8) & 1 != 0 {
        1u8
    } else {
        0u8
    }) + 2 * (if (b >> 1u8) & 1 != 0 {
        1u8
    } else {
        0u8
    }) + (if (b >> 0u8) & 1 != 0 {
        1u8
    } else {
        0u8
    })) by (bit_vector);
}

/// Whether at most one of the three serial lines changes from `v` to `w`.
pub open spec fn one_line_changes(v: u8, w: u8) -> bool {
    &&& sda_level(v) == sda_level(w) || scl_level(v) == scl_level(w)
    &&& sda_level(v) == sda_level(w) || scs_level(v) == scs_level(w)
    &&& scl_level(v) == scl_level(w) || scs_level(v) == scs_level(w)
}

/// One line of an output changes.
proof fn lemma_one_line(sda: bool, scl: bool, scs: bool, level: bool)
    ensures
        one_line_changes(lines(sda, scl, scs), lines(level, scl, scs)),
        one_line_changes(lines(sda, scl, scs), lines(sda, level, scs)),
        one_line_changes(lines(sda, scl, scs), lines(sda, scl, level)),
{
    lemma_lines();
}

/// The outputs once bits are shifted.
proof fn lemma_after_shift(bits: Seq<bool>)
    ensures
        (seq![lines(false, false, false)] + shift_writes(bits)).last() == lines(
            sda_after(bits),
            bits.len() > 0,
            false,
        ),
{
}

/// Shifting changes one line at a time.
proof fn lemma_shift_changes_one_line(bits: Seq<bool>, i: int)
    requires
        0 < i <= shift_writes(bits).len(),
    ensures
        ({
            let all = seq![lines(false, false, false)] + shift_writes(bits);
            one_line_changes(all[i - 1], all[i])
        }),
    decreases bits.len(),
{
    let first = seq![lines(false, false, false)];
    let all = first + shift_writes(bits);
    let before = bits.drop_last();
    let earlier = first + shift_writes(before);
    let sda = sda_after(before);
    let scl = before.len() > 0;
    let bit = bits.last();
    let more = bit_writes(sda, scl, bit);
    assert(all =~= earlier + more);
    let n = earlier.len() as int;
    if i < n {
        lemma_shift_changes_one_line(before, i);
        assert(all[i - 1] == earlier[i - 1] && all[i] == earlier[i]);
    } else {
        lemma_after_shift(before);
        lemma_one_line(sda, scl, false, bit);
        lemma_one_line(bit, scl, false, false);
        lemma_one_line(bit, false, false, true);
        if i == n {
            assert(all[i - 1] == earlier.last() && all[i] == more[0]);
        } else {
            assert(all[i - 1] == more[i - n - 1] && all[i] == more[i - n]);
        }
    }
}

/// Shifting bits and bringing the lines to rest changes one line at a time.
proof fn lemma_one_line_changes(bits: Seq<bool>, i: int)
    requires
        bits.len() > 0,
        0 < i < shift_writes(bits).len() + 4,
    ensures
        ({
            let all = seq![lines(false, false, false)] + shift_writes(bits) + seq![
                lines(bits.last(), false, false),
                lines(false, false, false),
                lines(false, false, true),
            ];
            one_line_changes(all[i - 1], all[i])
        }),
{
    let head = seq![lines(false, false, false)] + shift_writes(bits);
    let tail = seq![
        lines(bits.last(), false, false),
        lines(false, false, false),
        lines(false, false, true),
    ];
    let all = head + tail;
    let n = head.len() as int;
    if i < n {
        lemma_shift_changes_one_line(bits, i);
        assert(all[i - 1] == head[i - 1] && all[i] == head[i]);
    } else {
        lemma_after_shift(bits);
        lemma_one_line(bits.last(), true, false, false);
        lemma_one_line(bits.last(), false, false, false);
        lemma_one_line(false, false, false, true);
        if i == n {
            assert(all[i - 1] == head.last() && all[i] == tail[0]);
        } else if i == n + 1 {
            assert(all[i - 1] == tail[0] && all[i] == tail[1]);
        } else {
            assert(all[i - 1] == tail[1] && all[i] == tail[2]);
        }
    }
}

/// While a byte is sent, the lines change one at a time. So the data line is steady when the
/// clock rises, and the select line when data or clock change.
pub proof fn law_lines_change_one_at_a_time(b: u8, is_cmd: bool, i: int)
    requires
        0 < i < byte_writes(b, is_cmd).len(),
    ensures
        ({
            let v = byte_writes(b, is_cmd)[i - 1];
            let w = byte_writes(b, is_cmd)[i];
            &&& scl_level(v) != scl_level(w) ==> sda_level(v) == sda_level(w) && scs_level(v)
                == scs_level(w)
            &&& sda_level(v) != sda_level(w) ==> scs_level(v) == scs_level(w)
        }),
{
    lemma_one_line_changes(frame_bits(b, is_cmd), i);
}

/// How often the data line changes while `bits` are shifted, beginning low.
pub open spec fn changes(bits: Seq<bool>) -> nat
    decreases bits.len(),
{
    if bits.len() == 0 {
        0
    } else {
        let before = if bits.len() == 1 {
            false
        } else {
            bits[bits.len() - 2]
        };
        changes(bits.drop_last()) + if bits.last() != before {
            1nat
        } else {
            0nat
        }
    }
}

/// Shifting takes two outputs per bit, and one more where the data line changes.
proof fn lemma_shift_length(bits: Seq<bool>)
    ensures
        shift_writes(bits).len() == 2 * bits.len() + changes(bits),
    decreases bits.len(),
{
    if bits.len() > 0 {
        lemma_shift_length(bits.drop_last());
    }
}

/// No output is wasted: a byte takes two per bit, four to select and deselect the panel and
/// bring the lines to rest, and one more for each change of the data line between bits.
pub proof fn law_outputs_of_a_byte(start: u8, b: u8, is_cmd: bool)
    ensures
        byte_writes(b, is_cmd).len() == 4 + 2 * 9 + changes(
            received(start, byte_writes(b, is_cmd)),
        ),
        byte_writes(b, is_cmd)[0] == 0xF1,
        byte_writes(b, is_cmd).last() == 0xF3,
{
    law_byte_is_received(start, b, is_cmd);
    lemma_shift_length(frame_bits(b, is_cmd));
}

} // verus!
