//! The commands that bring up the 480x480 panel, and how they go over the serial line.
#[allow(unused_imports)]
use crate::board::Board;
use crate::panel_wire::LINES_IDLE;
#[allow(unused_imports)]
use crate::panel_wire::{
    byte_writes, frame_bits, frame_value, law_byte_is_received, law_panel_hears_the_byte,
    lemma_received_concat, level_after, received,
};
use vstd::prelude::*;

verus! {

/// One step of the panel's initialization.
#[derive(Clone, Copy, Debug)]
pub enum InitCmd {
    /// Send a command byte and its arguments.
    Cmd(u8, &'static [u8]),
    /// Wait for this many milliseconds.
    Delay(u8),
}

/// [`InitCmd`] with the arguments as a sequence.
#[verifier::ext_equal]
pub enum PanelCmd {
    Cmd(u8, Seq<u8>),
    Delay(u8),
}

impl InitCmd {
    /// The step with its arguments as a sequence.
    pub open spec fn view(&self) -> PanelCmd {
        match *self {
            InitCmd::Cmd(cmd, args) => PanelCmd::Cmd(cmd, args@),
            InitCmd::Delay(ms) => PanelCmd::Delay(ms),
        }
    }
}

/// The gamma curve, as the six gamma registers take it: 26 big-endian levels.
pub open spec fn gamma_curve() -> Seq<u8> {
    seq![
        0x00u8, 0x00, 0x00, 0x04, 0x00, 0x12, 0x00, 0x18, 0x00, 0x21, 0x00, 0x2a,
        0x00, 0x35, 0x00, 0x47, 0x00, 0x56, 0x00, 0x90, 0x00, 0xe5, 0x01, 0x68,
        0x01, 0xd5, 0x01, 0xd7, 0x02, 0x36, 0x02, 0xa6, 0x02, 0xee, 0x03, 0x48,
        0x03, 0xa0, 0x03, 0xba, 0x03, 0xc5, 0x03, 0xd0, 0x03, 0xe0, 0x03, 0xea,
        0x03, 0xfa, 0x03, 0xff,
    ]
}

/// The initialization of the panel.
pub open spec fn init_table() -> Seq<PanelCmd> {
    seq![
        PanelCmd::Cmd(0xf0, seq![0x55u8, 0xaa, 0x52, 0x08, 0x00]),
        PanelCmd::Cmd(0xf6, seq![0x5au8, 0x87]),
        PanelCmd::Cmd(0xc1, seq![0x3fu8]),
        PanelCmd::Cmd(0xc2, seq![0x0eu8]),
        PanelCmd::Cmd(0xc6, seq![0xf8u8]),
        PanelCmd::Cmd(0xc9, seq![0x10u8]),
        PanelCmd::Cmd(0xcd, seq![0x25u8]),
        PanelCmd::Cmd(0xf8, seq![0x8au8]),
        PanelCmd::Cmd(0xac, seq![0x45u8]),
        PanelCmd::Cmd(0xa0, seq![0xddu8]),
        PanelCmd::Cmd(0xa7, seq![0x47u8]),
        PanelCmd::Cmd(0xfa, seq![0x00u8, 0x00, 0x00, 0x04]),
        PanelCmd::Cmd(0x86, seq![0x99u8, 0xa3, 0xa3, 0x51]),
        PanelCmd::Cmd(0xa3, seq![0xeeu8]),
        PanelCmd::Cmd(0xfd, seq![0x3cu8, 0x03]),
        PanelCmd::Cmd(0x71, seq![0x48u8]),
        PanelCmd::Cmd(0x72, seq![0x48u8]),
        PanelCmd::Cmd(0x73, seq![0x00u8, 0x44]),
        PanelCmd::Cmd(0x97, seq![0xeeu8]),
        PanelCmd::Cmd(0x83, seq![0x93u8]),
        PanelCmd::Cmd(0x9a, seq![0x72u8]),
        PanelCmd::Cmd(0x9b, seq![0x5au8]),
        PanelCmd::Cmd(0x82, seq![0x2cu8, 0x2c]),
        PanelCmd::Cmd(0xb1, seq![0x10u8]),
        PanelCmd::Cmd(
            0x6d,
            seq![
                0x00u8, 0x1f, 0x19, 0x1a, 0x10, 0x0e, 0x0c, 0x0a, 0x02, 0x07, 0x1e, 0x1e,
                0x1e, 0x1e, 0x1e, 0x1e, 0x1e, 0x1e, 0x1e, 0x1e, 0x1e, 0x1e, 0x08, 0x01,
                0x09, 0x0b, 0x0d, 0x0f, 0x1a, 0x19, 0x1f, 0x00,
            ],
        ),
        PanelCmd::Cmd(
            0x64,
            seq![
                0x38u8, 0x05, 0x01, 0xdb, 0x03, 0x03, 0x38, 0x04, 0x01, 0xdc, 0x03, 0x03,
                0x7a, 0x7a, 0x7a, 0x7a,
            ],
        ),
        PanelCmd::Cmd(
            0x65,
            seq![
                0x38u8, 0x03, 0x01, 0xdd, 0x03, 0x03, 0x38, 0x02, 0x01, 0xde, 0x03, 0x03,
                0x7a, 0x7a, 0x7a, 0x7a,
            ],
        ),
        PanelCmd::Cmd(
            0x66,
            seq![
                0x38u8, 0x01, 0x01, 0xdf, 0x03, 0x03, 0x38, 0x00, 0x01, 0xe0, 0x03, 0x03,
                0x7a, 0x7a, 0x7a, 0x7a,
            ],
        ),
        PanelCmd::Cmd(
            0x67,
            seq![
                0x30u8, 0x01, 0x01, 0xe1, 0x03, 0x03, 0x30, 0x02, 0x01, 0xe2, 0x03, 0x03,
                0x7a, 0x7a, 0x7a, 0x7a,
            ],
        ),
        PanelCmd::Cmd(
            0x68,
            seq![
                0x00u8, 0x08, 0x15, 0x08, 0x15, 0x7a, 0x7a, 0x08, 0x15, 0x08, 0x15, 0x7a,
                0x7a,
            ],
        ),
        PanelCmd::Cmd(0x60, seq![0x38u8, 0x08, 0x7a, 0x7a, 0x38, 0x09, 0x7a, 0x7a]),
        PanelCmd::Cmd(0x63, seq![0x31u8, 0xe4, 0x7a, 0x7a, 0x31, 0xe5, 0x7a, 0x7a]),
        PanelCmd::Cmd(0x69, seq![0x04u8, 0x22, 0x14, 0x22, 0x14, 0x22, 0x08]),
        PanelCmd::Cmd(0x6b, seq![0x07u8]),
        PanelCmd::Cmd(0x7a, seq![0x08u8, 0x13]),
        PanelCmd::Cmd(0x7b, seq![0x08u8, 0x13]),
        PanelCmd::Cmd(0xd1, gamma_curve()),
        PanelCmd::Cmd(0xd2, gamma_curve()),
        PanelCmd::Cmd(0xd3, gamma_curve()),
        PanelCmd::Cmd(0xd4, gamma_curve()),
        PanelCmd::Cmd(0xd5, gamma_curve()),
        PanelCmd::Cmd(0xd6, gamma_curve()),
        PanelCmd::Cmd(0x36, seq![0x00u8]),
        PanelCmd::Cmd(0x2a, seq![0x00u8, 0x00, 0x01, 0xdf]),
        PanelCmd::Cmd(0x2b, seq![0x00u8, 0x00, 0x01, 0xdf]),
        PanelCmd::Cmd(0x3a, seq![0x66u8]),
        PanelCmd::Cmd(0x11, Seq::empty()),
        PanelCmd::Delay(120),
        PanelCmd::Cmd(0x29, Seq::empty()),
        PanelCmd::Delay(20),
    ]
}

/// The initialization of the panel.
pub fn init_cmds() -> (cmds: Vec<InitCmd>)
    ensures
        cmds@.map_values(|c: InitCmd| c@) == init_table(),
{
    let gamma: &'static [u8] = &[
        0x00, 0x00, 0x00, 0x04, 0x00, 0x12, 0x00, 0x18, 0x00, 0x21, 0x00, 0x2a,
        0x00, 0x35, 0x00, 0x47, 0x00, 0x56, 0x00, 0x90, 0x00, 0xe5, 0x01, 0x68,
        0x01, 0xd5, 0x01, 0xd7, 0x02, 0x36, 0x02, 0xa6, 0x02, 0xee, 0x03, 0x48,
        0x03, 0xa0, 0x03, 0xba, 0x03, 0xc5, 0x03, 0xd0, 0x03, 0xe0, 0x03, 0xea,
        0x03, 0xfa, 0x03, 0xff,
    ];
    assert(gamma@ =~= gamma_curve());
    let cmds: Vec<InitCmd> = vec![
        InitCmd::Cmd(0xf0, &[0x55, 0xaa, 0x52, 0x08, 0x00]),
        InitCmd::Cmd(0xf6, &[0x5a, 0x87]),
        InitCmd::Cmd(0xc1, &[0x3f]),
        InitCmd::Cmd(0xc2, &[0x0e]),
        InitCmd::Cmd(0xc6, &[0xf8]),
        InitCmd::Cmd(0xc9, &[0x10]),
        InitCmd::Cmd(0xcd, &[0x25]),
        InitCmd::Cmd(0xf8, &[0x8a]),
        InitCmd::Cmd(0xac, &[0x45]),
        InitCmd::Cmd(0xa0, &[0xdd]),
        InitCmd::Cmd(0xa7, &[0x47]),
        InitCmd::Cmd(0xfa, &[0x00, 0x00, 0x00, 0x04]),
        InitCmd::Cmd(0x86, &[0x99, 0xa3, 0xa3, 0x51]),
        InitCmd::Cmd(0xa3, &[0xee]),
        InitCmd::Cmd(0xfd, &[0x3c, 0x03]),
        InitCmd::Cmd(0x71, &[0x48]),
        InitCmd::Cmd(0x72, &[0x48]),
        InitCmd::Cmd(0x73, &[0x00, 0x44]),
        InitCmd::Cmd(0x97, &[0xee]),
        InitCmd::Cmd(0x83, &[0x93]),
        InitCmd::Cmd(0x9a, &[0x72]),
        InitCmd::Cmd(0x9b, &[0x5a]),
        InitCmd::Cmd(0x82, &[0x2c, 0x2c]),
        InitCmd::Cmd(0xb1, &[0x10]),
        InitCmd::Cmd(
            0x6d,
            &[
                0x00, 0x1f, 0x19, 0x1a, 0x10, 0x0e, 0x0c, 0x0a, 0x02, 0x07, 0x1e, 0x1e,
                0x1e, 0x1e, 0x1e, 0x1e, 0x1e, 0x1e, 0x1e, 0x1e, 0x1e, 0x1e, 0x08, 0x01,
                0x09, 0x0b, 0x0d, 0x0f, 0x1a, 0x19, 0x1f, 0x00,
            ],
        ),
        InitCmd::Cmd(
            0x64,
            &[
                0x38, 0x05, 0x01, 0xdb, 0x03, 0x03, 0x38, 0x04, 0x01, 0xdc, 0x03, 0x03,
                0x7a, 0x7a, 0x7a, 0x7a,
            ],
        ),
        InitCmd::Cmd(
            0x65,
            &[
                0x38, 0x03, 0x01, 0xdd, 0x03, 0x03, 0x38, 0x02, 0x01, 0xde, 0x03, 0x03,
                0x7a, 0x7a, 0x7a, 0x7a,
            ],
        ),
        InitCmd::Cmd(
            0x66,
            &[
                0x38, 0x01, 0x01, 0xdf, 0x03, 0x03, 0x38, 0x00, 0x01, 0xe0, 0x03, 0x03,
                0x7a, 0x7a, 0x7a, 0x7a,
            ],
        ),
        InitCmd::Cmd(
            0x67,
            &[
                0x30, 0x01, 0x01, 0xe1, 0x03, 0x03, 0x30, 0x02, 0x01, 0xe2, 0x03, 0x03,
                0x7a, 0x7a, 0x7a, 0x7a,
            ],
        ),
        InitCmd::Cmd(
            0x68,
            &[
                0x00, 0x08, 0x15, 0x08, 0x15, 0x7a, 0x7a, 0x08, 0x15, 0x08, 0x15, 0x7a,
                0x7a,
            ],
        ),
        InitCmd::Cmd(0x60, &[0x38, 0x08, 0x7a, 0x7a, 0x38, 0x09, 0x7a, 0x7a]),
        InitCmd::Cmd(0x63, &[0x31, 0xe4, 0x7a, 0x7a, 0x31, 0xe5, 0x7a, 0x7a]),
        InitCmd::Cmd(0x69, &[0x04, 0x22, 0x14, 0x22, 0x14, 0x22, 0x08]),
        InitCmd::Cmd(0x6b, &[0x07]),
        InitCmd::Cmd(0x7a, &[0x08, 0x13]),
        InitCmd::Cmd(0x7b, &[0x08, 0x13]),
        InitCmd::Cmd(0xd1, gamma),
        InitCmd::Cmd(0xd2, gamma),
        InitCmd::Cmd(0xd3, gamma),
        InitCmd::Cmd(0xd4, gamma),
        InitCmd::Cmd(0xd5, gamma),
        InitCmd::Cmd(0xd6, gamma),
        InitCmd::Cmd(0x36, &[0x00]),
        InitCmd::Cmd(0x2a, &[0x00, 0x00, 0x01, 0xdf]),
        InitCmd::Cmd(0x2b, &[0x00, 0x00, 0x01, 0xdf]),
        InitCmd::Cmd(0x3a, &[0x66]),
        InitCmd::Cmd(0x11, &[]),
        InitCmd::Delay(120),
        InitCmd::Cmd(0x29, &[]),
        InitCmd::Delay(20),
    ];
    assert(cmds@.map_values(|c: InitCmd| c@) =~~= init_table());
    cmds
}

/// What to do next in bringing up the panel.
#[derive(Clone, Copy, Debug, PartialEq, Eq, Structural)]
pub enum PanelOp {
    /// Send this byte, as a command or as data.
    Byte { value: u8, is_cmd: bool },
    /// Wait for this many milliseconds.
    Delay(u8),
}

/// The data bytes of a command, as operations.
pub open spec fn data_ops(args: Seq<u8>) -> Seq<PanelOp> {
    args.map_values(|b: u8| PanelOp::Byte { value: b, is_cmd: false })
}

/// The operations of one step: the command byte, then its arguments as data; or the wait.
pub open spec fn ops_of(cmd: PanelCmd) -> Seq<PanelOp> {
    match cmd {
        PanelCmd::Cmd(value, args) => seq![PanelOp::Byte { value, is_cmd: true }] + data_ops(args),
        PanelCmd::Delay(ms) => seq![PanelOp::Delay(ms)],
    }
}

/// The operations of a series of steps.
pub open spec fn ops_of_all(cmds: Seq<PanelCmd>) -> Seq<PanelOp>
    decreases cmds.len(),
{
    if cmds.len() == 0 {
        Seq::empty()
    } else {
        ops_of_all(cmds.drop_last()) + ops_of(cmds.last())
    }
}

/// The operations that carry out `cmds`, in order.
pub fn panel_ops(cmds: &[InitCmd]) -> (ops: Vec<PanelOp>)
    ensures
        ops@ == ops_of_all(cmds@.map_values(|c: InitCmd| c@)),
{
    let ghost all = cmds@.map_values(|c: InitCmd| c@);
    let mut ops: Vec<PanelOp> = Vec::new();
    let mut i: usize = 0;
    while i < cmds.len()
        invariant
            i <= cmds.len(),
            all == cmds@.map_values(|c: InitCmd| c@),
            ops@ == ops_of_all(all.take(i as int)),
        decreases cmds.len() - i,
    {
        let ghost done = ops@;
        match cmds[i] {
            InitCmd::Cmd(cmd, args) => {
                ops.push(PanelOp::Byte { value: cmd, is_cmd: true });
                let mut j: usize = 0;
                while j < args.len()
                    invariant
                        j <= args.len(),
                        ops@ == done + seq![PanelOp::Byte { value: cmd, is_cmd: true }] + data_ops(
                            args@.take(j as int),
                        ),
                    decreases args.len() - j,
                {
                    ops.push(PanelOp::Byte { value: args[j], is_cmd: false });
                    assert(data_ops(args@.take(j + 1)) =~= data_ops(args@.take(j as int)).push(
                        PanelOp::Byte { value: args@[j as int], is_cmd: false },
                    ));
                    j = j + 1;
                }
                assert(args@.take(args@.len() as int) =~= args@);
                assert(ops@ =~= done + ops_of(cmds@[i as int]@));
            },
            InitCmd::Delay(ms) => {
                ops.push(PanelOp::Delay(ms));
                assert(ops@ =~= done + ops_of(cmds@[i as int]@));
            },
        }
        assert(all.take(i + 1).drop_last() =~= all.take(i as int));
        i = i + 1;
    }
    assert(all.take(cmds@.len() as int) =~= all);
    ops
}

/// The outputs that carry out a series of operations; waiting changes no line.
pub open spec fn wire(ops: Seq<PanelOp>) -> Seq<u8>
    decreases ops.len(),
{
    if ops.len() == 0 {
        Seq::empty()
    } else {
        wire(ops.drop_last()) + (match ops.last() {
            PanelOp::Byte { value, is_cmd } => byte_writes(value, is_cmd),
            PanelOp::Delay(_) => Seq::empty(),
        })
    }
}

/// The bits of a command's arguments.
pub open spec fn data_bits(args: Seq<u8>) -> Seq<bool>
    decreases args.len(),
{
    if args.len() == 0 {
        Seq::empty()
    } else {
        data_bits(args.drop_last()) + frame_bits(args.last(), false)
    }
}

/// The bits that the panel is meant to receive for a series of steps.
pub open spec fn bits_of_all(cmds: Seq<PanelCmd>) -> Seq<bool>
    decreases cmds.len(),
{
    if cmds.len() == 0 {
        Seq::empty()
    } else {
        bits_of_all(cmds.drop_last()) + (match cmds.last() {
            PanelCmd::Cmd(value, args) => frame_bits(value, true) + data_bits(args),
            PanelCmd::Delay(_) => Seq::empty(),
        })
    }
}

/// The outputs of two series of operations follow each other.
proof fn lemma_wire_concat(a: Seq<PanelOp>, b: Seq<PanelOp>)
    ensures
        wire(a + b) == wire(a) + wire(b),
    decreases b.len(),
{
    if b.len() == 0 {
        assert(a + b =~= a);
        assert(wire(a) + wire(b) =~= wire(a));
    } else {
        assert((a + b).drop_last() =~= a + b.drop_last());
        lemma_wire_concat(a, b.drop_last());
        assert(wire(a + b) =~= wire(a) + wire(b));
    }
}

/// The panel receives a command's arguments.
proof fn lemma_data_received(start: u8, args: Seq<u8>)
    ensures
        received(start, wire(data_ops(args))) == data_bits(args),
    decreases args.len(),
{
    if args.len() > 0 {
        let before = args.drop_last();
        lemma_data_received(start, before);
        let ops = data_ops(args);
        assert(ops.drop_last() =~= data_ops(before));
        let last = byte_writes(args.last(), false);
        lemma_received_concat(start, wire(data_ops(before)), last);
        law_byte_is_received(level_after(start, wire(data_ops(before))), args.last(), false);
    }
}

/// The panel receives one step.
proof fn lemma_step_received(start: u8, cmd: PanelCmd)
    ensures
        received(start, wire(ops_of(cmd))) == (match cmd {
            PanelCmd::Cmd(value, args) => frame_bits(value, true) + data_bits(args),
            PanelCmd::Delay(_) => Seq::empty(),
        }),
{
    reveal_with_fuel(wire, 2);
    match cmd {
        PanelCmd::Cmd(value, args) => {
            let head = seq![PanelOp::Byte { value, is_cmd: true }];
            assert(head.drop_last() =~= Seq::<PanelOp>::empty());
            assert(wire(head) =~= byte_writes(value, true));
            lemma_wire_concat(head, data_ops(args));
            lemma_received_concat(start, wire(head), wire(data_ops(args)));
            law_byte_is_received(start, value, true);
            lemma_data_received(level_after(start, wire(head)), args);
        },
        PanelCmd::Delay(ms) => {
            let op = seq![PanelOp::Delay(ms)];
            assert(op.drop_last() =~= Seq::<PanelOp>::empty());
            assert(wire(op) =~= Seq::<u8>::empty());
        },
    }
}

/// Carrying out any series of steps lets the panel receive exactly the commands and
/// arguments of that series, in order, and nothing else.
pub proof fn law_panel_receives_commands(start: u8, cmds: Seq<PanelCmd>)
    ensures
        received(start, wire(ops_of_all(cmds))) == bits_of_all(cmds),
    decreases cmds.len(),
{
    if cmds.len() > 0 {
        let before = cmds.drop_last();
        law_panel_receives_commands(start, before);
        lemma_wire_concat(ops_of_all(before), ops_of(cmds.last()));
        lemma_received_concat(start, wire(ops_of_all(before)), wire(ops_of(cmds.last())));
        lemma_step_received(level_after(start, wire(ops_of_all(before))), cmds.last());
    }
}

/// After every operation, and so during every wait, the lines are idle.
pub proof fn law_lines_idle_between_operations(ops: Seq<PanelOp>)
    ensures
        level_after(LINES_IDLE, wire(ops)) == LINES_IDLE,
    decreases ops.len(),
{
    if ops.len() > 0 {
        law_lines_idle_between_operations(ops.drop_last());
        match ops.last() {
            PanelOp::Byte { value, is_cmd } => {
                law_byte_is_received(LINES_IDLE, value, is_cmd);
                assert(wire(ops).last() == byte_writes(value, is_cmd).last());
            },
            PanelOp::Delay(_) => {
                assert(wire(ops) =~= wire(ops.drop_last()));
            },
        }
    }
}

/// The waits of a series of operations.
pub open spec fn delays(ops: Seq<PanelOp>) -> Seq<u8>
    decreases ops.len(),
{
    if ops.len() == 0 {
        Seq::empty()
    } else {
        match ops.last() {
            PanelOp::Byte { .. } => delays(ops.drop_last()),
            PanelOp::Delay(ms) => delays(ops.drop_last()).push(ms),
        }
    }
}

/// The waits of a series of steps.
pub open spec fn delays_of_all(cmds: Seq<PanelCmd>) -> Seq<u8>
    decreases cmds.len(),
{
    if cmds.len() == 0 {
        Seq::empty()
    } else {
        match cmds.last() {
            PanelCmd::Cmd(_, _) => delays_of_all(cmds.drop_last()),
            PanelCmd::Delay(ms) => delays_of_all(cmds.drop_last()).push(ms),
        }
    }
}

/// Bytes do not wait.
proof fn lemma_delays_concat(a: Seq<PanelOp>, b: Seq<PanelOp>)
    requires
        forall|i: int| 0 <= i < b.len() ==> #[trigger] b[i] is Byte,
    ensures
        delays(a + b) == delays(a),
    decreases b.len(),
{
    if b.len() == 0 {
        assert(a + b =~= a);
    } else {
        assert((a + b).drop_last() =~= a + b.drop_last());
        assert((a + b).last() == b[b.len() - 1]);
        lemma_delays_concat(a, b.drop_last());
    }
}

/// Every wait of a series of steps is kept, in order, and none is made up.
pub proof fn law_delays_are_kept(cmds: Seq<PanelCmd>)
    ensures
        delays(ops_of_all(cmds)) == delays_of_all(cmds),
    decreases cmds.len(),
{
    if cmds.len() > 0 {
        let before = cmds.drop_last();
        law_delays_are_kept(before);
        match cmds.last() {
            PanelCmd::Cmd(_, _) => {
                lemma_delays_concat(ops_of_all(before), ops_of(cmds.last()));
            },
            PanelCmd::Delay(_) => {
                assert(ops_of_all(cmds).drop_last() =~= ops_of_all(before));
            },
        }
    }
}

/// What a panel hears in a series of bits: every nine of them are a byte.
pub open spec fn heard(bits: Seq<bool>) -> Seq<PanelOp>
    decreases bits.len(),
{
    if bits.len() < 9 {
        Seq::empty()
    } else {
        let frame = bits.skip(bits.len() - 9);
        heard(bits.take(bits.len() - 9)).push(
            PanelOp::Byte { value: frame_value(frame) as u8, is_cmd: !frame[0] },
        )
    }
}

/// The operations that send something.
pub open spec fn bytes_in(ops: Seq<PanelOp>) -> Seq<PanelOp>
    decreases ops.len(),
{
    if ops.len() == 0 {
        Seq::empty()
    } else {
        match ops.last() {
            PanelOp::Byte { .. } => bytes_in(ops.drop_last()).push(ops.last()),
            PanelOp::Delay(_) => bytes_in(ops.drop_last()),
        }
    }
}

/// The panel hears, off the lines, exactly the bytes that the operations send, each as the
/// command or the data that it is, in order.
pub proof fn law_panel_hears_every_byte(start: u8, ops: Seq<PanelOp>)
    ensures
        heard(received(start, wire(ops))) == bytes_in(ops),
    decreases ops.len(),
{
    if ops.len() == 0 {
        assert(heard(received(start, wire(ops))) =~= bytes_in(ops));
    } else {
        let before = ops.drop_last();
        law_panel_hears_every_byte(start, before);
        match ops.last() {
            PanelOp::Byte { value, is_cmd } => {
                let level = level_after(start, wire(before));
                lemma_received_concat(start, wire(before), byte_writes(value, is_cmd));
                law_panel_hears_the_byte(level, value, is_cmd);
                let earlier = received(start, wire(before));
                let frame = received(level, byte_writes(value, is_cmd));
                let bits = received(start, wire(ops));
                assert(bits =~= earlier + frame);
                assert(bits.skip(bits.len() - 9) =~= frame);
                assert(bits.take(bits.len() - 9) =~= earlier);
            },
            PanelOp::Delay(_) => {
                assert(wire(ops) =~= wire(before));
            },
        }
    }
}

/// What a panel makes of a series of operations: a command byte begins a command, the data
/// bytes after it are its arguments, and a wait is a wait.
pub open spec fn understood(ops: Seq<PanelOp>) -> Seq<PanelCmd>
    decreases ops.len(),
{
    if ops.len() == 0 {
        Seq::empty()
    } else {
        let before = understood(ops.drop_last());
        match ops.last() {
            PanelOp::Byte { value, is_cmd: true } => before.push(
                PanelCmd::Cmd(value, Seq::empty()),
            ),
            PanelOp::Byte { value, is_cmd: false } => match before.last() {
                PanelCmd::Cmd(cmd, args) => before.drop_last().push(
                    PanelCmd::Cmd(cmd, args.push(value)),
                ),
                PanelCmd::Delay(_) => before,
            },
            PanelOp::Delay(ms) => before.push(PanelCmd::Delay(ms)),
        }
    }
}

/// A command is understood with its arguments.
proof fn lemma_command_is_understood(ops: Seq<PanelOp>, value: u8, args: Seq<u8>)
    ensures
        understood(ops + (seq![PanelOp::Byte { value, is_cmd: true }] + data_ops(args)))
            == understood(ops).push(PanelCmd::Cmd(value, args)),
    decreases args.len(),
{
    let head = seq![PanelOp::Byte { value, is_cmd: true }];
    let all = ops + (head + data_ops(args));
    if args.len() == 0 {
        assert(all.drop_last() =~= ops);
        assert(all.last() == head[0]);
        assert(args =~= Seq::<u8>::empty());
    } else {
        let before = args.drop_last();
        lemma_command_is_understood(ops, value, before);
        assert(all.drop_last() =~= ops + (head + data_ops(before)));
        assert(all.last() == (PanelOp::Byte { value: args.last(), is_cmd: false }));
        assert(before.push(args.last()) =~= args);
        assert(understood(ops).push(PanelCmd::Cmd(value, before)).drop_last() =~= understood(ops));
    }
}

/// Every series of steps is understood as that series: each command with exactly its own
/// arguments, each wait in its place.
pub proof fn law_steps_are_understood(cmds: Seq<PanelCmd>)
    ensures
        understood(ops_of_all(cmds)) == cmds,
    decreases cmds.len(),
{
    if cmds.len() == 0 {
        assert(understood(ops_of_all(cmds)) =~= cmds);
    } else {
        let before = cmds.drop_last();
        law_steps_are_understood(before);
        assert(before.push(cmds.last()) =~= cmds);
        match cmds.last() {
            PanelCmd::Cmd(value, args) => {
                lemma_command_is_understood(ops_of_all(before), value, args);
            },
            PanelCmd::Delay(ms) => {
                assert(ops_of_all(cmds).drop_last() =~= ops_of_all(before));
            },
        }
    }
}

/// The initialization wakes the panel up and turns the picture on, in this order and at the
/// very end: out of sleep, 120 ms, display on, 20 ms. There is no other wait, and no other
/// command that sleeps, wakes, or turns the picture on or off.
pub proof fn law_initialization_turns_the_picture_on(i: int)
    ensures
        ({
            let table = init_table();
            let n = table.len() as int;
            &&& n == 50
            &&& table[n - 4] == PanelCmd::Cmd(0x11, Seq::empty())
            &&& table[n - 3] == PanelCmd::Delay(120)
            &&& table[n - 2] == PanelCmd::Cmd(0x29, Seq::empty())
            &&& table[n - 1] == PanelCmd::Delay(20)
            &&& 0 <= i < n - 4 ==> table[i] is Cmd && table[i]->Cmd_0 != 0x10 && table[i]->Cmd_0
                != 0x11 && table[i]->Cmd_0 != 0x28 && table[i]->Cmd_0 != 0x29
        }),
{
}

/// The argument with this number of a command.
pub open spec fn argument(cmd: PanelCmd, i: int) -> int {
    match cmd {
        PanelCmd::Cmd(_, args) => args[i] as int,
        PanelCmd::Delay(_) => -1,
    }
}

/// The number that two arguments of a command make, the more significant first.
pub open spec fn word(cmd: PanelCmd, i: int) -> int {
    argument(cmd, i) * 256 + argument(cmd, i + 1)
}

/// Whether `cmd` is this command with this many arguments.
pub open spec fn is_command(cmd: PanelCmd, code: int, count: int) -> bool {
    cmd matches PanelCmd::Cmd(value, args) && value == code && args.len() == count
}

/// The initialization begins by unlocking the panel's own registers and setting its supply
/// and its interface.
pub proof fn law_supply_and_interface()
    ensures
        ({
            let table = init_table();
            &&& table[0] == PanelCmd::Cmd(0xf0, seq![0x55u8, 0xaa, 0x52, 0x08, 0x00])
            &&& table[1] == PanelCmd::Cmd(0xf6, seq![0x5au8, 0x87])
            &&& table[2] == PanelCmd::Cmd(0xc1, seq![0x3fu8])
            &&& table[3] == PanelCmd::Cmd(0xc2, seq![0x0eu8])
            &&& table[4] == PanelCmd::Cmd(0xc6, seq![0xf8u8])
            &&& table[5] == PanelCmd::Cmd(0xc9, seq![0x10u8])
            &&& table[6] == PanelCmd::Cmd(0xcd, seq![0x25u8])
            &&& table[7] == PanelCmd::Cmd(0xf8, seq![0x8au8])
            &&& table[8] == PanelCmd::Cmd(0xac, seq![0x45u8])
            &&& table[9] == PanelCmd::Cmd(0xa0, seq![0xddu8])
            &&& table[10] == PanelCmd::Cmd(0xa7, seq![0x47u8])
            &&& table[11] == PanelCmd::Cmd(0xfa, seq![0x00u8, 0x00, 0x00, 0x04])
            &&& table[12] == PanelCmd::Cmd(0x86, seq![0x99u8, 0xa3, 0xa3, 0x51])
            &&& table[13] == PanelCmd::Cmd(0xa3, seq![0xeeu8])
            &&& table[14] == PanelCmd::Cmd(0xfd, seq![0x3cu8, 0x03])
            &&& table[15] == PanelCmd::Cmd(0x71, seq![0x48u8])
            &&& table[16] == PanelCmd::Cmd(0x72, seq![0x48u8])
            &&& table[17] == PanelCmd::Cmd(0x73, seq![0x00u8, 0x44])
            &&& table[18] == PanelCmd::Cmd(0x97, seq![0xeeu8])
            &&& table[19] == PanelCmd::Cmd(0x83, seq![0x93u8])
            &&& table[20] == PanelCmd::Cmd(0x9a, seq![0x72u8])
            &&& table[21] == PanelCmd::Cmd(0x9b, seq![0x5au8])
            &&& table[22] == PanelCmd::Cmd(0x82, seq![0x2cu8, 0x2c])
            &&& table[23] == PanelCmd::Cmd(0xb1, seq![0x10u8])
        }),
{
}

/// Each of the four registers of gate starts holds two of eight: the starts are one line
/// after the other, from line 475 on, with the phase counting down to the sixth and up after
/// it.
pub proof fn law_gate_starts(k: int)
    requires
        0 <= k < 8,
    ensures
        ({
            let cmd = init_table()[25 + k / 2];
            let at = 6 * (k % 2);
            &&& is_command(cmd, 0x64 + k / 2, 16)
            &&& k < 6 ==> word(cmd, at) == 0x3805 - k
            &&& k >= 6 ==> word(cmd, at) == 0x3001 + (k - 6)
            &&& word(cmd, at + 2) == 475 + k
            &&& argument(cmd, at + 4) == 3 && argument(cmd, at + 5) == 3
            &&& word(cmd, 12) == 0x7a7a && word(cmd, 14) == 0x7a7a
        }),
{
}

/// Which gate signal goes to which of the 32 outputs: ten on each side, and none in between.
pub proof fn law_gate_outputs(k: int)
    requires
        0 <= k < 12,
    ensures
        ({
            let cmd = init_table()[24];
            &&& is_command(cmd, 0x6d, 32)
            &&& word(cmd, 0) == 0x001f && word(cmd, 2) == 0x191a && word(cmd, 4) == 0x100e
            &&& word(cmd, 6) == 0x0c0a && word(cmd, 8) == 0x0207
            &&& argument(cmd, 10 + k) == 0x1e
            &&& word(cmd, 22) == 0x0801 && word(cmd, 24) == 0x090b && word(cmd, 26) == 0x0d0f
            &&& word(cmd, 28) == 0x1a19 && word(cmd, 30) == 0x1f00
        }),
{
}

/// The remaining gate and source settings.
pub proof fn law_gate_and_source_settings()
    ensures
        ({
            let table = init_table();
            &&& is_command(table[29], 0x68, 13)
            &&& argument(table[29], 0) == 0
            &&& word(table[29], 1) == 0x0815 && word(table[29], 3) == 0x0815
            &&& word(table[29], 5) == 0x7a7a && word(table[29], 7) == 0x0815
            &&& word(table[29], 9) == 0x0815 && word(table[29], 11) == 0x7a7a
            &&& table[30] == PanelCmd::Cmd(0x60, seq![0x38u8, 0x08, 0x7a, 0x7a, 0x38, 0x09, 0x7a, 0x7a])
            &&& table[31] == PanelCmd::Cmd(0x63, seq![0x31u8, 0xe4, 0x7a, 0x7a, 0x31, 0xe5, 0x7a, 0x7a])
            &&& table[32] == PanelCmd::Cmd(0x69, seq![0x04u8, 0x22, 0x14, 0x22, 0x14, 0x22, 0x08])
            &&& table[33] == PanelCmd::Cmd(0x6b, seq![0x07u8])
            &&& table[34] == PanelCmd::Cmd(0x7a, seq![0x08u8, 0x13])
            &&& table[35] == PanelCmd::Cmd(0x7b, seq![0x08u8, 0x13])
        }),
{
}

/// All six gamma registers, positive and negative for each color, get the same curve: 26
/// levels that rise from none to all of ten bits.
pub proof fn law_gamma_curve(register: int, k: int)
    requires
        1 <= register <= 6,
        0 <= k < 26,
    ensures
        ({
            let levels: Seq<int> = seq![
                0, 4, 18, 24, 33, 42, 53, 71, 86, 144, 229, 360,
                469, 471, 566, 678, 750, 840, 928, 954,
                965, 976, 992, 1002, 1018, 1023,
            ];
            let cmd = init_table()[35 + register];
            &&& is_command(cmd, 0xd0 + register, 52)
            &&& word(cmd, 2 * k) == levels[k]
            &&& 0 <= word(cmd, 2 * k) < 1024
            &&& k > 0 ==> word(cmd, 2 * (k - 1)) < word(cmd, 2 * k)
        }),
{
    assert(init_table()[35 + register] == PanelCmd::Cmd((0xd0 + register) as u8, gamma_curve()));
}

/// The picture fills the whole panel: no mirroring, columns 0 to 479, rows 0 to 479, and
/// eighteen bits per pixel.
pub proof fn law_picture_fills_the_panel()
    ensures
        ({
            let table = init_table();
            let board = Board::LcdEv;
            &&& is_command(table[42], 0x36, 1) && argument(table[42], 0) == 0
            &&& is_command(table[43], 0x2a, 4)
            &&& word(table[43], 0) == 0
            &&& word(table[43], 2) == board.spec_h_res() - 1
            &&& word(table[43], 2) == 479
            &&& is_command(table[44], 0x2b, 4)
            &&& word(table[44], 0) == 0
            &&& word(table[44], 2) == board.spec_v_res() - 1
            &&& word(table[44], 2) == 479
            &&& is_command(table[45], 0x3a, 1) && argument(table[45], 0) == 0x66
        }),
{
}

/// A step is seen with all that it holds.
pub proof fn law_step_is_seen_whole(cmd: InitCmd)
    ensures
        cmd matches InitCmd::Cmd(value, args) ==> cmd@ == PanelCmd::Cmd(value, args@),
        cmd matches InitCmd::Delay(ms) ==> cmd@ == PanelCmd::Delay(ms),
{
}

} // verus!
