use esp_slint_boards::panel_init::{init_cmds, panel_ops, InitCmd, PanelOp};
use esp_slint_boards::panel_wire::{write_byte, LINES_BASE, LINES_DIRECTION, LINES_IDLE};
use esp_slint_boards::tca9554::Tca9554;

/// The bits a panel receives: data at rising clock edges while chip select is low.
fn receive(mut level: u8, writes: &[u8]) -> Vec<bool> {
    let mut bits = Vec::new();
    for &next in writes {
        if level & 0x04 == 0 && next & 0x04 != 0 && next & 0x02 == 0 {
            bits.push(next & 0x08 != 0);
        }
        level = next;
    }
    bits
}

fn frame(b: u8, is_cmd: bool) -> Vec<bool> {
    let mut bits = vec![!is_cmd];
    for i in (0..8).rev() {
        bits.push((b >> i) & 1 != 0);
    }
    bits
}

#[test]
fn expander_writes() {
    let dev = Tca9554::new("bus");
    assert_eq!(dev.address, 0x20);
    let w = dev.write_output_reg(0b1111_0011);
    assert_eq!((w.address, w.bytes), (0x20, [0x01, 0b1111_0011]));
    let w = dev.write_direction_reg(LINES_DIRECTION);
    assert_eq!((w.address, w.bytes), (0x20, [0x03, 0b1111_0001]));
    assert_eq!(dev.into_i2c(), "bus");
}

#[test]
fn command_byte_waveform() {
    // Command 0x80: the bits are 0 1 0 0 0 0 0 0 0.
    let expected = vec![
        0xF1, // chip select low
        0xF1, 0xF5, // command bit
        0xFD, 0xF9, 0xFD, // bit 7: data rises, clock falls and rises
        0xF5, 0xF1, 0xF5, // bit 6: data falls
        0xF1, 0xF5, 0xF1, 0xF5, 0xF1, 0xF5, 0xF1, 0xF5, 0xF1, 0xF5, 0xF1, 0xF5, // bits 5 to 0
        0xF1, // clock low
        0xF1, // data low
        0xF3, // chip select high
    ];
    assert_eq!(write_byte(0x80, true), expected);
}

#[test]
fn data_byte_waveform() {
    // Data 0xFF: all nine bits are high.
    let mut expected = vec![0xF1, 0xF9];
    for _ in 0..9 {
        expected.push(0xF9);
        expected.push(0xFD);
    }
    expected.push(0xF9);
    expected.push(0xF1);
    expected.push(0xF3);
    assert_eq!(write_byte(0xFF, false), expected);
}

#[test]
fn every_byte_is_received() {
    for b in 0..=255u8 {
        for is_cmd in [true, false] {
            let writes = write_byte(b, is_cmd);
            assert_eq!(receive(LINES_IDLE, &writes), frame(b, is_cmd));
            assert_eq!(receive(0xFF, &writes), frame(b, is_cmd));
            assert_eq!(*writes.last().unwrap(), LINES_IDLE);
            for w in writes {
                assert_eq!(w & 0b1111_0001, LINES_BASE);
            }
        }
    }
}

#[test]
fn no_two_bytes_look_alike_on_the_wire() {
    let mut seen = std::collections::HashSet::new();
    for b in 0..=255u8 {
        for is_cmd in [true, false] {
            assert!(seen.insert(receive(LINES_IDLE, &write_byte(b, is_cmd))));
        }
    }
    assert_eq!(seen.len(), 512);
}

#[test]
fn initialization_table() {
    let cmds = init_cmds();
    assert_eq!(cmds.len(), 50);
    match cmds[0] {
        InitCmd::Cmd(cmd, args) => {
            assert_eq!((cmd, args), (0xF0, &[0x55u8, 0xaa, 0x52, 0x08, 0x00][..]));
        }
        InitCmd::Delay(_) => panic!("the first step is a command"),
    }
    match cmds[49] {
        InitCmd::Delay(ms) => assert_eq!(ms, 20),
        InitCmd::Cmd(..) => panic!("the last step is a wait"),
    }
    let mut gammas = 0;
    let mut argument_bytes = 0;
    for cmd in cmds {
        if let InitCmd::Cmd(number, args) = cmd {
            argument_bytes += args.len();
            if (0xD1..=0xD6).contains(&number) {
                gammas += 1;
                assert_eq!(args.len(), 52);
                assert_eq!(args[50..], [0x03, 0xFF]);
            }
            if number == 0x2A || number == 0x2B {
                // Full address range: 0 to 479.
                assert_eq!(args, &[0x00, 0x00, 0x01, 0xDF]);
            }
        }
    }
    assert_eq!(gammas, 6);
    assert_eq!(argument_bytes, 497);
}

#[test]
fn steps_become_operations() {
    let cmds = [InitCmd::Cmd(0x36, &[0x00, 0x7A]), InitCmd::Delay(120), InitCmd::Cmd(0x29, &[])];
    assert_eq!(
        panel_ops(&cmds),
        vec![
            PanelOp::Byte { value: 0x36, is_cmd: true },
            PanelOp::Byte { value: 0x00, is_cmd: false },
            PanelOp::Byte { value: 0x7A, is_cmd: false },
            PanelOp::Delay(120),
            PanelOp::Byte { value: 0x29, is_cmd: true },
        ]
    );
}

#[test]
fn the_panel_receives_the_whole_initialization() {
    let cmds = init_cmds();
    let mut expected = Vec::new();
    let mut expected_delays = Vec::new();
    for cmd in &cmds {
        match cmd {
            InitCmd::Cmd(number, args) => {
                expected.extend(frame(*number, true));
                for arg in args.iter() {
                    expected.extend(frame(*arg, false));
                }
            }
            InitCmd::Delay(ms) => expected_delays.push(*ms),
        }
    }
    let mut writes = Vec::new();
    let mut delays = Vec::new();
    for op in panel_ops(&cmds) {
        match op {
            PanelOp::Byte { value, is_cmd } => writes.extend(write_byte(value, is_cmd)),
            PanelOp::Delay(ms) => {
                assert_eq!(*writes.last().unwrap(), LINES_IDLE);
                delays.push(ms);
            }
        }
    }
    assert_eq!(receive(LINES_IDLE, &writes), expected);
    assert_eq!(delays, expected_delays);
    assert_eq!(delays, vec![120, 20]);
}
