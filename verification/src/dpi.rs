//! How the RGB panels are driven: the identification EEPROM of the 320x240 panel, and the
//! signal settings of both RGB panels.
use vstd::prelude::*;

verus! {

/// Bytes of the identification EEPROM that describe the panel.
pub const EEPROM_BYTES: usize = 0x1c;

/// Highest pixel clock of the 320x240 panel, in hertz.
pub const MAX_PCLK_HZ: u32 = 13_600_000;

/// Pixel clock for an EEPROM that names none, in hertz.
pub const DEFAULT_PCLK_HZ: u32 = 10_000_000;

/// Width for an EEPROM that names none.
pub const DEFAULT_WIDTH: u16 = 320;

/// Height for an EEPROM that names none.
pub const DEFAULT_HEIGHT: u16 = 240;

/// What the identification EEPROM says of the panel.
#[derive(Clone, Copy, Debug, PartialEq, Eq, Structural)]
pub struct DisplayConfig {
    /// Width as stored.
    pub eeprom_width: u16,
    /// Height as stored.
    pub eeprom_height: u16,
    /// Width to use.
    pub width: u16,
    /// Height to use.
    pub height: u16,
    /// Pixel clock as stored, up to the highest that the panel takes.
    pub eeprom_pclk_hz: u32,
    /// Pixel clock to use.
    pub pclk_hz: u32,
    /// Signal flags as stored.
    pub flags: u8,
    /// Horizontal sync rests low.
    pub hsync_idle_low: bool,
    /// Vertical sync rests low.
    pub vsync_idle_low: bool,
    /// Data enable rests high.
    pub de_idle_high: bool,
    /// Pixels change on the other clock edge.
    pub pclk_active_neg: bool,
}

/// The resting level of a signal.
#[derive(Clone, Copy, Debug, PartialEq, Eq, Structural)]
pub enum IdleLevel {
    Low,
    High,
}

/// The resting level of the pixel clock.
#[derive(Clone, Copy, Debug, PartialEq, Eq, Structural)]
pub enum ClockPolarity {
    IdleLow,
    IdleHigh,
}

/// The clock edge on which pixels change.
#[derive(Clone, Copy, Debug, PartialEq, Eq, Structural)]
pub enum ClockPhase {
    ShiftLow,
    ShiftHigh,
}

/// The timing of one frame, in pixels and lines.
#[derive(Clone, Copy, Debug, PartialEq, Eq, Structural)]
pub struct FrameTiming {
    pub horizontal_active_width: usize,
    pub horizontal_total_width: usize,
    pub horizontal_blank_front_porch: usize,
    pub vertical_active_height: usize,
    pub vertical_total_height: usize,
    pub vertical_blank_front_porch: usize,
    pub hsync_width: usize,
    pub vsync_width: usize,
    pub hsync_position: usize,
}

/// All signal settings of an RGB panel.
#[derive(Clone, Copy, Debug, PartialEq, Eq, Structural)]
pub struct DpiSettings {
    pub polarity: ClockPolarity,
    pub phase: ClockPhase,
    pub pclk_hz: u32,
    pub two_byte_mode: bool,
    pub timing: FrameTiming,
    pub vsync_idle: IdleLevel,
    pub hsync_idle: IdleLevel,
    pub de_idle: IdleLevel,
    pub disable_black_region: bool,
}

/// A big-endian 16-bit value.
pub open spec fn be16(high: u8, low: u8) -> int {
    high * 256 + low
}

/// The stored pixel clock: whole megahertz and tenths of a megahertz.
pub open spec fn stored_pclk_hz(eeid: Seq<u8>) -> int {
    eeid[12] * 1_000_000 + eeid[13] * 100_000
}

/// `value`, or `default` where there is none.
pub open spec fn nonzero_or(value: int, default: int) -> int {
    if value == 0 {
        default
    } else {
        value
    }
}

/// The smaller of two values.
pub open spec fn at_most(value: int, limit: int) -> int {
    if value <= limit {
        value
    } else {
        limit
    }
}

/// What the EEPROM contents `eeid` say: bytes 8 to 11 are width and height, bytes 12 and 13
/// the pixel clock, byte 25 the signal flags.
pub open spec fn decoded_config(eeid: Seq<u8>) -> DisplayConfig {
    let width = be16(eeid[8], eeid[9]);
    let height = be16(eeid[10], eeid[11]);
    let pclk = at_most(stored_pclk_hz(eeid), 13_600_000);
    let flags = eeid[25];
    DisplayConfig {
        eeprom_width: width as u16,
        eeprom_height: height as u16,
        width: nonzero_or(width, 320) as u16,
        height: nonzero_or(height, 240) as u16,
        eeprom_pclk_hz: pclk as u32,
        pclk_hz: nonzero_or(pclk, 10_000_000) as u32,
        flags,
        hsync_idle_low: flags & 0x01 != 0,
        vsync_idle_low: flags & 0x02 != 0,
        de_idle_high: flags & 0x04 != 0,
        pclk_active_neg: flags & 0x20 != 0,
    }
}

/// Joins a big-endian 16-bit value.
fn join_be16(high: u8, low: u8) -> (v: u16)
    ensures
        v == be16(high, low),
{
    (high as u16) * 256 + low as u16
}

/// Reads the panel's description out of the EEPROM contents.
pub fn decode_eeprom(eeid: &[u8; EEPROM_BYTES]) -> (config: DisplayConfig)
    ensures
        config == decoded_config(eeid@),
{
    let display_width: u16 = join_be16(eeid[8], eeid[9]);
    let display_height: u16 = join_be16(eeid[10], eeid[11]);
    let width: u16 = if display_width == 0 {
        DEFAULT_WIDTH
    } else {
        display_width
    };
    let height: u16 = if display_height == 0 {
        DEFAULT_HEIGHT
    } else {
        display_height
    };
    let stored: u32 = (eeid[12] as u32) * 1_000_000 + (eeid[13] as u32) * 100_000;
    let pclk_hz: u32 = if stored <= MAX_PCLK_HZ {
        stored
    } else {
        MAX_PCLK_HZ
    };
    let flags: u8 = eeid[25];
    let actual_pclk_hz: u32 = if pclk_hz == 0 {
        DEFAULT_PCLK_HZ
    } else {
        pclk_hz
    };
    DisplayConfig {
        eeprom_width: display_width,
        eeprom_height: display_height,
        width,
        height,
        eeprom_pclk_hz: pclk_hz,
        pclk_hz: actual_pclk_hz,
        flags,
        hsync_idle_low: (flags & 0x01) != 0,
        vsync_idle_low: (flags & 0x02) != 0,
        de_idle_high: (flags & 0x04) != 0,
        pclk_active_neg: (flags & 0x20) != 0,
    }
}

/// The frame timing of the 320x240 panel.
pub open spec fn qvga_timing() -> FrameTiming {
    FrameTiming {
        horizontal_active_width: 320,
        horizontal_total_width: 454,
        horizontal_blank_front_porch: 87,
        vertical_active_height: 240,
        vertical_total_height: 272,
        vertical_blank_front_porch: 16,
        hsync_width: 4,
        vsync_width: 4,
        hsync_position: 47,
    }
}

/// The frame timing of the 480x480 panel.
pub open spec fn square_timing() -> FrameTiming {
    FrameTiming {
        horizontal_active_width: 480,
        horizontal_total_width: 520,
        horizontal_blank_front_porch: 20,
        vertical_active_height: 480,
        vertical_total_height: 510,
        vertical_blank_front_porch: 10,
        hsync_width: 10,
        vsync_width: 10,
        hsync_position: 10,
    }
}

/// The settings of the 320x240 panel that `config` describes.
pub open spec fn qvga_settings(config: DisplayConfig) -> DpiSettings {
    DpiSettings {
        polarity: if config.pclk_active_neg {
            ClockPolarity::IdleHigh
        } else {
            ClockPolarity::IdleLow
        },
        phase: if config.pclk_active_neg {
            ClockPhase::ShiftHigh
        } else {
            ClockPhase::ShiftLow
        },
        pclk_hz: config.pclk_hz,
        two_byte_mode: true,
        timing: qvga_timing(),
        vsync_idle: if config.vsync_idle_low {
            IdleLevel::Low
        } else {
            IdleLevel::High
        },
        hsync_idle: if config.hsync_idle_low {
            IdleLevel::Low
        } else {
            IdleLevel::High
        },
        de_idle: if config.de_idle_high {
            IdleLevel::High
        } else {
            IdleLevel::Low
        },
        disable_black_region: false,
    }
}

/// The settings of the 480x480 panel.
pub open spec fn square_settings() -> DpiSettings {
    DpiSettings {
        polarity: ClockPolarity::IdleLow,
        phase: ClockPhase::ShiftLow,
        pclk_hz: 16_000_000,
        two_byte_mode: true,
        timing: square_timing(),
        vsync_idle: IdleLevel::High,
        hsync_idle: IdleLevel::High,
        de_idle: IdleLevel::Low,
        disable_black_region: false,
    }
}

/// The settings of the 320x240 panel that `config` describes.
pub fn qvga_dpi(config: &DisplayConfig) -> (settings: DpiSettings)
    ensures
        settings == qvga_settings(*config),
{
    DpiSettings {
        polarity: if config.pclk_active_neg {
            ClockPolarity::IdleHigh
        } else {
            ClockPolarity::IdleLow
        },
        phase: if config.pclk_active_neg {
            ClockPhase::ShiftHigh
        } else {
            ClockPhase::ShiftLow
        },
        pclk_hz: config.pclk_hz,
        two_byte_mode: true,
        timing: FrameTiming {
            horizontal_active_width: 320,
            horizontal_total_width: 320 + 4 + 43 + 79 + 8,
            horizontal_blank_front_porch: 79 + 8,
            vertical_active_height: 240,
            vertical_total_height: 240 + 4 + 12 + 16,
            vertical_blank_front_porch: 16,
            hsync_width: 4,
            vsync_width: 4,
            hsync_position: 43 + 4,
        },
        vsync_idle: if config.vsync_idle_low {
            IdleLevel::Low
        } else {
            IdleLevel::High
        },
        hsync_idle: if config.hsync_idle_low {
            IdleLevel::Low
        } else {
            IdleLevel::High
        },
        de_idle: if config.de_idle_high {
            IdleLevel::High
        } else {
            IdleLevel::Low
        },
        disable_black_region: false,
    }
}

/// The settings of the 480x480 panel.
pub fn square_dpi() -> (settings: DpiSettings)
    ensures
        settings == square_settings(),
{
    DpiSettings {
        polarity: ClockPolarity::IdleLow,
        phase: ClockPhase::ShiftLow,
        pclk_hz: 16_000_000,
        two_byte_mode: true,
        timing: FrameTiming {
            horizontal_active_width: 480,
            horizontal_total_width: 520,
            horizontal_blank_front_porch: 20,
            vertical_active_height: 480,
            vertical_total_height: 510,
            vertical_blank_front_porch: 10,
            hsync_width: 10,
            vsync_width: 10,
            hsync_position: 10,
        },
        vsync_idle: IdleLevel::High,
        hsync_idle: IdleLevel::High,
        de_idle: IdleLevel::Low,
        disable_black_region: false,
    }
}

/// Whatever the EEPROM holds, the panel gets a size and a clock that it can use: neither
/// dimension is zero, and the clock lies between 100 kHz and 13.6 MHz.
pub proof fn law_config_is_usable(eeid: Seq<u8>)
    ensures
        decoded_config(eeid).width > 0,
        decoded_config(eeid).height > 0,
        100_000 <= decoded_config(eeid).pclk_hz <= 13_600_000,
{
}

/// An EEPROM that is all zero gives the defaults: 320x240 at 10 MHz, syncs resting high and
/// data enable resting low.
pub proof fn law_zero_eeprom_gives_defaults(eeid: Seq<u8>)
    requires
        eeid.len() == 0x1c,
        forall|i: int| 0 <= i < 0x1c ==> eeid[i] == 0,
    ensures
        decoded_config(eeid).width == 320,
        decoded_config(eeid).height == 240,
        decoded_config(eeid).pclk_hz == 10_000_000,
        qvga_settings(decoded_config(eeid)).hsync_idle == IdleLevel::High,
        qvga_settings(decoded_config(eeid)).vsync_idle == IdleLevel::High,
        qvga_settings(decoded_config(eeid)).de_idle == IdleLevel::Low,
        qvga_settings(decoded_config(eeid)).polarity == ClockPolarity::IdleLow,
        qvga_settings(decoded_config(eeid)).phase == ClockPhase::ShiftLow,
{
    assert(eeid[8] == 0 && eeid[9] == 0 && eeid[10] == 0 && eeid[11] == 0);
    assert(eeid[12] == 0 && eeid[13] == 0 && eeid[25] == 0);
    assert(0u8 & 0x01 == 0 && 0u8 & 0x02 == 0 && 0u8 & 0x04 == 0 && 0u8 & 0x20 == 0)
        by (bit_vector);
}

/// Only the bytes that describe the panel matter: two EEPROMs that agree on size, clock
/// and flags give the same settings.
pub proof fn law_other_bytes_are_ignored(a: Seq<u8>, b: Seq<u8>)
    requires
        forall|i: int| 8 <= i < 14 ==> a[i] == b[i],
        a[25] == b[25],
    ensures
        decoded_config(a) == decoded_config(b),
        qvga_settings(decoded_config(a)) == qvga_settings(decoded_config(b)),
{
    assert(a[8] == b[8] && a[9] == b[9] && a[10] == b[10] && a[11] == b[11]);
    assert(a[12] == b[12] && a[13] == b[13]);
}

/// Within a frame, active picture, front porch and sync pulse fit into the totals.
pub open spec fn timing_fits(t: FrameTiming) -> bool {
    &&& t.horizontal_active_width + t.horizontal_blank_front_porch + t.hsync_width
        <= t.horizontal_total_width
    &&& t.vertical_active_height + t.vertical_blank_front_porch + t.vsync_width
        <= t.vertical_total_height
}

/// The timing of both panels fits, whatever the EEPROM holds.
pub proof fn law_timing_fits(eeid: Seq<u8>)
    ensures
        timing_fits(qvga_settings(decoded_config(eeid)).timing),
        timing_fits(square_settings().timing),
{
}

/// The panel is clocked as its EEPROM says: bytes 12 and 13 give the clock in tenths of a
/// megahertz, and the settings use it, up to 13.6 MHz. Only if nothing is stored is the
/// clock 10 MHz.
pub proof fn law_stored_clock_is_used(eeid: Seq<u8>)
    ensures
        ({
            let tenths = eeid[12] * 10 + eeid[13];
            let config = decoded_config(eeid);
            let hz = qvga_settings(config).pclk_hz;
            &&& 1 <= tenths <= 136 ==> hz == tenths * 100_000
            &&& tenths > 136 ==> hz == 13_600_000
            &&& tenths == 0 ==> hz == 10_000_000
            &&& config.pclk_hz == hz
            &&& tenths <= 136 ==> config.eeprom_pclk_hz == tenths * 100_000
            &&& tenths > 136 ==> config.eeprom_pclk_hz == 13_600_000
        }),
{
}

/// The panel's size is what its EEPROM says: bytes 8 and 9 are the width and bytes 10 and 11
/// the height, the more significant byte first. A dimension that is not stored is that of
/// the 320x240 panel, and does not change the other one.
pub proof fn law_stored_size_is_used(eeid: Seq<u8>, width: u16, height: u16)
    requires
        eeid[8] == width / 256,
        eeid[9] == width % 256,
        eeid[10] == height / 256,
        eeid[11] == height % 256,
    ensures
        ({
            let config = decoded_config(eeid);
            &&& config.eeprom_width == width
            &&& config.eeprom_height == height
            &&& width > 0 ==> config.width == width
            &&& width == 0 ==> config.width == 320
            &&& height > 0 ==> config.height == height
            &&& height == 0 ==> config.height == 240
        }),
{
    assert(width == (width / 256) * 256 + width % 256);
    assert(height == (height / 256) * 256 + height % 256);
}

/// Each signal follows its own bit of byte 25, and no other: bit 0 lets horizontal sync rest
/// low, bit 1 vertical sync; bit 2 lets data enable rest high; bit 5 inverts the clock, its
/// resting level and its edge together.
pub proof fn law_signals_follow_their_flags(eeid: Seq<u8>)
    ensures
        ({
            let flags = eeid[25];
            let settings = qvga_settings(decoded_config(eeid));
            &&& decoded_config(eeid).flags == flags
            &&& settings.hsync_idle == IdleLevel::Low <==> flags % 2 == 1
            &&& settings.vsync_idle == IdleLevel::Low <==> (flags / 2) % 2 == 1
            &&& settings.de_idle == IdleLevel::High <==> (flags / 4) % 2 == 1
            &&& settings.polarity == ClockPolarity::IdleHigh <==> (flags / 32) % 2 == 1
            &&& settings.phase == ClockPhase::ShiftHigh <==> (flags / 32) % 2 == 1
        }),
{
    let flags = eeid[25];
    assert((flags & 0x01 != 0) == (flags % 2 == 1)) by (bit_vector);
    assert((flags & 0x02 != 0) == ((flags / 2) % 2 == 1)) by (bit_vector);
    assert((flags & 0x04 != 0) == ((flags / 4) % 2 == 1)) by (bit_vector);
    assert((flags & 0x20 != 0) == ((flags / 32) % 2 == 1)) by (bit_vector);
}

/// What a configuration says is what the settings do: same clock, and each signal as its own
/// field says, so that two configurations that differ in one of these have settings that
/// differ in it.
pub proof fn law_settings_follow_the_configuration(config: DisplayConfig)
    ensures
        ({
            let settings = qvga_settings(config);
            &&& settings.pclk_hz == config.pclk_hz
            &&& settings.hsync_idle == IdleLevel::Low <==> config.hsync_idle_low
            &&& settings.vsync_idle == IdleLevel::Low <==> config.vsync_idle_low
            &&& settings.de_idle == IdleLevel::High <==> config.de_idle_high
            &&& settings.polarity == ClockPolarity::IdleHigh <==> config.pclk_active_neg
            &&& settings.phase == ClockPhase::ShiftHigh <==> config.pclk_active_neg
            &&& settings.two_byte_mode
            &&& !settings.disable_black_region
        }),
{
}

/// A line of the 320x240 panel is 320 pixels, a front porch of 87, a sync pulse of 4 and a
/// back porch of 43; a frame is 240 lines, a front porch of 16, a sync pulse of 4 and a back
/// porch of 12. The picture begins where pulse and back porch end. This holds whatever the
/// EEPROM says.
pub proof fn law_timing_of_the_small_panel(config: DisplayConfig)
    ensures
        ({
            let t = qvga_settings(config).timing;
            &&& t.horizontal_active_width == 320
            &&& t.horizontal_blank_front_porch == 87
            &&& t.hsync_width == 4
            &&& t.hsync_position == t.hsync_width + 43
            &&& t.horizontal_total_width == t.horizontal_active_width
                + t.horizontal_blank_front_porch + t.hsync_width + 43
            &&& t.vertical_active_height == 240
            &&& t.vertical_blank_front_porch == 16
            &&& t.vsync_width == 4
            &&& t.vertical_total_height == t.vertical_active_height
                + t.vertical_blank_front_porch + t.vsync_width + 12
        }),
{
}

/// The 480x480 panel is clocked at 16 MHz, which makes 60 frames per second: a line of 480
/// pixels has a front porch of 20, a sync pulse of 10 and 10 more, and a frame of 480 lines
/// a front porch of 10, a sync pulse of 10 and 10 more. Syncs rest high; data enable and
/// clock rest low.
pub proof fn law_signals_of_the_square_panel()
    ensures
        ({
            let settings = square_settings();
            let t = settings.timing;
            let frame_clocks = t.horizontal_total_width * t.vertical_total_height;
            &&& settings.pclk_hz == 16_000_000
            &&& 60 * frame_clocks <= settings.pclk_hz < 61 * frame_clocks
            &&& t.horizontal_active_width == 480
            &&& t.horizontal_blank_front_porch == 20
            &&& t.hsync_width == 10
            &&& t.hsync_position == 10
            &&& t.horizontal_total_width == t.horizontal_active_width
                + t.horizontal_blank_front_porch + t.hsync_width + 10
            &&& t.vertical_active_height == 480
            &&& t.vertical_blank_front_porch == 10
            &&& t.vsync_width == 10
            &&& t.vertical_total_height == t.vertical_active_height
                + t.vertical_blank_front_porch + t.vsync_width + 10
            &&& settings.hsync_idle == IdleLevel::High
            &&& settings.vsync_idle == IdleLevel::High
            &&& settings.de_idle == IdleLevel::Low
            &&& settings.polarity == ClockPolarity::IdleLow
            &&& settings.phase == ClockPhase::ShiftLow
            &&& settings.two_byte_mode
            &&& !settings.disable_black_region
        }),
{
}

} // verus!
