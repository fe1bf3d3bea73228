//! The boards the firmware runs on, and the numbers that tell them apart.
use vstd::prelude::*;

verus! {

/// Horizontal resolution of the 320x240 panels.
pub const QVGA_H_RES: usize = 320;

/// Vertical resolution of the 320x240 panels.
pub const QVGA_V_RES: usize = 240;

/// Horizontal resolution of the 480x480 panel.
pub const SQUARE_H_RES: usize = 480;

/// Vertical resolution of the 480x480 panel.
pub const SQUARE_V_RES: usize = 480;

/// Bytes that one RGB565 pixel takes.
pub const BYTES_PER_PIXEL: usize = 2;

/// Seconds the radio gets to settle before the first scan.
pub const RADIO_SETTLE_SECS: u64 = 2;

/// Seconds between two scans.
pub const SCAN_PAUSE_SECS: u64 = 10;

/// Most access points that one scan reports.
pub const MAX_SCAN_RESULTS: usize = 10;

/// Seconds between two looks of the refresh task at the scan flag.
pub const REFRESH_PERIOD_SECS: u64 = 2;

/// Milliseconds between two frames and between two touch polls.
pub const FRAME_PERIOD_MS: u64 = 16;

/// How urgent a line of the log is.
#[derive(Clone, Copy, Debug, PartialEq, Eq, Structural)]
pub enum LogLevel {
    Error,
    Info,
    Debug,
}

/// A supported board.
#[derive(Clone, Copy, Debug, PartialEq, Eq, Structural)]
pub enum Board {
    /// ESoPe SLD-C-W-S3: 320x240 RGB panel described by an EEPROM, no touch.
    Esope,
    /// ESP32-S3-Box-3: 320x240 SPI panel, touch polled by the main task.
    Box3,
    /// ESP32-S3-LCD-EV-Board: 480x480 RGB panel, touch polled by the rendering task.
    LcdEv,
}

impl Board {
    /// Width of the panel in pixels.
    pub open spec fn spec_h_res(self) -> nat {
        match self {
            Board::Esope => 320,
            Board::Box3 => 320,
            Board::LcdEv => 480,
        }
    }

    /// Height of the panel in pixels.
    pub open spec fn spec_v_res(self) -> nat {
        match self {
            Board::Esope => 240,
            Board::Box3 => 240,
            Board::LcdEv => 480,
        }
    }

    /// Pixels on the panel.
    pub open spec fn pixels(self) -> nat {
        self.spec_h_res() * self.spec_v_res()
    }

    /// Whether rendering starts only once the frame buffer in PSRAM is announced.
    pub open spec fn spec_waits_for_psram(self) -> bool {
        self != Board::Box3
    }

    /// Whether the rendering task polls the touch controller.
    pub open spec fn spec_polls_touch(self) -> bool {
        self == Board::LcdEv
    }

    /// Whether a scan that found nothing leaves the stored results alone.
    pub open spec fn spec_keeps_results_on_empty_scan(self) -> bool {
        self == Board::LcdEv
    }

    /// Whether the log of scans is kept short.
    pub open spec fn spec_logs_briefly(self) -> bool {
        self == Board::LcdEv
    }

    /// How urgent a failure of the radio is.
    pub open spec fn spec_radio_failure_level(self) -> LogLevel {
        if self.spec_logs_briefly() {
            LogLevel::Error
        } else {
            LogLevel::Info
        }
    }

    /// How urgent the radio's capabilities are.
    pub open spec fn spec_capabilities_level(self) -> LogLevel {
        if self.spec_logs_briefly() {
            LogLevel::Debug
        } else {
            LogLevel::Info
        }
    }

    /// Whether the scan task reports the heap when it begins.
    pub open spec fn spec_reports_heap(self) -> bool {
        self == Board::Box3
    }

    /// Every how many frames the rendering task reports that it is alive.
    pub open spec fn spec_status_period(self) -> u32 {
        match self {
            Board::Esope => 300,
            Board::Box3 => 300,
            Board::LcdEv => 1800,
        }
    }

    /// Every how many frames a rendered frame is reported.
    pub open spec fn spec_render_report_period(self) -> u32 {
        match self {
            Board::Esope => 60,
            Board::Box3 => 60,
            Board::LcdEv => 1,
        }
    }

    /// Width of the panel in pixels.
    pub fn h_res(self) -> (n: usize)
        ensures
            n == self.spec_h_res(),
    {
        match self {
            Board::Esope => QVGA_H_RES,
            Board::Box3 => QVGA_H_RES,
            Board::LcdEv => SQUARE_H_RES,
        }
    }

    /// Height of the panel in pixels.
    pub fn v_res(self) -> (n: usize)
        ensures
            n == self.spec_v_res(),
    {
        match self {
            Board::Esope => QVGA_V_RES,
            Board::Box3 => QVGA_V_RES,
            Board::LcdEv => SQUARE_V_RES,
        }
    }

    /// The frame buffer as a renderer sees it: how many pixels it holds, and how many lie
    /// between the starts of two lines.
    pub fn draw_area(self) -> (r: (usize, usize))
        ensures
            r.0 == self.pixels(),
            r.1 == self.spec_h_res(),
    {
        match self {
            Board::Esope => (QVGA_H_RES * QVGA_V_RES, QVGA_H_RES),
            Board::Box3 => (QVGA_H_RES * QVGA_V_RES, QVGA_H_RES),
            Board::LcdEv => (SQUARE_H_RES * SQUARE_V_RES, SQUARE_H_RES),
        }
    }

    /// Bytes of one full frame.
    pub fn frame_bytes(self) -> (n: usize)
        ensures
            n == 2 * self.pixels(),
    {
        match self {
            Board::Esope => QVGA_H_RES * QVGA_V_RES * BYTES_PER_PIXEL,
            Board::Box3 => QVGA_H_RES * QVGA_V_RES * BYTES_PER_PIXEL,
            Board::LcdEv => SQUARE_H_RES * SQUARE_V_RES * BYTES_PER_PIXEL,
        }
    }

    /// Whether rendering starts only once the frame buffer in PSRAM is announced.
    pub fn waits_for_psram(self) -> (b: bool)
        ensures
            b == self.spec_waits_for_psram(),
    {
        match self {
            Board::Box3 => false,
            _ => true,
        }
    }

    /// Whether the rendering task polls the touch controller.
    pub fn polls_touch(self) -> (b: bool)
        ensures
            b == self.spec_polls_touch(),
    {
        match self {
            Board::LcdEv => true,
            _ => false,
        }
    }

    /// Whether a scan that found nothing leaves the stored results alone.
    pub fn keeps_results_on_empty_scan(self) -> (b: bool)
        ensures
            b == self.spec_keeps_results_on_empty_scan(),
    {
        match self {
            Board::LcdEv => true,
            _ => false,
        }
    }

    /// Whether the log of scans is kept short.
    pub fn logs_briefly(self) -> (b: bool)
        ensures
            b == self.spec_logs_briefly(),
    {
        match self {
            Board::LcdEv => true,
            _ => false,
        }
    }

    /// How urgent a failure of the radio is.
    pub fn radio_failure_level(self) -> (level: LogLevel)
        ensures
            level == self.spec_radio_failure_level(),
    {
        if self.logs_briefly() {
            LogLevel::Error
        } else {
            LogLevel::Info
        }
    }

    /// How urgent the radio's capabilities are.
    pub fn capabilities_level(self) -> (level: LogLevel)
        ensures
            level == self.spec_capabilities_level(),
    {
        if self.logs_briefly() {
            LogLevel::Debug
        } else {
            LogLevel::Info
        }
    }

    /// Whether the scan task reports the heap when it begins.
    pub fn reports_heap(self) -> (b: bool)
        ensures
            b == self.spec_reports_heap(),
    {
        match self {
            Board::Box3 => true,
            _ => false,
        }
    }

    /// Every how many frames the rendering task reports that it is alive.
    pub fn status_period(self) -> (n: u32)
        ensures
            n == self.spec_status_period(),
    {
        match self {
            Board::LcdEv => 1800,
            _ => 300,
        }
    }

    /// Every how many frames a rendered frame is reported.
    pub fn render_report_period(self) -> (n: u32)
        ensures
            n == self.spec_render_report_period(),
    {
        match self {
            Board::LcdEv => 1,
            _ => 60,
        }
    }
}

/// The ESoPe and the Box-3 have panels of 320 by 240 pixels, the LCD-EV-Board one of 480 by
/// 480.
pub proof fn law_panel_sizes(board: Board)
    ensures
        board == Board::LcdEv ==> board.spec_h_res() == 480 && board.spec_v_res() == 480,
        board != Board::LcdEv ==> board.spec_h_res() == 320 && board.spec_v_res() == 240,
        board == Board::LcdEv ==> board.pixels() == 230_400,
        board != Board::LcdEv ==> board.pixels() == 76_800,
{
}

/// Only the Box-3 renders without waiting for a frame buffer, and reports its heap; only the
/// LCD-EV-Board polls touch while rendering, keeps its results when a scan finds nothing,
/// and logs briefly.
pub proof fn law_boards_differ(board: Board)
    ensures
        board.spec_waits_for_psram() <==> board != Board::Box3,
        board.spec_reports_heap() <==> board == Board::Box3,
        board.spec_polls_touch() <==> board == Board::LcdEv,
        board.spec_keeps_results_on_empty_scan() <==> board == Board::LcdEv,
        board.spec_logs_briefly() <==> board == Board::LcdEv,
        board.spec_radio_failure_level() == LogLevel::Error <==> board == Board::LcdEv,
        board.spec_radio_failure_level() == LogLevel::Info <==> board != Board::LcdEv,
        board.spec_capabilities_level() == LogLevel::Debug <==> board == Board::LcdEv,
        board.spec_capabilities_level() == LogLevel::Info <==> board != Board::LcdEv,
{
}

/// At sixty frames per second the LCD-EV-Board reports that it is alive every thirty
/// seconds, and every frame that it renders; the others report every five seconds, and one
/// rendered frame per second.
pub proof fn law_report_periods(board: Board)
    ensures
        board == Board::LcdEv ==> board.spec_status_period() == 30 * 60
            && board.spec_render_report_period() == 1,
        board != Board::LcdEv ==> board.spec_status_period() == 5 * 60
            && board.spec_render_report_period() == 60,
{
}

} // verus!
