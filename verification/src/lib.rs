//! The logic of a WiFi scanner with a touch screen, for three ESP32-S3 boards.
//!
//! Here stand, each function with its contract: what the touch and panel chips are told
//! and what their answers mean, what the panel's EEPROM says, the test patterns, the reports
//! on scans and on the heap, and every decision of the tasks that render, send frames, scan
//! and refresh. A task is a state machine: it says what is to be done next, and whoever owns
//! the hardware does it and hands back what came of it. Positions in the window's logical,
//! fractional pixels and the wording of the other log lines are left to the firmware.
pub mod auto_refresh;
pub mod board;
pub mod clock;
pub mod dma;
pub mod dpi;
pub mod framebuffer;
pub mod ft5x06;
pub mod heap;
pub mod panel_init;
pub mod panel_wire;
pub mod pattern;
pub mod pointer;
pub mod render;
pub mod scan_report;
pub mod scan_results;
pub mod scan_task;
pub mod tca9554;
pub mod text;
pub mod touch_loop;
