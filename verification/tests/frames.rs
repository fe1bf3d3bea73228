use embedded_graphics_core::pixelcolor::{IntoStorage, Rgb565};
use esp_slint_boards::board::Board;
use esp_slint_boards::dma::{
    dma_descriptor_count, is_dma_aligned, next_dma_action, DmaAction, DmaEvent,
};
use esp_slint_boards::framebuffer::{PSRAMFrameBuffer, LCD_BUFFER_SIZE};
use esp_slint_boards::pattern::{gradient_pattern, quadrant_pattern};

type Event = DmaEvent<&'static str, u32, char>;

#[test]
fn frame_buffer_reads_back_what_was_set() {
    let black = Rgb565::new(0, 0, 0);
    let color = Rgb565::new(1, 2, 3);
    let mut memory = [black; LCD_BUFFER_SIZE];
    {
        let mut fb = PSRAMFrameBuffer::new(&mut memory);
        assert_eq!(fb.nr_elements(), 76800);
        fb.set(0, color);
        fb.set(76799, color);
        assert_eq!(fb.get(0), color);
        assert_eq!(fb.get(1), black);
        assert_eq!(fb.get(76799), color);
    }
    assert_eq!(memory[0], color);
    assert_eq!(memory[76798], black);
    assert_eq!(memory[76799], color);
}

#[test]
fn quadrants() {
    let pixels = quadrant_pattern();
    assert_eq!(pixels.len(), 230400);
    assert_eq!(pixels[0], 0xF800);
    assert_eq!(pixels[239], 0xF800);
    assert_eq!(pixels[240], 0x07E0);
    assert_eq!(pixels[479], 0x07E0);
    assert_eq!(pixels[239 * 480], 0xF800);
    assert_eq!(pixels[239 * 480 + 479], 0x07E0);
    assert_eq!(pixels[240 * 480], 0x001F);
    assert_eq!(pixels[230399], 0x001F);
}

#[test]
fn gradient() {
    let pixels = gradient_pattern();
    assert_eq!(pixels.len(), 76800);
    assert_eq!(pixels[0], 0);
    // The last pixel: green 319 * 63 / 320 = 62, blue 239 * 31 / 240 = 30.
    assert_eq!(pixels[76799], 62 * 32 + 30);
    for (i, &value) in pixels.iter().enumerate() {
        let g = (i % 320 * 63 / 320) as u8;
        let b = (i / 320 * 31 / 240) as u8;
        assert_eq!(value, Rgb565::new(0, g, b).into_storage());
    }
}

#[test]
fn gradient_grows() {
    let pixels = gradient_pattern();
    for y in 0..240 {
        for x in 1..320 {
            assert!(pixels[y * 320 + x] / 32 >= pixels[y * 320 + x - 1] / 32);
        }
    }
    for y in 1..240 {
        assert!(pixels[y * 320] % 32 >= pixels[(y - 1) * 320] % 32);
    }
    assert!(pixels.iter().all(|&p| p < 2048));
}

#[test]
fn frame_sizes() {
    assert_eq!(Board::Esope.frame_bytes(), 153600);
    assert_eq!(Board::Box3.frame_bytes(), 153600);
    assert_eq!(Board::LcdEv.frame_bytes(), 460800);
    assert_eq!((Board::LcdEv.h_res(), Board::LcdEv.v_res()), (480, 480));
    assert_eq!((Board::Esope.h_res(), Board::Esope.v_res()), (320, 240));
}

#[test]
fn descriptors_cover_a_frame() {
    assert_eq!(dma_descriptor_count(460800, 4092), 113);
    assert_eq!(dma_descriptor_count(153600, 4092), 38);
    assert_eq!(dma_descriptor_count(4092, 4092), 1);
    assert_eq!(dma_descriptor_count(4093, 4092), 2);
    assert_eq!(dma_descriptor_count(0, 4092), 0);
}

#[test]
fn alignment() {
    assert!(is_dma_aligned(0x3C00_0040));
    assert!(!is_dma_aligned(0x3C00_0020));
}

#[test]
fn display_task_sends_whole_frames_for_ever() {
    let send = |dpi, buf, report_failure| DmaAction::Send { dpi, buf, length: 460800, report_failure };
    let next = |event: Event| next_dma_action(Board::LcdEv, event);
    assert_eq!(next(DmaEvent::Begin { dpi: "dpi", buf: 1 }), send("dpi", 1, false));
    assert_eq!(next(DmaEvent::Started { transfer: 'x' }), DmaAction::Wait { transfer: 'x' });
    assert_eq!(next(DmaEvent::Finished { ok: true, dpi: "a", buf: 2 }), send("a", 2, false));
    assert_eq!(next(DmaEvent::Finished { ok: false, dpi: "b", buf: 3 }), send("b", 3, true));
    assert_eq!(next(DmaEvent::Refused { dpi: "c", buf: 4 }), send("c", 4, true));
    let first: Event = DmaEvent::Begin { dpi: "dpi", buf: 1 };
    assert_eq!(
        next_dma_action(Board::Esope, first),
        DmaAction::Send { dpi: "dpi", buf: 1, length: 153600, report_failure: false }
    );
}

#[test]
fn each_transfer_uses_what_was_handed_back() {
    // Refused, failed, and sent, over and over; the engine hands back new handles each time.
    let mut event: Event = DmaEvent::Begin { dpi: "dpi", buf: 0 };
    let mut failed = false;
    for round in 0..30u32 {
        match next_dma_action(Board::Esope, event) {
            DmaAction::Send { dpi, buf, length, report_failure } => {
                assert_eq!((dpi, buf, length), ("dpi", round, 153600));
                assert_eq!(report_failure, failed);
            }
            DmaAction::Wait { .. } => panic!("nothing is running"),
        }
        failed = round % 3 != 2;
        let buf = round + 1;
        if round % 3 == 0 {
            event = DmaEvent::Refused { dpi: "dpi", buf };
        } else {
            let started: Event = DmaEvent::Started { transfer: 't' };
            let waiting = next_dma_action(Board::Esope, started);
            assert_eq!(waiting, DmaAction::Wait { transfer: 't' });
            event = DmaEvent::Finished { ok: round % 3 == 2, dpi: "dpi", buf };
        }
    }
}
