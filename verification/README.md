# esp_slint_boards

A WiFi scanner with a touch screen for three ESP32-S3 boards: the ESoPe SLD-C-W-S3, the
ESP32-S3-Box-3 and the ESP32-S3-LCD-EV-Board. The window is drawn by Slint.

- `src/` is the verified library. It holds what the tasks decide and compute, each
  function with its contract:
  - `ft5x06`, `pointer`, `touch_loop`: reading the touch controller, and turning readings
    into pointer events;
  - `tca9554`, `panel_wire`, `panel_init`: the I/O expander, the panel's serial line
    behind it, and the panel's initialization;
  - `dpi`: the panel's EEPROM and the signal settings of the RGB panels;
  - `framebuffer`, `pattern`, `dma`: the frame buffer, the test patterns, and sending
    frames;
  - `render`: what happens in each frame;
  - `scan_report`, `scan_results`, `scan_task`, `auto_refresh`: scanning, reporting what
    was found, and showing it;
  - `board`, `clock`, `heap`, `text`: the boards' numbers, the time, the heap report, and
    numbers in text.
- `app/` is the firmware around it: peripherals, tasks, the window with its logical
  positions, and the log.
- `tests/` runs the library on the host.

The tasks are state machines. `start` gives the first action; whoever owns the hardware
performs it and hands the outcome to `next`, which gives the next action. The functions
named `law_...` state what holds of whole runs: that the panel receives exactly the
commands it is sent, that every frame is drawn once, into the whole of the frame buffer
where there is one, that the window sees complete gestures only, that the latest
publication of scan results is shown once, and that a refresh that finds the results
locked loses nothing.

Two things are taken on trust: how `embedded-graphics-core` lays out an RGB565 color, and
how `embassy-time` turns clock ticks into a duration.
