# rusty_balcon

Verified decision logic of a three-key BLE keyboard (Globe, Voice Command,
Enter) with an RGB status LED and a small OLED.

- `src/hid.rs` – keyboard and consumer-control input reports.
- `src/led.rs` – LED colours and the pairing heartbeat envelope.
- `src/keys.rs` – key set, EXT1 wake-up status decoding and wake mask.
- `src/display.rs` – status line, key boxes and labels.
- `src/controller.rs` – the per-poll controller: state, specification of one
  step phase by phase, and the verified `step`.
- `src/properties.rs` – properties of the controller across inputs and polls.
- `app/main.rs` – the firmware: hardware setup, BLE callbacks and the poll
  loop that performs the controller's actions.
