# joystick-usbhid

Firmware logic for a gameport joystick (stick and throttle) wired to an STM32 Nucleo board
that presents it to the host as a USB HID joystick.

- `src/` is the verified library (Verus): hat-switch decoding (`dpad`), the scans of the two
  button matrices as state machines (`scan`, `joystick_button_matrix`,
  `throttle_button_matrix`) and the construction of the HID input report (`hid`).
- `app/` is the embassy firmware around it: board set-up, ADC reads, driving the matrix
  pins through the scan the library decides, and the USB HID device.
- `tests/` exercises the library on concrete values.
