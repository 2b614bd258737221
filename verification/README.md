# photo_frame

The verified core of a Home Assistant managed photo frame.

- `src/` is the library, verified with Verus: the control protocol and its
  validation, the application and provisioning state machines, the
  control-plane connection loop and its backoff, the decoded-photo queue, the
  panel buffers and their rotation, fitting a photo to the panel, the local
  slideshow (which files count, their alphabetical order, pausing when every
  file fails), the SD-card cache's naming and numbering, the setup checkpoint
  record, the captive portal (DNS answers, routing, form decoding, HTML
  escaping) and the Wi-Fi retry policies.
- `tests/` exercises the library on concrete values.
- `app/` runs the frame on a host: threads, sockets, the WebSocket client,
  HTTP downloads, file access and the floating-point choice of how to fit a
  photo (crop or letterbox, and the scaled size). Apart from that choice, the
  decisions it acts on come from the library.

Outside crates used by the library (`image` for decoding and resizing, `url`
for parsing the control-plane address) are called through small wrappers whose
contracts are stated next to them.
