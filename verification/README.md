# jpegli

Safe, encode-first front end for the Google JPEGli encoder, reached through a
narrow C shim. The library in `src/` is verified with Verus; `app/` makes the
foreign call.

- `src/rules.rs`: the validity rules for encoder configurations and image
  views, and the binary32 reading of the `distance` knob (held as its bit
  pattern, as `f32::to_bits` gives it).
- `src/sys.rs`, `src/sys/raw.rs`: the shim layer. `prepare_encode` checks a
  request and lays it out for the shim's ABI; `finish_encode` reads the
  shim's status and output.
- `src/api.rs`: `Encoder`, `EncoderConfig`, `ImageView`, `PixelFormat`,
  `ChromaSubsampling`, `Error`. An `Encoder` only ever holds an accepted
  configuration.
- `src/laws.rs`: properties across functions (the two layers check by the
  same rules; accepted images keep every row inside the buffer; shim
  messages and bytes reach the caller unchanged).
- `app/`: the shim's C declarations, `sys::encode` and the `Encode` trait
  that gives `Encoder` its `encode` method.
