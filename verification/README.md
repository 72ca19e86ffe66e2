# mozjpeg_verus

JPEG compression configuration and writing logic for MozJPEG, with its
behaviour stated in `requires`/`ensures` contracts and proved by Verus.

The setters of `Compress` only record what is asked. When compression
starts, the recorded configuration is turned into an ordered list of steps
for libjpeg, so that `jpeg_set_defaults` (re-run by
`set_scan_optimization_mode` and `set_fastest_defaults`) never undoes a
setting and the order of the setter calls does not matter. Once started,
the library decides which rows, planes and marker payloads are handed to
libjpeg.

## Layout

- `src/compress.rs`: the pending configuration, the plan of steps, the
  checks made before compression starts, row batches for scanlines, raw
  plane rows and ICC profile markers.
- `src/ordering.rs`: laws of the lazy configuration (order independence,
  re-application takes no step, no setting is lost to the defaults).
- `src/typed/`: the type-safe configuration (`JpegConfig`, presets, chroma
  subsampling, raw MCU validation) and the encoders built from it.
- `src/validation.rs`: tracking of configuration calls, order warnings and
  comparison with what libjpeg holds.
- `src/binary32.rs`: qualities are carried as IEEE-754 binary32 bit
  patterns; range check, rounding and equality on them.
- `src/text.rs`, `src/messages.rs`: decimal and list formatting, and the
  messages of the errors.
- `src/rowbatch.rs`: the `arrayvec::ArrayVec` batches of row offsets.
- `app/`: the calls into libjpeg (`mozjpeg-sys`), writers, `f32` qualities,
  `imgref` images and `Display` for the error types.
