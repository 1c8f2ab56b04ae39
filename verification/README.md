# sim7000_at

AT-command requests and response-line parsers for SIMCom SIM7000 modems,
verified with Verus.

- `src/text.rs`, `src/out.rs`, `src/numeral.rs`: the character-sequence
  operations that parsers and encoders are built from, each tied to a spec
  function over `Seq<char>`.
- `src/time.rs`: the `embassy_time` clock types and the conversions used.
- `src/at_command/`: one module per command. Every request states the exact
  text it encodes to (`AtRequest::spec_encode`), and every response parser the
  exact value or error it reads from a line (`AtParseLine::spec_from_line`).
  `response.rs` reads a line as the first response type that claims it.
- `tests/`: executable tests of the library.
- `app/`: what stays outside the verified library: writing requests into a
  `core::fmt::Write` buffer, a `bitflags` copy of the NMEA flags, and the
  real-number fields as `f32`.
