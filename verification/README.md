# obdium

OBD-II diagnostics for ELM327 adapters, with its decoding logic verified by
Verus.

- `src/` — the verified library: command building (`cmd`), the parsing of
  adapter answers (`obd`, `response`, `chars`, `text`), trouble codes and
  readiness tests (`pid::diagnostics`), value tables (`pid`), monitor tests
  (`mid`), units and unit preferences (`scalar`), replay of recorded
  sessions (`replay`), the PID list (`dicts`), and VIN decoding (`vin`:
  validation, check digit, world manufacturer identifier, model year, the
  vPIC `LIKE` patterns and the choice of schemas).
- `app/` — a command-line program around the library: the serial
  connection, the SQLite queries against the vPIC and trouble code
  databases, the JSON file of recorded requests, and the floating-point
  formulas of live values.
- `tests/` — tests of the library on concrete values.
