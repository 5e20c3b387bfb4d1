# dlms_interface

COSEM interface classes of the DLMS/COSEM smart-metering standard (clock,
activity calendar, associations, registers, image transfer, port setups and
more), written in Verus.

Every interface class is a plain value with a `View` that states its
attributes as mathematical values. `get_attribute`, `set_attribute` and
`invoke_method` (trait `CosemObject`) each state exactly which `DataObject`
they return or which state they leave behind, and when they fail.

Layout:

- `src/` — the verified library, one module per interface class, plus the
  shared pieces: `obis`, `data_object`, `datetime`, `scaler_unit`, `ber`
  (the definite-length BER reader and writer used by the object
  descriptors), `lists` (facts about filtered sequences and first matches),
  `text` and `error`.
- Laws that relate several operations are public proof functions named
  `lemma_*` in the module they are about: code round trips, encodings that
  read back, table writes that read back, lookups after inserts,
  uniqueness of object lists, transfer state machines.
- `tests/` — tests on concrete values, one file per module.
- `app/` — the two floating-point ratios (buffer fill ratio, scaled
  register value), which stay outside the verified library.
