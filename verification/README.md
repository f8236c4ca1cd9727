# mooncake_transfer_engine

A verified client core for the Mooncake Transfer Engine's C interface.

- `src/` (verified with Verus): the values that cross the interface
  (`types`), the encoding of strings as NUL-terminated UTF-8 and the reading
  of C strings the engine writes back (`cstr`), the errors and their texts
  (`error`), and, for each operation of the engine, the arguments of its C
  call and the meaning of the call's answer (`engine`).
- `app/`: the C declarations and the `TransferEngine` that owns the engine
  handle, makes the C calls between the verified steps, and reports errors
  through `anyhow`.
- `tests/`: tests of the verified core.
