# nvs_storage

Raw key/value storage on an ESP-IDF NVS namespace.

- `src/` is verified with Verus.
  - `error.rs`: `NvsError`, a non-zero NVS status code, and the status codes the
    storage logic tells apart.
  - `codec.rs`: values shorter than eight bytes are packed into one `u64` entry
    (length in the low byte, bytes little-endian above it) and read back; the
    laws about packing and reading back are proved here.
  - `storage.rs`: the storage operations (`contains`, `remove`, `len`,
    `get_raw`, `put_raw`) as steps: each step takes what NVS answered and says
    what to do next or what the operation returns.
- `app/` performs the NVS calls through `esp-idf-sys` and implements
  `embedded-svc`'s `StorageBase` and `RawStorage` on top of the steps.
- `tests/` runs the library on concrete values.
