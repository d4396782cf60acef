# hyperlight (verified core)

A Verus library holding the logic of a slice of the Hyperlight host:

- `src/log_level.rs`, `src/guest_log_data.rs`: guest log records, the checks
  applied to the fields read out of an encoded record, and the encoding of a
  record as a size-prefixed FlatBuffer, with what the encoded bytes read
  back as.
- `src/fb_builder.rs`: the `flatbuffers::FlatBufferBuilder` calls that
  encoding makes, with the contracts they are trusted to meet.
- `src/host_function.rs`: host function signatures, the definitions they are
  registered under, the check of a call's argument count, and the error
  texts.
- `src/text.rs`: decimal numerals for error texts.
- `src/vcpu_registers.rs`, `src/memory_region.rs`: the register lists and
  values, and the guest-physical mappings, handed to the Windows Hypervisor
  Platform.

`app/` holds what cannot be verified: reading a FlatBuffers table, the
closures and locks that wrap host functions, and the Windows API calls.
