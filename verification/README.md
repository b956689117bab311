# up-transport-dds

Verified core of a uProtocol transport over DDS, in Rust with Verus.

`src/` is the library. It decides everything about a transport and performs no
I/O: configuration, the outer samples of the three carriage families, listener
registrations, health, completion of reliable sends, and the order in which a
transport is brought up and torn down. Functions carry their contracts; the
conversions to and from the generated `up-rust` types copy fields and have none.
The laws that relate several functions stand beside them as public proof
functions named `law_*`.

- `classic`, `owned`, `zero_copy`: the carriage families.
- `transport`, `setup`: the state of one transport and its lifecycle.
- `registry`, `delivery`, `dispatch`, `health`, `config`: its parts.
- `uri`, `attributes`, `builder`: addresses and messages, with the calls into
  `up-rust` and `protobuf` behind declared contracts.
- `buffer`, `payload`, `family`, `status`, `text`: what these share.
- `roles`: what the role processes send, listen to and report.

`app/` is ordinary Rust around the library: DDS entities, worker threads, clocks
and the command line of the role process. `tests/` runs the library.
