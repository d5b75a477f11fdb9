# ansync

The logic that joins an Android phone to a Linux desktop: pairing, discovery,
encryption of sessions, file transfer, a mounted file system, clipboard, input,
camera, sound and the mirror window. It is written in Verus: the functions of
`src/` carry contracts that the verifier has proved.

## Layout

- `src/` is the library. Each module holds the types of one concern, what its
  functions compute, and the laws that hold of them as `pub proof fn`.
  - identity and trust: `identity`, `noise`, `pair_pin`, `pair_session`,
    `pairing`, `known_peers`, `core_types`
  - what goes over the wire: `wire`, `kotlin`, `discovery`, `hex_text`,
    `bytes_le`, `digest`, `text`
  - files: `files`, `progress`, `fs_path`, `fs_cache`, `fs_client`, `mount`
  - sound and picture: `audio`, `pcm`, `opus`, `video`, `camera`, `mirror`
  - input and clipboard: `input`, `uinput`, `bt_hid`, `clipboard`, `shares`
  - the daemon, the companion and the command line: `daemon`, `peer`, `routes`,
    `registry`, `conn_state`, `companion`, `bus`, `ctl`
- `app/` is the command line and the parts that touch the machine: files, the
  session bus, the kernel's devices, the compositor, the network and FUSE. The
  daemon (`shell`, `inbound`, `jobs`, `bus_service`, `pairing_service`) and the
  companion (`companion_shell`) run there, over links, stores and codecs that they
  are given (`ports`).
- `tests/` runs the library with the crates that it calls.

## What is trusted

Calls into other crates stand in small functions whose contracts are believed,
not proved. Each says in its comment what it claims: SHA-256 (`digest`), Ed25519
keys (`identity`), the Noise handshake and its sessions (`noise`), the Opus
encoder (`opus`), random numbers and names (`pair_pin`, `identity`, `pairing`),
hexadecimal decoding (`pairing`), and four functions of `std` on text (`text`).
