# os_rot

A verified library for the helios `os_rot` driver, which measures and attests
to the boot images through the AMD RoT.

- `src/ffi.rs`: the driver ABI (ioctl numbers, measurement, log, certificate
  and attestation buffers).
- `src/flexible.rs`: layout and allocation of buffers made of a `u32` count
  and a trailing array, with the C layout of the log and certificate buffers
  proved.
- `src/reply.rs`: reading the entries the driver reported.
- `src/protocol.rs`: the two-round reads of the log and the chain, and the
  attestation, as decisions on each driver reply.
- `app/`: opening the device, laying buffers out in kernel memory, and the
  ioctls themselves.
