# lampshade

Verified planning for composable GPU primitives: histograms, reductions,
argmin selection, predicate masks, prefix scans, stream compaction,
run-length encoding and radix sorts (fixed-size, GPU-counted and
separate key/value buffers).

`src/` is the library, verified with Verus. It works on plain descriptions
of GPU buffers (`GpuBuffer`, `BufferRange`), device limits and adapter
capabilities, and decides everything the GPU work depends on: which inputs
are rejected and with which error, how large every workspace must be, how
many levels or passes run, which buffer each pass reads and writes, and the
parameter words each kernel receives.

`app/` is the thin host layer around it: opening a device, converting the
runtime's adapter, limit and buffer descriptions into the library's types,
uploads and readback, assembling timing profiles and displaying errors.

`tests/` exercises the library on concrete values.
