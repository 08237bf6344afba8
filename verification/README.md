# idlescreen

Verified core of the IdleScreen screensaver daemon and its out-of-process
saver runtime, written in Verus.

`src/` is the verified library:

- `cell` — terminal cells, their shared-memory form and the shared-memory size.
- `protocol` — the daemon/saver control messages, their byte encoding, and
  the proof that decoding an encoding gives the message back.
- `gpu_cells` — per-cell shader data for a viewport of the grid, and the
  copy of a GPU read-back image into a tightly packed buffer.
- `render_plan` — render-target and atlas sizes, when GPU resources are
  recreated, the aligned row pitch, and the shader uniforms.
- `controller` — daemon settings and the validation and persistence of commands.
- `presentation` — the per-tick policy that starts and stops presentations.
- `inhibit_watch` — bookkeeping of D-Bus screensaver inhibitors.
- `bounds`, `auth`, `completion`, `pacing`, `text` — smaller pieces.

`app/` holds the process-facing code (shared memory via libc, D-Bus via
zbus, GPU calls via wgpu, the daemon loop) that calls into the library.
