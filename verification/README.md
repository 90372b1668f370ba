# hypogaol

A FIDO2-first orchestrator for LUKS2 volumes ("tombs"): create, unlock,
close, enroll, revoke, resize, info, close-all and slam, with per-volume
bind-hooks and exec-hooks.

- `src/` is the verified library. `domain/` holds the workflows and the
  rules they enforce (the last-key guard, the grow-only resize, the hook
  guardrail, preflight); `ports/` holds the three backend traits the
  workflows drive, and `Ports`, the bundle the workflows reach them
  through: it keeps a ghost journal of every call, and of every stage
  reported to the progress callback, so the workflows' contracts state
  what is asked of the ports and in what order (preflight first; nothing
  written before a refusal; each stage reported before its first call;
  rollbacks unmount before they re-lock; close un-binds before it runs
  `exec-hooks close`; slam escalates SIGTERM, SIGHUP, SIGKILL, one round
  at a time, and stops once the volume is unmounted). `cli/` holds the command line's own decisions (what a typed
  size, label or confirmation means, which FIDO2 device selection the
  flags ask for) and every user-facing message; `adapters/exec/` holds the logic behind the
  command-line adapter: the LUKS2 header model and its JSON reading, token
  labelling, FIDO2 device selection, tool-output parsing and the tool
  invocations' decisions.
- `app/` is the `hypogaol` program: argument parsing (clap), the terminal,
  and the adapter that runs `cryptsetup`, `systemd-cryptenroll`,
  `fido2-token` and the filesystem tools.
- `tests/` runs the library against recording test doubles of the ports.
