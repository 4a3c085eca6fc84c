# alleycat

Three parts of a daemon that runs on a user's computer and lets a phone drive the
coding agents there, written in Verus:

- running a command for a client: what is refused, what is launched, how long it
  may run, how it is ended on request, and how much of its output comes back
  (`command_exec`, `registry`, `supervisor`, `capture`, `exec_session`);
- indexing the threads that amp keeps as JSON files (`threads_dir`, `os_path`,
  `amp_scan`, `amp_index`);
- probing an agent the way a phone would: whom to dial, what to send, how long to
  wait and what to show (`probe_args`, `token`, `probe_wire`, `probe_session`,
  `probe_error`).

`text` and `json` hold what the others share.

## Layout

`src/` is the library. It does no input or output: it is handed what happened as
plain values and answers with what is to be done. Every function in it is proved
against its contract, except the few that call another crate, or a part of the
standard library that Verus knows nothing of; the doc comment of each of those
names what it calls and what is believed of it.

`app/` performs what the library decides, with tokio and iroh: it launches and
kills processes, reads directories and dials nodes.

`tests/` runs the library on concrete values.
