# nono_cli

The decision logic of the `nono` sandbox command line, written in Verus and
proved against its contracts.

- `src/` is the verified library: environment sanitization, the Windows
  confinement-layer registry and start-up attestation, Windows network
  enforcement (WFP service and driver lifecycle, backend selection, runtime
  requests, fail-closed installation), health probes, the coding-agent
  PreToolUse hook, Authenticode status, macOS resource limits, session
  hooks on Windows, DACL grant guards, and start-up decisions.
  Processes, files, the registry and security descriptors are reached
  through runners and queries that the caller hands in; the library decides
  what their answers mean. Conversations with the Windows service manager
  are step functions (`install_step`, `start_step`, `remove_step`,
  `wfp_install_step`, `uninstall_step`): from the answers so far to the
  next command. The PreToolUse hook reads its event from JSON text and
  writes its answer as JSON text (`pre_tool_use_response_text`), with
  serde_json doing the parsing and the string escaping.
- `app/` is the thin command-line program around it: argument parsing,
  standard input and output, and the `sc`, `reg` and `certutil` calls.
  `nono agent-hook --agent-state-dir <NAME>` names the agent's state
  directory, which the Windows tool jail refuses to run over.
- `tests/` exercises the library with the real outside crates linked.
