# colmena

The deployment logic for NixOS and nix-darwin hosts, verified with
[Verus](https://github.com/verus-lang/verus): which commands to run for a
deployment, and what to do about what comes back.

## The library

`src/` only computes. It neither spawns processes nor reads clocks.

- `flags`, `command`: Nix invocations, with the flags each executable accepts
- `expression`: Nix expressions and string literals
- `shell`: arguments that pass through a remote shell
- `ssh`: the commands for a host at the other end of an SSH connection
- `system`, `store`, `profile`, `key_uploader`: goals and types of systems,
  store paths, system profiles, keys
- `record`, `watch`, `detached`: activation in a transient systemd unit that
  survives a dropped connection
- `reboot`: rebooting a host and waiting for it
- `error`: errors and their messages
- `list`, `number`, `path`, `text`: strings

Each function states what it returns over a model of its arguments, mostly
sequences of characters. Proof functions whose names begin with `law_` state
what holds of several functions together, for example that a remote shell
reads back the arguments it was given, or that the journal of an activation
is printed once however often the connection drops.

`detached` and `reboot` are state machines. The caller does what `action` says
and hands what came of it to `step`. Time is an argument: nanoseconds on a
clock that does not go back.

## Around the library

`app/` runs the commands with tokio, reads and writes the streams, and drives
the state machines. `tests/` runs the library on concrete values.
