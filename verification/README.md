# rs1541fs

Commodore disk drives as directories: a daemon mounts a drive on the bus as a file system, a
client tells it what to mount, and a shell tries the drives out.

The library in `src/` is written in [Verus](https://github.com/verus-lang/verus). Each function
states in its contract what it returns or changes, and Verus proves it. It does no input or
output. What talks to the bus, the kernel, the socket or the user is a conversation: the library
says what is to be done next, is told what came of it, and says what follows.

- `text`, `number`, `pattern`, `time`: texts, numbers, regular expressions, spans and points of
  time
- `cbmtype`, `error`, `errno`, `ipc`: drives, their status messages, errors, requests and responses
- `opencbm`, `start`, `bus_start`, `session`, `dir_session`: calls on the bus, opening the driver
  and the bus, commands, files and directories
- `cbm`, `dir`, `fuse`, `validate`, `shell`: channels, listings, handles, what a user may ask for,
  what is typed into the shell
- `server`: the daemon, its queue of operations, its mounts, and its answers to the kernel
- `client`: the client's arguments, how it finds the daemon, its requests

`app/` holds the programs around the library: `main`, the command lines, the socket, threads, the
calls into the driver and into FUSE. `tests/` runs the library.
