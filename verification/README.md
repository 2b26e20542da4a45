# RustDesk SOS client

A remote assistance client for Windows in a single program: an icon in the
task bar, and peers that come to help. `src/` is its verified library, `app/`
the program around it.

## The library

The rules of the client stand in `src/`, with contracts that Verus proves. The
library makes no system calls and exchanges no messages: its state machines
take events and say what to do. `app/` does it and reports what happened; that
it reports faithfully is not proved, and neither are the parsing of protocol
messages and the addresses of hosts, which come from the RustDesk crates.

| module | what it decides |
|--------|-----------------|
| `sos_config` | settings from the command line and the registry, passwords, identifier |
| `sos_login` | the password check, and the delays that failed logins earn |
| `sos_connection` | a connection from the key exchange to its end, and what a peer is told |
| `sos_service` | what the messages of a peer ask for, and the loops that serve it |
| `sos_file_transfer` | file requests, jobs and answers |
| `sos_rendezvous` | registration, and the ways in which peers come |
| `sos_pipe`, `sos_input` | input events, their way through a pipe, and their dispatch |
| `sos_shmem`, `sos_capture` | frames of the secure desktop in shared memory |
| `sos_system`, `sos_bootstrap`, `sos_tray` | the service process, the main loop, logging, the icon |
| `text`, `wire`, `hex_text` | numerals, UTF-16, little-endian and hexadecimal forms |
| `random`, `digest`, `keys` | what comes from `rand`, `sha2` and `sodiumoxide` |

Clocks are numbers of nanoseconds that do not go back.

What is not proved but believed is what the functions of `rand`, `sha2`,
`sodiumoxide`, `hex` and of the standard library do; each of them has one
declaration that says so.

## The program

`app/` holds the command line, the registry, named pipes, shared memory, the
network and the windows. Its modules are for Windows and need the RustDesk
crates (`hbb_common`, `librustdesk`, `scrap`, `clipboard`), which `Cargo.toml`
does not bring.
