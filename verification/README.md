# stund

Stund keeps SSH tunnels open in the background. A daemon is the parent of one
SSH process per tunnel; command-line clients talk to it over the Unix socket
`$HOME/.ssh/stund.sock`.

- `src/` is the library: what stund decides and what it says, with contracts that
  Verus proves. Each conversation is a state machine that is told what happened
  and answers what to do next. Of the system, the library asks only for the home
  directory and for random bytes.
  - `protocol`: the messages, and the paths of the socket and the log.
  - `marker`: the text by which a successful login is recognized.
  - `daemon`: the tunnels, the start-up, the sessions with clients, the tasks that
    watch over SSH processes, and the log.
  - `client`: connecting to the daemon, the commands, and the login dialogue.
  - `console`: the variant in which the user types a period on a line of its own
    when the login has succeeded.
  - `cli`: what each command line asks for, and what it prints.
  - `codecs`, `stdio`, `pty`, `terminal`, `text`: chunks of bytes, the standard
    streams, pseudo-terminals, the terminal's echo, and how messages are written.
- `app/` is the program around it: it performs the I/O.
- `tests/` runs the library on concrete values.

Proof functions whose names begin with `law_` state what holds of the library as
a whole, such as that a relay keeps the order and that nothing is left behind
when a login succeeds, or that the reply which ends the login dialogue well comes
only after SSH has printed the key.
