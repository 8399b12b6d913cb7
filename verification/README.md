# clash_service_ipc

Decision logic of a privileged background service that runs a proxy core for a desktop client. The
client talks to the service over a local HTTP socket.

`src/` is a Verus library. Each operation of the service is a function from what has just happened
to what to do next, with a contract that says exactly which step follows:

- `desired`: the stored intent, its updates, and its restoration after a restart
- `supervisor`: restarts of the listener, with back-off and a restart budget
- `router`, `reply`: requests, from authentication to the answer
- `server`, `ipc_dir`: starting and stopping the listener, and the directory of its socket
- `driver`: a small client that exercises a running service
- `causes`, `clock`, `paths`, `text`, `config`: what these rest on

The modules whose names end in `_laws` state and prove what holds of whole runs.

`app/` performs the steps: files, sockets, system calls and JSON.
