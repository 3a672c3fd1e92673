# compio

Asynchronous input and output over the event queues of the operating system.

`src/` is a library of the rules, verified with Verus. It makes no system call of its own; only the
name of a pipe and the size of a thread pool ask the system for something, for random numbers and for
the number of processors, through the crates `uuid` and `num_cpus`:

- `queue`: readiness of registered objects, subscriptions of tasks, user events, and the turns of the
  event queues over `epoll`, `kqueue` and I/O completion ports
- `local`: when an executor polls, waits and is awakened
- `socket`: attempts at transfers over sockets that do not block, and setting sockets up
- `ipc`: messages and channels over mach ports, pairs of named pipes
- `net`: making and taking in connections
- `evqueue`: setting up an `io_uring` and polling its operations
- `buffer`: buffers that outlive the operation that uses them
- `waker`: the waker of a task that waits for an operation
- `threadpool`, `endian`, `text`, `error`, `poll`: the rest

Where a rule has to wait for the operating system it is a step machine: it says which call comes next,
and takes in the answer. A task is known by the number of its waker. What several threads share is
changed one undivided step at a time.

`app/` makes the system calls and holds the futures. `tests/` runs the library.
