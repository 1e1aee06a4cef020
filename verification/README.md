# stasis

A preloadable library (`LD_PRELOAD`) that hooks `write`, `pthread_create`,
`sigaction` and `signal`, records the id of every thread it sees start, and
freezes all threads of the process when it receives `SIGUSR2`
(`kill -12 <pid>`).

- `src/` is the verified library (Verus): the thread-id registry and the
  freeze broadcast targets (`registry`), the start slots (`slots`), what each
  hook decides (`hooks`), the start-up state machine (`init`), the broadcast
  guard (`freeze`), the libc symbols it looks up (`libc_fns`), the system
  call numbers (`sysno`) and the log lines (`messages`).
- `app/` is the unverified shell: raw system calls in inline assembly,
  `dlsym`, the exported C entry points, the `.init_array` constructor and the
  process-wide state. It performs what the library decides.
- `tests/` runs the library on concrete values.
