# muxw

A Wayland compositor configured in Lua, built around a library whose logic is
proved with Verus.

- `src/` is the verified library: epoll flag sets and `epoll_ctl` requests,
  event-loop routing, identifier allocation, the registry of Lua callbacks and
  its event tags, keyboard settings, input-device bookkeeping, the search for
  the configuration file, and the command line's decisions.
- `app/` is the program around it: system calls, threads, Lua, Wayland,
  libinput and clap. It hands the library plain values and acts on what comes
  back.
- `tests/` runs the library on concrete values.
