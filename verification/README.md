# wl-container

Creates a Wayland security context (`wp_security_context_manager_v1`) for a
listening socket, so that the compositor accepts clients on it restricted to
the given sandbox engine, app id and instance id.

- `src/` is the verified library:
  - `number.rs`: file-descriptor numbers, read as `i32`'s `FromStr` reads them;
  - `text.rs`: character-level helpers on `str`;
  - `args.rs`: the command line, its messages and the usage text;
  - `launch.rs`: what the program sets up from accepted settings;
  - `registry.rs`: spotting the manager among the registry's globals;
  - `session.rs`: the conversation with the compositor as a machine from
    reply to next request;
  - `script.rs`: the whole conversation for given outcomes, and its laws.
- `app/` is the program: it reads the command line, opens descriptors and
  performs the library's requests with libwayland-client.
- `tests/` exercises the library on concrete inputs.
