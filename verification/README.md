# frork

A Fennel-based configuration management tool: Fennel scripts declare
assertions (`(ok :directory "~/src")`), and `frork status` / `frork satisfy`
check or bring about each one.

The library in `src/` is verified with Verus. It holds what frork decides:

- `utils`: `~` and `$NAME` expansion of paths (strict and, in `lenient`, never
  failing; references are found with the `regex` crate), chomping, the
  platform name, binary checks;
- `bindings`: name bindings where the latest wins (the environment, the
  registry);
- `status`, `error`: statuses, conflicts, and frork's errors, including how a
  status function's reply and a Lua error are read;
- `protocol`, `assertions`: each assertion type as an exchange with its host —
  given the answers so far, the next request (run a command, look at a path,
  call a Lua function) or the result;
- `registry`: type names to built-in or registered types;
- `report`: the printed lines, the upgrade prompt, and the order of work in
  `satisfy`;
- `runtime`: the arguments of `ok` and `sh`, script search paths.

`app/` is the command line: argument parsing, the embedded Lua runtime with
Fennel, and the host that performs each request on the machine. It reads the
Fennel compiler from `$FRORK_FENNEL`, or `fennel-1.6.0.lua` in the working
directory. Invoked under the name `frork-lenient`, it runs the lenient
flavour.
