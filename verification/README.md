# NetixFS

The decision core of NetixFS, a service that exposes POSIX filesystem operations over HTTP, and the
server around it.

`src/` is the library. Its behaviour is stated in contracts and proved with Verus:

- `parameters`, `naming`, `parameter`, `setting`: the configuration knobs, their names, and how the
  value of one is found on the command line, in the environment, in the configuration file or in its
  default;
- `arguments`, `file`: what the command line parser and the TOML parser hand over;
- `config`: all sections of the configuration and the constraints between them;
- `value`, `error`: values that remember where they came from and what is shown of them, and what
  can be wrong;
- `mode`, `root`, `choices`, `scalars`, `duration`, `path`, `text`: the types of the settings;
- `service`, `user`, `ready`, `status`: how requests are answered.

`app/` is the server: it runs the command line parser, reads the configuration file, asks the
filesystem and speaks HTTP. `tests/` runs the library.
