# aquadoggo_cli

Configuration of an `aquadoggo` node: where its settings come from, how they are checked, and how
they are shown when the node starts.

The library in `src/` is written in Verus and verified:

- `sources`: the command line, and how its settings, those of the environment and those of the
  configuration file are merged on top of the defaults
- `config`: the configuration and its defaults
- `config_file`: which configuration file is read
- `allow_list`: lists of what is allowed, written as `*` or as a list of texts
- `ids`: schema ids and peer ids, and the check of a list of them
- `node`: the checked configuration that a node is started with
- `report`: what a node shows of its configuration
- `value`, `text`: the values that settings have, and helpers for text
- `outside`: the calls into other crates, with what is relied on

`app/` is the program around it: it parses arguments, reads the environment and the configuration
file, reads the merged settings into a configuration, makes the temporary folder for blobs and
prints.
