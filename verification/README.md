# chibiwasm

A small WebAssembly (core 1) runtime whose library is verified with Verus.

## Layout

- `src/binary`: the decoder of the binary format. Each decoder is proved
  exact against a grammar written as spec functions.
- `src/execution`: the store, module instances and the interpreter.
  `Runtime::step` and `Runtime::execute` follow `spec_step` and `spec_run`;
  floating-point instructions and calls of imported functions are handed to
  the host as `Step::Float` and `Step::Call`.
- `src/wasi`: the file table, files, and what the WASI preview 1 and
  `wasi_ephemeral_nn` functions read from and write to a module's memory.
- `src/endian.rs`: little-endian numbers in byte sequences.
- `app`: the command-line runner: reads the module, drives the interpreter,
  computes floating-point operations, and implements the WASI functions on
  the standard streams and the current directory.

## Usage

```sh
$ wat2wasm add.wat
$ chibiwasm add.wasm add 1 2
3
```
