# zmod

Building blocks for zsh modules written in Rust, verified with Verus.

- `src/` is the verified library: the highlight records that zle is given
  (`zle`), the names and scripts handed to zsh (`zsh`, `text`, `error`), the
  descriptor numbers passed between `zle -F` and its widget (`fd`), the
  reading of a widget's descriptor (`reader`), what `#[module_impl]` gathers
  from an impl block (`module_builder`), the prompt (`prompt`) and syntax
  highlighting of the edit buffer with syntect (`highlighter`, with its syntect calls in `syntect_defaults`) and the
  decisions of the highlighting thread (`highlight_loop`).
- `app/` holds what talks to zsh and the system: zsh's C interface, argument
  arrays, parameter and widget calls, fifos, and the `zexp` module with its
  highlighting thread. The expansion of `#[module_impl]` is offered as
  functions over token streams (`app/macros.rs`), for a proc-macro crate to
  wrap as attributes; `zexp` carries its expansion written out.
- `tests/` runs the library on concrete values.
