# webview-delegate

The delegate between a web engine and the application that embeds it, as a verified library with
a C ABI around it.

- `src/` decides which callbacks run, with which arguments, which controls are offered to the
  application, and what the engine gets back. Callbacks are ordinary `Fn` values, so the contracts
  say what they are called with and what their answers mean.
- `app/` holds the `#[repr(C)]` structs and turns raw function pointers into those `Fn` values.
- `tests/` runs the library on concrete values.

A text that spells the URL of a document is turned into its origin by the `url` crate; that call is
the one thing taken on trust.
