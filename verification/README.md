# gobject

The logic behind a set of GObject class macros, a `clone!`-to-attribute rewriting tool,
and serde adapters for GLib, GIO, GDK, GSK, GTK, Graphene and Cairo types, written in
Verus: each function states what it computes in its contract, and Verus proves it.

## Layout

- `src/` — the verified library.
  - `type_definition`, `definitions`, `members` — which items of a module make up a
    class or interface, its visibilities, the names of its generated items, and its
    properties, signals and virtual methods.
  - `property`, `signal`, `methods`, `actions`, `action_plans`, `widget_actions`,
    `templates`, `initable`, `gst` — reading and checking properties, signals, public and
    virtual methods, actions (and what the code generated for them does), template
    children and callbacks, `Initable`, and element pad templates.
  - `closures` — captures of closures and async blocks (`#[strong]`, `#[weak]`,
    `#[watch]`, default upgrade-failure actions, `#[rest]`).
  - `variant_derive`, `serde_derive` — which properties take part in variant and serde
    conversions.
  - `convert`, `closure_syntax`, `blockify` — the `clone!` rewriting tool: finding the
    macro calls of a file, the argument syntax of `clone!` and `closure!`, the closure
    model, and the text rewriting.
  - `serde_*`, `serde_variant`, `value` — the serde adapters, over a model of serde's
    data (`value::Value`), with round-trip laws.
  - `util`, `validations`, `text`, `case`, `syntax` — diagnostics, option checks, text
    helpers, and the calls into `heck` and `syn`.
- `app/` — the `clone-blockify` command: argument handling, file and standard I/O, and
  running `rustfmt` on what the library rewrote.
- `tests/` — tests of the library on concrete values.
