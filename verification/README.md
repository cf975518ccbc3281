# terminal core

Verified core of a VT terminal's portable logic:

- `src/vt.rs`, `src/input_*.rs`, `src/output_*.rs`, `src/parameter_view.rs`,
  `src/parser_ffi.rs`, `src/state_machine_ffi.rs`, `src/pty_signal.rs`:
  input classification, virtual-key tables, classification plans for output
  control sequences, and the decoding of the parser's C ABI arguments.
- `src/attribute_color_policy.rs`, `src/underline_color_policy.rs`,
  `src/render_settings_policy.rs`, `src/render_settings.rs`,
  `src/render_attribute_colors.rs`: renderer color and mode policies.
- `src/text.rs`, `src/json.rs`, `src/keyed.rs`: character-level text
  scanning, settings JSON fragment navigation, string-keyed maps.
- `src/theme.rs`, `src/new_tab_menu.rs`, `src/application_state.rs`,
  `src/color_scheme.rs`, `src/profile_identity.rs`, `src/settings_ffi.rs`:
  settings-model semantics.

`app/` holds the C ABI entry points (pointer checks, panic containment and
`#[repr(C)]` layouts) around the library.

## Not part of this library

- The stateful VT parser (state machine, output and input engines) and its
  callback-driven C entry points. The sequence identifiers, parameter lists
  and per-sequence recognition rules here are the parts that can be stated
  without that engine; REP, for instance, takes "nothing printed yet" as a
  last printed code unit of 0.
- The legacy-shell command-line fix-up decision and its C entry points,
  which rest on the profile model.
- The settings-document layer (actions, profiles, fragments, layered
  profile collections, color-scheme documents, serialization). It works on
  a parsed JSON document model and a profile model whose behaviour (how
  documents are parsed, comments, duplicate and ordered keys, how number
  text is kept, how profiles validate) is defined outside this crate. The
  fragment navigation in `src/json.rs` is a separate, deliberately small
  substrate.
