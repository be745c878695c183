# combat_log

A verified library that turns the lines of a World of Warcraft (vanilla)
combat log into live-data messages, together with the message model, the byte
mapping of raw event payloads and the assembly of spell tooltips.

The functions in `src/` carry contracts that Verus proves. The regular
expressions that recognise the log lines are run by the `regex` crate; the
library states what it does with their capture groups, and
`src/regex_bridge.rs` holds the two trusted calls into that crate.

Layout:

- `src/hit_type.rs`, `src/school.rs`, `src/dto.rs`, `src/message_type.rs`:
  the message model and its bit masks.
- `src/payload.rs`: mapping of raw payload bytes to units and events.
- `src/data.rs`, `src/tooltip.rs`: lookups in the static data store and
  spell tooltips.
- `src/numbers.rs`, `src/text.rs`, `src/text_split.rs`, `src/trailer.rs`,
  `src/units.rs`: small parsers for numbers, text, damage trailers and unit
  names.
- `src/state.rs`, `src/patterns.rs`, `src/line_spec.rs`, `src/handlers.rs`,
  `src/line_handlers.rs`, `src/combatant.rs`, `src/parser.rs`,
  `src/guarded.rs`: the parser, its state and what each kind of line does.
- `src/pets.rs`, `src/post.rs`: the post processing of a whole log.
- `src/character.rs`, `src/getters.rs`: what the parser reports afterwards.
- `src/laws.rs`, `src/combatant_law.rs`: properties of the parser over every
  line, and what a complete combatant line does.
- `app/`: serialisable copies of the message model (serde, schemars).
- `tests/`: tests of the library on concrete logs.
