# gpui_component

Verified core of two pieces of a gpui component library:

- `src/scrollable_mask.rs`: what a one-axis scroll mask decides for each
  mouse-wheel event (capture phase only, inert while occluded, the dominant
  axis of a two-axis trackpad swipe only, consumed exactly when the scroll
  offset changed), with the laws it keeps.
- `src/pixels.rs`: lengths in pixels held as the bit patterns of their
  binary32 values, with IEEE-754 zero test, magnitude order and equality.
- `src/json.rs`, `src/schema.rs`: a JSON tree and the JSON schemas of an
  optional colour, a list of box shadows and an optional list of box
  shadows, each stated exactly.

`app/` holds the gpui element, the horizontal scroll area and the schemars
entry points, which read events and schemas from the toolkit and perform
what the library decides.
