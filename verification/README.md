# taino_dnd

The framework-free core of an accessible, pointer-events drag-and-drop
library, verified with Verus, and the Leptos and Dioxus bindings around it.

- `src/` — the verified library: draggable / droppable identifiers, the drag
  state machine (`state`), its error (`error`), multi-drag grouping (`group`),
  live drop-preview planning (`displacement`), keyboard and pointer sensor
  decisions (`sensor`), scroll-container detection (`scroll`) and the
  screen-reader announcements (`announce`). Positions and rectangles are
  opaque type parameters: every decision is on ids, indices, keys and states.
- `app/` — CSS-pixel geometry, modifiers, auto-scroll math and collision
  detection (floating point), the `Display`able error, and the Leptos
  (`leptos_dnd`) and Dioxus (`dioxus_dnd`) hooks and components that drive
  the core from DOM events.
- `tests/` — the library's tests.
