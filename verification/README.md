# eldenring

Verified models of a slice of Elden Ring's native data structures, written in
Verus.

- `src/menu_man.rs`: the menu manager (`CSMenuManImp`), popup menu, menu data
  and their bitfields; checked views of the popup text-source byte; the
  indexed-state table of the menu manager.
- `src/system_step.rs`: the boot step tree (`CSSystemStep` down to
  `TitleStep`), child-step accessors, stepper state indices and the title
  flow mode.
- `src/msg_repository.rs`, `src/debug_menu.rs`: vtable-prefix handles.
- `src/display_text.rs`: play-time and byte-preview text used by the debug
  panels, proved against a character-level specification.
- `src/bits.rs`, `src/ptr.rs`: bit read/write specifications and the
  non-null native address handle.
- `app/`: Dear ImGui debug panels over the library's types.
