use taino_dnd::state::DraggableId;

#[test]
fn crate_compiles() {
    // Native compilation smoke test.
    let _ = DraggableId(0);
}
