use lazypueue::app::{App, TreeSelection};

#[test]
fn test_app_state_management() {
    let app = App::new();

    // Test initial state
    assert_eq!(app.get_selection_position(&app.get_tree_items()), None);
    assert_eq!(app.selection, TreeSelection::Group("default".to_string()));
    assert_eq!(app.show_log_modal, false);
    assert!(app.state.is_none());

    println!("✓ App initializes correctly");
}
