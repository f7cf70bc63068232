use msoxide::App;
use msoxide::CurrentScreen;
use msoxide::CurrentlyEditing;

fn fresh(subs: Vec<&str>, cols: Vec<&str>) -> App {
    App::new(
        "store.ms".to_string(),
        subs.into_iter().map(|s| s.to_string()).collect(),
        cols.into_iter().map(|s| s.to_string()).collect(),
    )
}

#[test]
fn new_initial_state() {
    let app = fresh(vec!["ANTENNA", "FIELD"], vec!["TIME", "DATA"]);
    assert!(matches!(app.current_screen, CurrentScreen::Main));
    assert!(matches!(app.currently_editing, CurrentlyEditing::Table));
    assert_eq!(app.ms_name, "store.ms");
    assert_eq!(app.tables, vec!["MAIN", "ANTENNA", "FIELD"]);
    assert_eq!(app.columns, vec!["TIME", "DATA"]);
    assert_eq!(app.current_table, 0);
    assert_eq!(app.current_column, 0);
    assert_eq!(app.text_buffer, "");
    assert_eq!(app.text_scroll, 0);
    assert_eq!(app.tab_scroll, 0);
    assert_eq!(app.line_height, 50);
}

#[test]
fn new_trims_trailing_slashes() {
    let app = fresh(vec![], vec![]);
    assert_eq!(app.ms_name, "store.ms");
    let app = App::new("store.ms///".to_string(), vec![], vec![]);
    assert_eq!(app.ms_name, "store.ms");
    let app = App::new("store.ms/".to_string(), vec![], vec![]);
    assert_eq!(app.ms_name, "store.ms");
}

#[test]
fn toggle_editing_cycles_forward() {
    let mut app = fresh(vec![], vec![]);
    app.toggle_editing(true);
    assert!(matches!(app.currently_editing, CurrentlyEditing::Column));
    app.toggle_editing(true);
    assert!(matches!(app.currently_editing, CurrentlyEditing::Information));
    app.toggle_editing(true);
    assert!(matches!(app.currently_editing, CurrentlyEditing::Table));
}

#[test]
fn toggle_editing_cycles_backward() {
    let mut app = fresh(vec![], vec![]);
    app.toggle_editing(false);
    assert!(matches!(app.currently_editing, CurrentlyEditing::Information));
    app.toggle_editing(false);
    assert!(matches!(app.currently_editing, CurrentlyEditing::Column));
    app.toggle_editing(false);
    assert!(matches!(app.currently_editing, CurrentlyEditing::Table));
}

#[test]
fn increase_wraps_table_index() {
    let mut app = fresh(vec!["ANTENNA"], vec![]);
    assert_eq!(app.tables.len(), 2);
    app.increase_soltab(1);
    assert_eq!(app.current_table, 1);
    app.increase_soltab(1);
    assert_eq!(app.current_table, 0);
}

#[test]
fn increase_wraps_column_index() {
    let mut app = fresh(vec![], vec!["A", "B", "C"]);
    app.toggle_editing(true);
    app.increase_soltab(1);
    assert_eq!(app.current_column, 1);
    app.increase_soltab(1);
    assert_eq!(app.current_column, 2);
    app.increase_soltab(1);
    assert_eq!(app.current_column, 0);
}

#[test]
fn decrease_wraps_to_last() {
    let mut app = fresh(vec!["ANTENNA", "FIELD"], vec!["A", "B"]);
    app.decrease_soltab(1);
    assert_eq!(app.current_table, 2);
    app.decrease_soltab(1);
    assert_eq!(app.current_table, 1);
    app.toggle_editing(true);
    app.decrease_soltab(1);
    assert_eq!(app.current_column, 1);
}

#[test]
fn scroll_grows_on_value_focus() {
    let mut app = fresh(vec![], vec![]);
    app.toggle_editing(false);
    assert!(matches!(app.currently_editing, CurrentlyEditing::Information));
    app.increase_soltab(10);
    assert_eq!(app.tab_scroll, 10);
    app.increase_soltab(1);
    assert_eq!(app.tab_scroll, 11);
}

#[test]
fn scroll_never_goes_below_zero() {
    let mut app = fresh(vec![], vec![]);
    app.toggle_editing(false);
    app.increase_soltab(5);
    assert_eq!(app.tab_scroll, 5);
    app.decrease_soltab(3);
    assert_eq!(app.tab_scroll, 2);
    app.decrease_soltab(1000);
    assert_eq!(app.tab_scroll, 0);
    app.decrease_soltab(1);
    assert_eq!(app.tab_scroll, 0);
}

#[test]
fn update_soltabs_changes_nothing() {
    let mut app = fresh(vec!["X"], vec!["Y"]);
    app.increase_soltab(1);
    let table_before = app.current_table;
    app.update_soltabs();
    assert_eq!(app.current_table, table_before);
    assert_eq!(app.columns, vec!["Y"]);
}
