use tabbed_documents::document::{Document, DocumentKind};
use tabbed_documents::session::{App, Pane, SessionError, TabKey};

fn three_documents() -> App {
    let mut app = App::new();
    app.add_new_tab("a");
    app.add_new_tab("b");
    app.add_new_tab("c");
    app
}

fn lengths_agree(app: &App) -> bool {
    app.tabs.len() == app.tab_names.len() && app.tabs.len() == app.documents.len()
}

#[test]
fn new_session_is_empty_and_english() {
    let app = App::new();
    assert!(app.tabs.is_empty() && app.tab_names.is_empty() && app.documents.is_empty());
    assert_eq!(app.selected_tab, 0);
    assert_eq!(app.previous_tab, 0);
    assert!(!app.show_home_tab_on_startup);
    assert_eq!(app.language.labels[0], "Home");
    assert_eq!(app.language.labels[9], "Kind");
}

#[test]
fn default_session_has_empty_labels() {
    let app = App::default();
    assert!(app.tabs.is_empty() && app.tab_names.is_empty() && app.documents.is_empty());
    assert_eq!((app.selected_tab, app.previous_tab), (0, 0));
    assert!(!app.show_home_tab_on_startup);
    assert_eq!(app.language.labels, [""; 10]);
}

#[test]
fn add_two_then_remove_selected_falls_back() {
    let mut app = App::new();
    app.add_new_tab("New 0");
    assert_eq!(app.tabs.len(), 1);
    assert_eq!(app.selected_tab, 0);
    app.add_new_tab("New 1");
    assert_eq!(app.tabs.len(), 2);
    assert_eq!(app.selected_tab, 1);
    assert_eq!(app.previous_tab, 0);
    app.remove_tab(1);
    assert_eq!(app.tabs.len(), 1);
    assert_eq!(app.selected_tab, 0);
    assert_eq!(app.tab_names, vec!["New 0".to_string()]);
}

#[test]
fn remove_before_both_indices_shifts_both_left() {
    let mut app = three_documents();
    assert_eq!((app.selected_tab, app.previous_tab), (2, 1));
    app.remove_tab(0);
    assert_eq!((app.selected_tab, app.previous_tab), (1, 0));
    assert_eq!(app.tab_names, vec!["b".to_string(), "c".to_string()]);
    assert_eq!(app.documents[0].name, "b");
    assert_eq!(app.documents[1].name, "c");
}

#[test]
fn add_new_tab_seeds_name_and_display_name() {
    let mut app = App::new();
    app.add_new_tab("New 0");
    assert_eq!(app.tabs, vec![TabKey::DocumentTab]);
    assert_eq!(app.tab_names, vec!["New 0".to_string()]);
    let expected = Document {
        init: false,
        name: "New 0".to_string(),
        kind: DocumentKind::Text,
        path: String::new(),
    };
    assert_eq!(app.documents, vec![expected]);
}

#[test]
fn additions_keep_the_three_vectors_in_step() {
    let mut app = App::new();
    assert!(lengths_agree(&app));
    app.add_new_tab("New 0");
    assert!(lengths_agree(&app));
    app.open_file("/docs/report.txt");
    assert!(lengths_agree(&app));
    app.open_file("/");
    assert!(lengths_agree(&app));
    app.add_new_tab("");
    assert!(lengths_agree(&app));
    assert_eq!(app.tabs.len(), 4);
    assert_eq!((app.selected_tab, app.previous_tab), (3, 2));
}

#[test]
fn remove_after_both_indices_leaves_them() {
    let mut app = three_documents();
    app.select(0);
    assert_eq!((app.selected_tab, app.previous_tab), (0, 1));
    app.remove_tab(2);
    assert_eq!((app.selected_tab, app.previous_tab), (0, 1));
    assert_eq!(app.tab_names, vec!["a".to_string(), "b".to_string()]);
}

#[test]
fn remove_selected_before_previous_moves_previous_left() {
    let mut app = three_documents();
    app.select(0);
    app.remove_tab(0);
    assert_eq!((app.selected_tab, app.previous_tab), (0, 0));
    assert_eq!(app.tab_names, vec!["b".to_string(), "c".to_string()]);
}

#[test]
fn remove_selected_after_previous_selects_previous() {
    let mut app = three_documents();
    app.remove_tab(2);
    assert_eq!((app.selected_tab, app.previous_tab), (1, 1));
}

#[test]
fn remove_previous_behind_selection_moves_selection_left_too() {
    let mut app = three_documents();
    app.add_new_tab("d");
    app.select(1);
    assert_eq!((app.selected_tab, app.previous_tab), (1, 2));
    app.remove_tab(2);
    assert_eq!((app.selected_tab, app.previous_tab), (0, 1));
    assert_eq!(app.tab_names, vec!["a".to_string(), "b".to_string(), "d".to_string()]);
}

#[test]
fn remove_previous_with_selection_at_first_slot_stops_at_zero() {
    let mut app = three_documents();
    app.select(0);
    assert_eq!((app.selected_tab, app.previous_tab), (0, 1));
    app.remove_tab(1);
    assert_eq!((app.selected_tab, app.previous_tab), (0, 0));
}

#[test]
fn remove_last_slot_while_both_indices_point_at_it_pulls_them_back() {
    let mut app = three_documents();
    app.select(1);
    app.remove_tab(2);
    assert_eq!((app.selected_tab, app.previous_tab), (1, 1));
    app.remove_tab(1);
    assert_eq!(app.tabs.len(), 1);
    assert_eq!((app.selected_tab, app.previous_tab), (0, 0));
}

#[test]
fn remove_between_selection_and_previous_pulls_previous_back() {
    let mut app = three_documents();
    app.add_new_tab("d");
    app.remove_tab(3);
    assert_eq!((app.selected_tab, app.previous_tab), (2, 2));
    app.select(0);
    app.remove_tab(1);
    assert_eq!(app.tabs.len(), 2);
    assert_eq!((app.selected_tab, app.previous_tab), (0, 1));
}

#[test]
fn remove_keeps_indices_in_range_in_every_small_configuration() {
    for len in 2..5usize {
        for selected in 0..len {
            for previous in 0..len {
                for index in 0..len {
                    let mut app = App::new();
                    for _ in 0..len {
                        app.add_new_tab("t");
                    }
                    app.selected_tab = selected;
                    app.previous_tab = previous;
                    app.remove_tab(index);
                    assert_eq!(app.tabs.len(), len - 1);
                    assert!(lengths_agree(&app));
                    assert!(app.selected_tab < app.tabs.len());
                    assert!(app.previous_tab < app.tabs.len());
                    if selected == index {
                        assert_eq!(app.selected_tab, app.previous_tab);
                    }
                }
            }
        }
    }
}

#[test]
fn remove_only_slot_leaves_empty_registry() {
    let mut app = App::new();
    app.add_new_tab("only");
    app.remove_tab(0);
    assert!(app.tabs.is_empty() && app.tab_names.is_empty() && app.documents.is_empty());
    assert_eq!((app.selected_tab, app.previous_tab), (0, 0));
    assert_eq!(app.current_pane(), Pane::Nothing);
}

#[test]
fn show_home_appends_one_home_slot() {
    let mut app = App::new();
    app.add_new_tab("a");
    app.show_home_tab();
    assert_eq!(app.tabs, vec![TabKey::DocumentTab, TabKey::Home]);
    assert_eq!(app.tab_names, vec!["a".to_string(), "Home".to_string()]);
    assert_eq!(app.documents[1], Document::default());
    assert_eq!((app.selected_tab, app.previous_tab), (1, 0));
}

#[test]
fn show_home_twice_keeps_one_home_slot() {
    let mut app = App::new();
    app.add_new_tab("a");
    app.show_home_tab();
    let once = app.clone();
    app.show_home_tab();
    assert_eq!(app.tabs, once.tabs);
    assert_eq!(app.tab_names, once.tab_names);
    assert_eq!(app.documents, once.documents);
    assert_eq!(app.tabs.iter().filter(|k| **k == TabKey::Home).count(), 1);
    assert_eq!((app.selected_tab, app.previous_tab), (1, 0));
}

#[test]
fn show_home_selects_existing_home_and_keeps_previous() {
    let mut app = App::new();
    app.show_home_tab();
    app.add_new_tab("a");
    app.add_new_tab("b");
    assert_eq!((app.selected_tab, app.previous_tab), (2, 1));
    app.show_home_tab();
    assert_eq!(app.tabs.len(), 3);
    assert_eq!((app.selected_tab, app.previous_tab), (0, 1));
}

#[test]
fn select_leaves_previous_untouched() {
    let mut app = three_documents();
    app.select(0);
    assert_eq!((app.selected_tab, app.previous_tab), (0, 1));
    app.select(2);
    assert_eq!((app.selected_tab, app.previous_tab), (2, 1));
}

#[test]
fn close_all_empties_everything() {
    let mut app = three_documents();
    app.close_all();
    assert!(app.tabs.is_empty() && app.tab_names.is_empty() && app.documents.is_empty());
    assert_eq!(app.current_pane(), Pane::Nothing);
    app.add_new_tab("again");
    assert_eq!(app.tabs.len(), 1);
    assert_eq!((app.selected_tab, app.previous_tab), (0, 0));
}

#[test]
fn submit_names_tab_after_image_file() {
    let mut app = App::new();
    app.add_new_tab("draft");
    app.documents[0].kind = DocumentKind::Image;
    assert_eq!(app.init_doc(), Ok(()));
    assert_eq!(app.tab_names[0], "draft.bmp");
    assert!(app.documents[0].init);
    assert_eq!(app.documents[0].name, "draft");
    assert_eq!(app.documents[0].kind, DocumentKind::Image);
}

#[test]
fn submit_names_tab_after_text_file() {
    let mut app = three_documents();
    app.select(1);
    assert_eq!(app.init_doc(), Ok(()));
    assert_eq!(
        app.tab_names,
        vec!["a".to_string(), "b.txt".to_string(), "c".to_string()]
    );
    assert!(!app.documents[0].init && app.documents[1].init && !app.documents[2].init);
}

#[test]
fn submit_twice_gives_the_same_result() {
    let mut app = App::new();
    app.add_new_tab("draft");
    assert_eq!(app.init_doc(), Ok(()));
    let once = app.clone();
    assert_eq!(app.init_doc(), Ok(()));
    assert_eq!(app.tab_names, once.tab_names);
    assert_eq!(app.tab_names[0], "draft.txt");
    assert_eq!(app.documents, once.documents);
    assert!(app.documents[0].init);
}

#[test]
fn submit_on_home_is_reported_and_changes_nothing() {
    let mut app = App::new();
    app.show_home_tab();
    assert_eq!(app.init_doc(), Err(SessionError::InvalidStateTransition));
    assert_eq!(app.tab_names, vec!["Home".to_string()]);
    assert_eq!(app.documents, vec![Document::default()]);
}

#[test]
fn submit_on_empty_registry_is_reported() {
    let mut app = App::new();
    assert_eq!(app.init_doc(), Err(SessionError::InvalidStateTransition));
    assert!(app.tabs.is_empty());
}

#[test]
fn save_dir_sets_directory_of_selected_document() {
    let mut app = three_documents();
    app.select(1);
    assert_eq!(app.save_dir(Some("/home/me".to_string())), Ok(()));
    assert_eq!(app.documents[1].path, "/home/me");
    assert_eq!(app.documents[0].path, "");
    assert_eq!(app.documents[2].path, "");
    assert_eq!(app.documents[1].name, "b");
    assert!(!app.documents[1].init);
}

#[test]
fn save_dir_dismissed_changes_nothing() {
    let mut app = App::new();
    app.add_new_tab("a");
    assert_eq!(app.save_dir(Some("/x".to_string())), Ok(()));
    assert_eq!(app.save_dir(None), Err(SessionError::Cancelled));
    assert_eq!(app.documents[0].path, "/x");
}

#[test]
fn save_dir_on_empty_registry_is_reported() {
    let mut app = App::new();
    assert_eq!(
        app.save_dir(Some("/x".to_string())),
        Err(SessionError::InvalidStateTransition)
    );
    assert_eq!(app.save_dir(None), Err(SessionError::InvalidStateTransition));
    assert!(app.tabs.is_empty() && app.tab_names.is_empty() && app.documents.is_empty());
    assert_eq!((app.selected_tab, app.previous_tab), (0, 0));
}

#[test]
fn save_dir_on_home_sets_directory_of_its_record() {
    let mut app = App::new();
    app.add_new_tab("a");
    app.show_home_tab();
    assert_eq!(app.save_dir(Some("/x".to_string())), Ok(()));
    let mut expected = Document::default();
    expected.path = "/x".to_string();
    assert_eq!(app.documents[1], expected);
    assert_eq!(app.documents[0].path, "");
    assert_eq!(app.tabs, vec![TabKey::DocumentTab, TabKey::Home]);
    assert_eq!(app.tab_names, vec!["a".to_string(), "Home".to_string()]);
    assert_eq!((app.selected_tab, app.previous_tab), (1, 0));
    assert_eq!(app.save_dir(None), Err(SessionError::Cancelled));
    assert_eq!(app.documents[1], expected);
}

#[test]
fn pick_file_opens_committed_document() {
    let mut app = App::new();
    app.add_new_tab("a");
    assert_eq!(app.pick_file(Some("/docs/report.txt".to_string())), Ok(()));
    assert_eq!(app.tabs, vec![TabKey::DocumentTab, TabKey::DocumentTab]);
    assert_eq!(app.tab_names[1], "report");
    let expected = Document {
        init: true,
        name: "report".to_string(),
        kind: DocumentKind::Text,
        path: "/docs".to_string(),
    };
    assert_eq!(app.documents[1], expected);
    assert_eq!((app.selected_tab, app.previous_tab), (1, 0));
    assert_eq!(app.current_pane(), Pane::Content);
}

#[test]
fn pick_file_dismissed_changes_nothing() {
    let mut app = App::new();
    app.add_new_tab("a");
    assert_eq!(app.pick_file(None), Err(SessionError::Cancelled));
    assert_eq!(app.tabs.len(), 1);
    assert_eq!(app.tab_names, vec!["a".to_string()]);
    assert_eq!((app.selected_tab, app.previous_tab), (0, 0));
}

#[test]
fn open_file_reads_bitmap() {
    let mut app = App::new();
    app.open_file("pictures/cat.bmp");
    assert_eq!(app.tab_names, vec!["cat".to_string()]);
    assert_eq!(app.documents[0].kind, DocumentKind::Image);
    assert_eq!(app.documents[0].path, "pictures");
    assert!(app.documents[0].init);
}

#[test]
fn open_file_without_file_name_still_adds_a_slot() {
    let mut app = App::new();
    app.open_file("/");
    assert!(lengths_agree(&app));
    assert_eq!(app.tab_names, vec![String::new()]);
    assert_eq!(app.documents[0].name, "");
    assert_eq!(app.documents[0].path, "");
    assert!(app.documents[0].init);
}

#[test]
fn decrease_selected_stops_at_zero() {
    let mut app = three_documents();
    app.decrease_selected();
    assert_eq!((app.selected_tab, app.previous_tab), (1, 1));
    app.decrease_selected();
    app.decrease_selected();
    assert_eq!((app.selected_tab, app.previous_tab), (0, 1));
    assert_eq!(app.tabs.len(), 3);
}

#[test]
fn decrease_previous_stops_at_zero() {
    let mut app = three_documents();
    app.decrease_previous();
    assert_eq!((app.selected_tab, app.previous_tab), (2, 0));
    app.decrease_previous();
    assert_eq!((app.selected_tab, app.previous_tab), (2, 0));
}

#[test]
fn current_pane_follows_selection() {
    let mut app = App::new();
    assert_eq!(app.current_pane(), Pane::Nothing);
    app.show_home_tab();
    assert_eq!(app.current_pane(), Pane::Home);
    app.add_new_tab("a");
    assert_eq!(app.current_pane(), Pane::Form);
    assert_eq!(app.init_doc(), Ok(()));
    assert_eq!(app.current_pane(), Pane::Content);
    app.select(0);
    assert_eq!(app.current_pane(), Pane::Home);
}

#[test]
fn tab_label_of_home_follows_language() {
    let mut app = App::new();
    app.show_home_tab();
    app.add_new_tab("notes");
    assert_eq!(app.tab_label(0), "Home");
    assert_eq!(app.tab_label(1), "notes");
    app.language.lang_profile = tabbed_documents::language_labels::LangProfile::Espanol;
    app.language.set_lang();
    assert_eq!(app.tab_label(0), "Casa");
    assert_eq!(app.tab_label(1), "notes");
}

#[test]
fn tab_key_defaults_to_home() {
    assert_eq!(TabKey::default(), TabKey::Home);
}

#[test]
fn fresh_name_counts_the_slots() {
    let mut app = App::new();
    assert_eq!(app.fresh_name(), "New 0");
    let first = app.fresh_name();
    app.add_new_tab(&first);
    assert_eq!(app.fresh_name(), "New 1");
    for _ in 0..11 {
        let name = app.fresh_name();
        app.add_new_tab(&name);
    }
    assert_eq!(app.fresh_name(), "New 12");
    assert_eq!(app.tab_names[11], "New 11");
    assert_eq!(app.documents[11].name, "New 11");
}

#[test]
fn is_valid_tells_broken_sessions_apart() {
    let mut app = three_documents();
    assert!(app.is_valid());
    assert!(App::new().is_valid());
    app.selected_tab = 3;
    assert!(!app.is_valid());
    app.selected_tab = 0;
    app.previous_tab = 3;
    assert!(!app.is_valid());
    app.previous_tab = 2;
    assert!(app.is_valid());
    app.tab_names.pop();
    assert!(!app.is_valid());
    app.tab_names.push("c".to_string());
    app.tabs[0] = TabKey::Home;
    assert!(app.is_valid());
    app.tabs[2] = TabKey::Home;
    assert!(!app.is_valid());
    let mut empty = App::new();
    empty.selected_tab = 1;
    assert!(!empty.is_valid());
}
