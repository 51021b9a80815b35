use river::track_editor::{river_option_value, TrackEditor};

type Point = (f64, f64);

fn editor_on_river() -> TrackEditor<Point> {
    let mut editor = TrackEditor::new();
    editor.rivers_loaded(Some(4));
    editor
}

#[test]
fn first_river_is_chosen_once_loaded() {
    let mut editor: TrackEditor<Point> = TrackEditor::new();
    editor.rivers_loaded(None);
    assert_eq!(editor.selected_river_id, None);
    editor.rivers_loaded(Some(4));
    assert_eq!(editor.selected_river_id, Some(4));
    editor.rivers_loaded(Some(9));
    assert_eq!(editor.selected_river_id, Some(4));
}

#[test]
fn choosing_an_option_chooses_its_river() {
    let mut editor = editor_on_river();
    editor.choose_river(&river_option_value(12));
    assert_eq!(editor.selected_river_id, Some(12));
    editor.choose_river("");
    assert_eq!(editor.selected_river_id, None);
    assert_eq!(river_option_value(-3), "-3");
}

#[test]
fn clicks_add_points_only_while_editing() {
    let mut editor = editor_on_river();
    editor.map_clicked((35.0, 139.0));
    assert!(editor.draft.is_empty());
    editor.begin_edit();
    editor.map_clicked((35.0, 139.0));
    editor.map_clicked((35.1, 139.1));
    assert_eq!(editor.draft, vec![(35.0, 139.0), (35.1, 139.1)]);
    assert!(editor.shows_draft_line());
    editor.undo_point();
    assert_eq!(editor.draft, vec![(35.0, 139.0)]);
    assert!(!editor.shows_draft_line());
    editor.undo_point();
    editor.undo_point();
    assert!(editor.draft.is_empty());
}

#[test]
fn cancelling_drops_the_points() {
    let mut editor = editor_on_river();
    editor.begin_edit();
    editor.map_clicked((35.0, 139.0));
    editor.cancel_edit();
    assert!(!editor.editing);
    assert!(editor.draft.is_empty());
    assert_eq!(editor.form_error, None);
}

#[test]
fn form_opens_only_for_a_river_and_two_points() {
    let mut editor: TrackEditor<Point> = TrackEditor::new();
    editor.open_track_form();
    assert_eq!(editor.form_error.as_deref(), Some("投稿先の川を選択してください。"));
    editor.rivers_loaded(Some(1));
    editor.begin_edit();
    editor.map_clicked((35.0, 139.0));
    editor.open_track_form();
    assert_eq!(editor.form_error.as_deref(), Some("経路は2点以上指定してください。"));
    assert!(!editor.show_track_form);
    editor.map_clicked((35.2, 139.2));
    editor.open_track_form();
    assert_eq!(editor.form_error, None);
    assert!(editor.show_track_form);
}

#[test]
fn submission_needs_a_name() {
    let mut editor = editor_on_river();
    editor.begin_edit();
    editor.map_clicked((35.0, 139.0));
    editor.map_clicked((35.2, 139.2));
    editor.track_name = "  \u{3000} ".to_string();
    assert!(editor.submit_track().is_none());
    assert_eq!(editor.form_error.as_deref(), Some("経路名を入力してください。"));
}

#[test]
fn submission_carries_the_trimmed_name_and_the_points() {
    let mut editor = editor_on_river();
    editor.begin_edit();
    editor.map_clicked((35.0, 139.0));
    editor.map_clicked((35.2, 139.2));
    editor.track_name = "  上流からキャンプ場まで ".to_string();
    editor.track_description = "任意".to_string();
    let submission = editor.submit_track().expect("track should be posted");
    assert_eq!(submission.river_id, 4);
    assert_eq!(submission.track_name, "上流からキャンプ場まで");
    assert_eq!(submission.description, "任意");
    assert_eq!(submission.points, vec![(35.0, 139.0), (35.2, 139.2)]);
    assert_eq!(editor.draft.len(), 2);
}

#[test]
fn submission_without_river_or_points_is_refused() {
    let mut editor: TrackEditor<Point> = TrackEditor::new();
    editor.track_name = "name".to_string();
    assert!(editor.submit_track().is_none());
    assert_eq!(editor.form_error.as_deref(), Some("投稿先の川を選択してください。"));
    editor.rivers_loaded(Some(2));
    assert!(editor.submit_track().is_none());
    assert_eq!(editor.form_error.as_deref(), Some("経路は2点以上指定してください。"));
}

#[test]
fn posting_clears_the_form_and_confirms() {
    let mut editor = editor_on_river();
    editor.begin_edit();
    editor.map_clicked((35.0, 139.0));
    editor.map_clicked((35.2, 139.2));
    editor.track_name = "name".to_string();
    editor.open_track_form();
    editor.track_posted(17);
    assert!(editor.draft.is_empty());
    assert!(!editor.show_track_form);
    assert!(editor.track_name.is_empty());
    assert_eq!(editor.submit_result.as_deref(), Some("経路を投稿しました #17"));
    editor.track_post_failed();
    assert_eq!(editor.form_error.as_deref(), Some("経路の投稿に失敗しました。"));
}
