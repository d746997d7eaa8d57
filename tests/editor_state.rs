use minima::editor::{validate_request, EditorUi, NewProjectDialog};
use minima::project::Project;

#[test]
fn dialog_defaults() {
    let d = NewProjectDialog::new();
    assert!(!d.open);
    assert_eq!(d.name_input, "MyGame");
    assert_eq!(d.location_input, "./projects");
    assert!(d.error.is_none());
}

#[test]
fn editor_defaults() {
    let ui = EditorUi::new();
    assert!(ui.show_debug_panel);
    assert!(!ui.camera_active);
    assert!(ui.cursor_grab_request.is_none());
    assert!(ui.current_project.is_none());
    assert_eq!(ui.new_project.name_input, "MyGame");
}

#[test]
fn blank_name_is_rejected() {
    let mut d = NewProjectDialog::new();
    d.show();
    d.name_input = "   ".to_string();
    assert!(d.submit().is_none());
    assert_eq!(d.error.as_deref(), Some("Project name cannot be empty"));
    assert!(d.open);
}

#[test]
fn blank_location_is_rejected() {
    let mut d = NewProjectDialog::new();
    d.location_input = " \t ".to_string();
    assert!(d.submit().is_none());
    assert_eq!(d.error.as_deref(), Some("Location cannot be empty"));
}

#[test]
fn valid_inputs_are_trimmed() {
    let mut d = NewProjectDialog::new();
    d.name_input = "  Space Game ".to_string();
    d.location_input = " ./out ".to_string();
    let req = d.submit().expect("accepted");
    assert_eq!(req.name, "Space Game");
    assert_eq!(req.location, "./out");
    assert!(d.error.is_none());
}

#[test]
fn failure_message_and_cancel() {
    let mut d = NewProjectDialog::new();
    d.show();
    d.creation_failed("permission denied");
    assert_eq!(d.error.as_deref(), Some("Failed to create: permission denied"));
    assert!(d.open);
    d.cancel();
    assert!(!d.open);
    assert!(d.error.is_none());
}

#[test]
fn created_project_becomes_current() {
    let mut ui = EditorUi::new();
    ui.new_project.show();
    ui.project_created(Project::scaffolded("./projects/A", "A", "0.1.0"));
    assert!(!ui.new_project.open);
    assert_eq!(ui.current_project.as_ref().map(|p| p.root.clone()), Some("./projects/A".to_string()));
}

#[test]
fn camera_capture_and_release() {
    let mut ui = EditorUi::new();
    assert!(!ui.forwards_to_camera(false));
    ui.viewport_double_clicked();
    assert!(ui.camera_active);
    assert_eq!(ui.take_cursor_grab_request(), Some(true));
    assert_eq!(ui.take_cursor_grab_request(), None);
    ui.viewport_double_clicked();
    assert_eq!(ui.cursor_grab_request, None);
    assert!(ui.forwards_to_camera(false));
    assert!(!ui.forwards_to_camera(true));
    assert!(!ui.escape_key(true, true));
    assert!(!ui.escape_key(false, false));
    assert!(ui.camera_active);
    assert!(ui.escape_key(true, false));
    assert!(!ui.camera_active);
    assert_eq!(ui.cursor_grab_request, Some(false));
    assert!(!ui.escape_key(true, false));
}

#[test]
fn trimmed_inputs_are_validated_in_order() {
    assert_eq!(
        validate_request(String::new(), String::new()).err().as_deref(),
        Some("Project name cannot be empty")
    );
    assert_eq!(
        validate_request("Game".to_string(), String::new()).err().as_deref(),
        Some("Location cannot be empty")
    );
    let req = validate_request("Game".to_string(), "./p".to_string()).ok().expect("accepted");
    assert_eq!(req.name, "Game");
    assert_eq!(req.location, "./p");
}

#[test]
fn unicode_white_space_is_trimmed() {
    let mut d = NewProjectDialog::new();
    d.name_input = "\u{3000}Game\u{00A0}\n".to_string();
    d.location_input = "\u{2003}dir\u{2003}".to_string();
    let req = d.submit().expect("accepted");
    assert_eq!(req.name, "Game");
    assert_eq!(req.location, "dir");
    d.name_input = "\u{2028}\u{0085}".to_string();
    assert!(d.submit().is_none());
    assert_eq!(d.error.as_deref(), Some("Project name cannot be empty"));
}
