use mechanix_shell::screenshot::{overlay_commands, save_error_text, OverlayCommand, OverlayContext, OverlayEvent};

fn context(has_screenshot: bool, has_window: bool, image_loaded: bool) -> OverlayContext {
    OverlayContext { has_screenshot, has_window, image_loaded }
}

fn names(commands: &[OverlayCommand]) -> Vec<String> {
    commands.iter().map(|c| format!("{:?}", c)).collect()
}

#[test]
fn save_asks_for_confirmation() {
    let c = overlay_commands(&OverlayEvent::SavePressed, context(true, true, true));
    assert_eq!(names(&c), vec!["DespawnDialogs", "SpawnConfirmation"]);
}

#[test]
fn save_without_window_only_clears_dialogs() {
    let c = overlay_commands(&OverlayEvent::SavePressed, context(true, false, true));
    assert_eq!(names(&c), vec!["DespawnDialogs"]);
}

#[test]
fn save_without_screenshot_does_nothing() {
    assert!(overlay_commands(&OverlayEvent::SavePressed, context(false, true, true)).is_empty());
    assert!(overlay_commands(&OverlayEvent::DeletePressed, context(false, true, true)).is_empty());
    assert!(overlay_commands(&OverlayEvent::YesPressed, context(false, true, true)).is_empty());
}

#[test]
fn delete_removes_file_and_screenshot() {
    let c = overlay_commands(&OverlayEvent::DeletePressed, context(true, true, false));
    assert_eq!(names(&c), vec!["DeleteScreenshotFile", "ClearScreenshot"]);
}

#[test]
fn copy_does_nothing() {
    assert!(overlay_commands(&OverlayEvent::CopyPressed, context(true, true, true)).is_empty());
}

#[test]
fn yes_saves_loaded_image() {
    let c = overlay_commands(&OverlayEvent::YesPressed, context(true, true, true));
    assert_eq!(names(&c), vec!["DespawnDialogs", "SaveImage"]);
    assert!(overlay_commands(&OverlayEvent::YesPressed, context(true, true, false)).is_empty());
}

#[test]
fn no_closes_dialogs() {
    let c = overlay_commands(&OverlayEvent::NoPressed, context(false, false, false));
    assert_eq!(names(&c), vec!["DespawnDialogs"]);
}

#[test]
fn successful_save_reports_success() {
    let c = overlay_commands(&OverlayEvent::SaveFinished(Ok(())), context(true, true, true));
    assert_eq!(names(&c), vec!["SpawnSaveSuccess"]);
    assert!(overlay_commands(&OverlayEvent::SaveFinished(Ok(())), context(true, false, true)).is_empty());
}

#[test]
fn failed_save_reports_error() {
    let event = OverlayEvent::SaveFinished(Err("disk full".to_string()));
    let c = overlay_commands(&event, context(true, true, true));
    assert_eq!(c.len(), 1);
    match &c[0] {
        OverlayCommand::SpawnError(message) => assert_eq!(message, "Failed to save: disk full"),
        other => panic!("unexpected command {:?}", other),
    }
    assert!(overlay_commands(&event, context(true, false, true)).is_empty());
}

#[test]
fn error_text_prefixes_message() {
    assert_eq!(save_error_text(""), "Failed to save: ");
    assert_eq!(save_error_text("permission denied"), "Failed to save: permission denied");
}
