use vstd::prelude::*;
use vstd::string::StringExecFns;

verus! {

/// What the screenshot overlay can see when an event arrives.
#[derive(Clone, Copy, Debug, PartialEq, Eq, Structural)]
pub struct OverlayContext {
    /// A screenshot is on offer (it was taken and not deleted).
    pub has_screenshot: bool,
    /// The overlay's window surface exists, so dialogs can be shown in it.
    pub has_window: bool,
    /// The screenshot's image is loaded and can be written out.
    pub image_loaded: bool,
}

/// What happens in the screenshot overlay.
#[derive(Debug)]
pub enum OverlayEvent {
    /// The Save button was pressed.
    SavePressed,
    /// The Delete button was pressed.
    DeletePressed,
    /// The Copy button was pressed.
    CopyPressed,
    /// "Yes" was pressed in the save confirmation dialog.
    YesPressed,
    /// "No" was pressed in the save confirmation dialog.
    NoPressed,
    /// Writing the image out ended, with the error's text when it failed.
    SaveFinished(Result<(), String>),
}

/// What the caller must do, in order.
#[derive(Debug)]
pub enum OverlayCommand {
    /// Remove every dialog of the overlay.
    DespawnDialogs,
    /// Show the dialog that asks whether to save the screenshot.
    SpawnConfirmation,
    /// Write the screenshot's image to its output file, then report the
    /// outcome with `SaveFinished`.
    SaveImage,
    /// Show the dialog that says the screenshot was saved.
    SpawnSaveSuccess,
    /// Show an error dialog with this message.
    SpawnError(String),
    /// Remove the screenshot's file, where it exists.
    DeleteScreenshotFile,
    /// Forget the screenshot.
    ClearScreenshot,
}

/// The message of the dialog that reports a failed save.
pub open spec fn save_error_message(error: Seq<char>) -> Seq<char> {
    "Failed to save: "@ + error
}

/// The commands for every event but a failed save, whose command carries
/// a message.  Saving needs a screenshot and, for the second step, its
/// image; a dialog needs the window; a new dialog replaces all others.
pub open spec fn plain_commands(event: OverlayEvent, context: OverlayContext) -> Seq<OverlayCommand> {
    match event {
        OverlayEvent::SavePressed =>
            if !context.has_screenshot {
                seq![]
            } else if context.has_window {
                seq![OverlayCommand::DespawnDialogs, OverlayCommand::SpawnConfirmation]
            } else {
                seq![OverlayCommand::DespawnDialogs]
            },
        OverlayEvent::DeletePressed =>
            if context.has_screenshot {
                seq![OverlayCommand::DeleteScreenshotFile, OverlayCommand::ClearScreenshot]
            } else {
                seq![]
            },
        OverlayEvent::CopyPressed => seq![],
        OverlayEvent::YesPressed =>
            if context.has_screenshot && context.image_loaded {
                seq![OverlayCommand::DespawnDialogs, OverlayCommand::SaveImage]
            } else {
                seq![]
            },
        OverlayEvent::NoPressed => seq![OverlayCommand::DespawnDialogs],
        OverlayEvent::SaveFinished(Ok(())) =>
            if context.has_window { seq![OverlayCommand::SpawnSaveSuccess] } else { seq![] },
        OverlayEvent::SaveFinished(Err(_)) => seq![],
    }
}

/// The text of the error dialog for a failed save.
pub fn save_error_text(error: &str) -> (message: String)
    ensures
        message@ == save_error_message(error@),
{
    let mut message = String::from_str("Failed to save: ");
    message.append(error);
    message
}

/// The commands that answer one event of the screenshot overlay.
pub fn overlay_commands(event: &OverlayEvent, context: OverlayContext) -> (commands: Vec<OverlayCommand>)
    ensures
        match event {
            OverlayEvent::SaveFinished(Err(error)) =>
                if context.has_window {
                    &&& commands@.len() == 1
                    &&& commands@[0] matches OverlayCommand::SpawnError(message)
                    &&& message@ == save_error_message(error@)
                } else {
                    commands@.len() == 0
                },
            _ => commands@ == plain_commands(*event, context),
        },
{
    let mut commands: Vec<OverlayCommand> = Vec::new();
    match event {
        OverlayEvent::SavePressed => {
            if context.has_screenshot {
                commands.push(OverlayCommand::DespawnDialogs);
                if context.has_window {
                    commands.push(OverlayCommand::SpawnConfirmation);
                }
            }
        },
        OverlayEvent::DeletePressed => {
            if context.has_screenshot {
                commands.push(OverlayCommand::DeleteScreenshotFile);
                commands.push(OverlayCommand::ClearScreenshot);
            }
        },
        OverlayEvent::CopyPressed => {},
        OverlayEvent::YesPressed => {
            if context.has_screenshot && context.image_loaded {
                commands.push(OverlayCommand::DespawnDialogs);
                commands.push(OverlayCommand::SaveImage);
            }
        },
        OverlayEvent::NoPressed => {
            commands.push(OverlayCommand::DespawnDialogs);
        },
        OverlayEvent::SaveFinished(Ok(())) => {
            if context.has_window {
                commands.push(OverlayCommand::SpawnSaveSuccess);
            }
        },
        OverlayEvent::SaveFinished(Err(error)) => {
            if context.has_window {
                commands.push(OverlayCommand::SpawnError(save_error_text(error.as_str())));
            }
        },
    }
    commands
}

/// The screenshot overlay's guards: without a screenshot Save, Delete and
/// Yes do nothing; the image is written only after "Yes" with a screenshot
/// whose image is loaded; the confirmation dialog is shown only in the
/// window and only after every other dialog was removed, so it never
/// stacks; the success dialog appears only for a save that succeeded.
pub proof fn lemma_overlay_guards(event: OverlayEvent, context: OverlayContext)
    ensures
        !context.has_screenshot && (event is SavePressed || event is DeletePressed || event is YesPressed)
            ==> plain_commands(event, context).len() == 0,
        plain_commands(event, context).contains(OverlayCommand::SaveImage)
            ==> event is YesPressed && context.has_screenshot && context.image_loaded,
        plain_commands(event, context).contains(OverlayCommand::SpawnConfirmation) ==> {
            &&& context.has_window
            &&& plain_commands(event, context)[0] == OverlayCommand::DespawnDialogs
        },
        plain_commands(event, context).contains(OverlayCommand::SpawnSaveSuccess)
            ==> event == OverlayEvent::SaveFinished(Ok(())) && context.has_window,
{
    let c = plain_commands(event, context);
    if c.contains(OverlayCommand::SaveImage) {
        let i = choose|i: int| 0 <= i < c.len() && c[i] == OverlayCommand::SaveImage;
        assert(c[i] == OverlayCommand::SaveImage);
    }
    if c.contains(OverlayCommand::SpawnConfirmation) {
        let i = choose|i: int| 0 <= i < c.len() && c[i] == OverlayCommand::SpawnConfirmation;
        assert(c[i] == OverlayCommand::SpawnConfirmation);
    }
    if c.contains(OverlayCommand::SpawnSaveSuccess) {
        let i = choose|i: int| 0 <= i < c.len() && c[i] == OverlayCommand::SpawnSaveSuccess;
        assert(c[i] == OverlayCommand::SpawnSaveSuccess);
        match event {
            OverlayEvent::SaveFinished(Ok(u)) => {
                assert(u == ());
            },
            _ => {},
        }
    }
}

/// With a screenshot on offer, Delete removes its file and then forgets it,
/// whether or not a window or a loaded image is there.
pub proof fn lemma_delete_removes_file_then_screenshot(context: OverlayContext)
    requires
        context.has_screenshot,
    ensures
        plain_commands(OverlayEvent::DeletePressed, context).len() == 2,
        plain_commands(OverlayEvent::DeletePressed, context)[0] == OverlayCommand::DeleteScreenshotFile,
        plain_commands(OverlayEvent::DeletePressed, context)[1] == OverlayCommand::ClearScreenshot,
{
}

/// Only Delete removes the screenshot's file or forgets the screenshot:
/// answering "No", saving, copying and the outcome of a save never do.
pub proof fn lemma_only_delete_discards(event: OverlayEvent, context: OverlayContext)
    requires
        !(event is DeletePressed),
    ensures
        !plain_commands(event, context).contains(OverlayCommand::DeleteScreenshotFile),
        !plain_commands(event, context).contains(OverlayCommand::ClearScreenshot),
{
    let c = plain_commands(event, context);
    if c.contains(OverlayCommand::DeleteScreenshotFile) {
        let i = choose|i: int| 0 <= i < c.len() && c[i] == OverlayCommand::DeleteScreenshotFile;
        assert(c[i] == OverlayCommand::DeleteScreenshotFile);
    }
    if c.contains(OverlayCommand::ClearScreenshot) {
        let i = choose|i: int| 0 <= i < c.len() && c[i] == OverlayCommand::ClearScreenshot;
        assert(c[i] == OverlayCommand::ClearScreenshot);
    }
}

/// "No" only closes the dialogs, in every context; Copy does nothing.
pub proof fn lemma_no_closes_dialogs_only(context: OverlayContext)
    ensures
        plain_commands(OverlayEvent::NoPressed, context) == seq![OverlayCommand::DespawnDialogs],
        plain_commands(OverlayEvent::CopyPressed, context).len() == 0,
{
}

/// With a screenshot, Save first closes every dialog and then asks for
/// confirmation exactly when there is a window; "Yes" writes the image
/// exactly when a screenshot with a loaded image is there, after closing the
/// dialogs; a successful save is reported exactly when there is a window.
pub proof fn lemma_save_flow(context: OverlayContext)
    ensures
        context.has_screenshot ==> {
            let c = plain_commands(OverlayEvent::SavePressed, context);
            &&& c.len() >= 1
            &&& c[0] == OverlayCommand::DespawnDialogs
            &&& (c.contains(OverlayCommand::SpawnConfirmation) <==> context.has_window)
        },
        plain_commands(OverlayEvent::YesPressed, context).contains(OverlayCommand::SaveImage)
            <==> (context.has_screenshot && context.image_loaded),
        plain_commands(OverlayEvent::YesPressed, context).contains(OverlayCommand::SaveImage)
            ==> plain_commands(OverlayEvent::YesPressed, context)[0] == OverlayCommand::DespawnDialogs,
        plain_commands(OverlayEvent::SaveFinished(Ok(())), context).contains(OverlayCommand::SpawnSaveSuccess)
            <==> context.has_window,
{
    let save = plain_commands(OverlayEvent::SavePressed, context);
    if context.has_screenshot && context.has_window {
        assert(save[1] == OverlayCommand::SpawnConfirmation);
    }
    if save.contains(OverlayCommand::SpawnConfirmation) {
        let i = choose|i: int| 0 <= i < save.len() && save[i] == OverlayCommand::SpawnConfirmation;
        assert(save[i] == OverlayCommand::SpawnConfirmation);
    }
    let yes = plain_commands(OverlayEvent::YesPressed, context);
    if context.has_screenshot && context.image_loaded {
        assert(yes[1] == OverlayCommand::SaveImage);
    }
    if yes.contains(OverlayCommand::SaveImage) {
        let i = choose|i: int| 0 <= i < yes.len() && yes[i] == OverlayCommand::SaveImage;
        assert(yes[i] == OverlayCommand::SaveImage);
    }
    let ok = plain_commands(OverlayEvent::SaveFinished(Ok(())), context);
    if context.has_window {
        assert(ok[0] == OverlayCommand::SpawnSaveSuccess);
    }
    if ok.contains(OverlayCommand::SpawnSaveSuccess) {
        let i = choose|i: int| 0 <= i < ok.len() && ok[i] == OverlayCommand::SpawnSaveSuccess;
        assert(ok[i] == OverlayCommand::SpawnSaveSuccess);
    }
}

} // verus!
