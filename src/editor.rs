use vstd::prelude::*;
use vstd::string::*;

use crate::project::Project;

verus! {

pub const DEFAULT_PROJECT_NAME: &'static str = "MyGame";

pub const DEFAULT_PROJECT_LOCATION: &'static str = "./projects";

pub const EMPTY_NAME_ERROR: &'static str = "Project name cannot be empty";

pub const EMPTY_LOCATION_ERROR: &'static str = "Location cannot be empty";

pub const CREATE_FAILED_PREFIX: &'static str = "Failed to create: ";

/// The characters with the Unicode White_Space property.
pub open spec fn is_white_space(c: char) -> bool {
    let u = c as u32;
    ||| 0x09 <= u <= 0x0D
    ||| u == 0x20
    ||| u == 0x85
    ||| u == 0xA0
    ||| u == 0x1680
    ||| 0x2000 <= u <= 0x200A
    ||| u == 0x2028
    ||| u == 0x2029
    ||| u == 0x202F
    ||| u == 0x205F
    ||| u == 0x3000
}

/// `s` without its leading white space.
pub open spec fn trim_start(s: Seq<char>) -> Seq<char>
    decreases s.len(),
{
    if s.len() > 0 && is_white_space(s[0]) {
        trim_start(s.drop_first())
    } else {
        s
    }
}

/// `s` without its trailing white space.
pub open spec fn trim_end(s: Seq<char>) -> Seq<char>
    decreases s.len(),
{
    if s.len() > 0 && is_white_space(s.last()) {
        trim_end(s.drop_last())
    } else {
        s
    }
}

/// `s` without leading and trailing white space.
pub open spec fn trimmed(s: Seq<char>) -> Seq<char> {
    trim_end(trim_start(s))
}

/// Relies on str::trim: the input without leading and trailing characters of
/// the Unicode White_Space property.
#[verifier::external_body]
fn trim(s: &str) -> (r: String)
    ensures
        r@ == trimmed(s@),
{
    s.trim().to_string()
}

/// The state of the "New Project" dialog.
pub struct NewProjectDialog {
    pub open: bool,
    pub name_input: String,
    pub location_input: String,
    pub error: Option<String>,
}

/// A validated request to create a project `name` under directory `location`.
pub struct CreateRequest {
    pub name: String,
    pub location: String,
}

/// The editor's own UI state, apart from the GPU session.
pub struct EditorUi {
    pub show_debug_panel: bool,
    pub camera_active: bool,
    pub cursor_grab_request: Option<bool>,
    pub current_project: Option<Project>,
    pub new_project: NewProjectDialog,
}

/// The message for an already trimmed name and location that cannot make a
/// project, if they cannot: a blank name first, then a blank location.
pub open spec fn rejection_of(name: Seq<char>, location: Seq<char>) -> Option<Seq<char>> {
    if name.len() == 0 {
        Some(EMPTY_NAME_ERROR@)
    } else if location.len() == 0 {
        Some(EMPTY_LOCATION_ERROR@)
    } else {
        None
    }
}

/// The message shown when the dialog's raw inputs are submitted, if they are
/// rejected.
pub open spec fn rejection(name: Seq<char>, location: Seq<char>) -> Option<Seq<char>> {
    rejection_of(trimmed(name), trimmed(location))
}

/// Accepts a trimmed project name and location as a request, or gives the
/// message that rejects them.
pub fn validate_request(name: String, location: String) -> (r: Result<CreateRequest, String>)
    ensures
        match rejection_of(name@, location@) {
            Some(msg) => r matches Err(e) && e@ == msg,
            None => r matches Ok(req) && req.name@ == name@ && req.location@ == location@,
        },
{
    if name.as_str().unicode_len() == 0 {
        Err(String::from_str(EMPTY_NAME_ERROR))
    } else if location.as_str().unicode_len() == 0 {
        Err(String::from_str(EMPTY_LOCATION_ERROR))
    } else {
        Ok(CreateRequest { name, location })
    }
}

impl NewProjectDialog {
    /// A closed dialog with the default name and location and no error.
    pub fn new() -> (r: NewProjectDialog)
        ensures
            !r.open,
            r.name_input@ == DEFAULT_PROJECT_NAME@,
            r.location_input@ == DEFAULT_PROJECT_LOCATION@,
            r.error is None,
    {
        NewProjectDialog {
            open: false,
            name_input: String::from_str(DEFAULT_PROJECT_NAME),
            location_input: String::from_str(DEFAULT_PROJECT_LOCATION),
            error: None,
        }
    }

    /// Opens the dialog with no error shown; the inputs are kept.
    pub fn show(&mut self)
        ensures
            final(self).open,
            final(self).error is None,
            final(self).name_input == old(self).name_input,
            final(self).location_input == old(self).location_input,
    {
        self.open = true;
        self.error = None;
    }

    /// Closes the dialog and clears its error; the inputs are kept.
    pub fn cancel(&mut self)
        ensures
            !final(self).open,
            final(self).error is None,
            final(self).name_input == old(self).name_input,
            final(self).location_input == old(self).location_input,
    {
        self.open = false;
        self.error = None;
    }

    /// Validates the inputs. With a blank name, or else a blank location,
    /// sets the matching error and returns `None`; otherwise returns the
    /// trimmed name and location and leaves the dialog as it is.
    pub fn submit(&mut self) -> (r: Option<CreateRequest>)
        ensures
            final(self).open == old(self).open,
            final(self).name_input == old(self).name_input,
            final(self).location_input == old(self).location_input,
            match rejection(old(self).name_input@, old(self).location_input@) {
                Some(msg) => r is None && (final(self).error matches Some(e) && e@ == msg),
                None => final(self).error == old(self).error && (r matches Some(req) && req.name@
                    == trimmed(old(self).name_input@) && req.location@ == trimmed(
                    old(self).location_input@)),
            },
    {
        let name = trim(self.name_input.as_str());
        let location = trim(self.location_input.as_str());
        match validate_request(name, location) {
            Ok(req) => Some(req),
            Err(msg) => {
                self.error = Some(msg);
                None
            },
        }
    }

    /// Shows why creating the project failed; the dialog stays open.
    pub fn creation_failed(&mut self, reason: &str)
        ensures
            final(self).open == old(self).open,
            final(self).error matches Some(e) && e@ == CREATE_FAILED_PREFIX@ + reason@,
            final(self).name_input == old(self).name_input,
            final(self).location_input == old(self).location_input,
    {
        let mut msg = String::from_str(CREATE_FAILED_PREFIX);
        msg.append(reason);
        self.error = Some(msg);
    }
}

impl EditorUi {
    /// The start-up UI: debug panel shown, camera released, no project, the
    /// dialog closed with its defaults.
    pub fn new() -> (r: EditorUi)
        ensures
            r.show_debug_panel,
            !r.camera_active,
            r.cursor_grab_request is None,
            r.current_project is None,
            !r.new_project.open,
            r.new_project.name_input@ == DEFAULT_PROJECT_NAME@,
            r.new_project.location_input@ == DEFAULT_PROJECT_LOCATION@,
            r.new_project.error is None,
    {
        EditorUi {
            show_debug_panel: true,
            camera_active: false,
            cursor_grab_request: None,
            current_project: None,
            new_project: NewProjectDialog::new(),
        }
    }

    /// A double click on the viewport captures the camera, asking for the
    /// cursor to be grabbed; when it is already captured nothing changes.
    pub fn viewport_double_clicked(&mut self)
        ensures
            final(self).camera_active,
            !old(self).camera_active ==> final(self).cursor_grab_request == Some(true),
            old(self).camera_active ==> final(self).cursor_grab_request
                == old(self).cursor_grab_request,
            final(self).show_debug_panel == old(self).show_debug_panel,
            final(self).current_project == old(self).current_project,
            final(self).new_project == old(self).new_project,
    {
        if !self.camera_active {
            self.camera_active = true;
            self.cursor_grab_request = Some(true);
        }
    }

    /// An Escape key event. A fresh press (not an auto-repeat) while the
    /// camera is captured releases it and asks for the cursor back; returns
    /// whether it did, so that a redraw can be requested.
    pub fn escape_key(&mut self, pressed: bool, repeat: bool) -> (r: bool)
        ensures
            r == (pressed && !repeat && old(self).camera_active),
            r ==> !final(self).camera_active && final(self).cursor_grab_request == Some(false),
            !r ==> final(self).camera_active == old(self).camera_active
                && final(self).cursor_grab_request == old(self).cursor_grab_request,
            final(self).show_debug_panel == old(self).show_debug_panel,
            final(self).current_project == old(self).current_project,
            final(self).new_project == old(self).new_project,
    {
        if pressed && !repeat && self.camera_active {
            self.camera_active = false;
            self.cursor_grab_request = Some(false);
            true
        } else {
            false
        }
    }

    /// Whether an input event reaches the camera: only while it is captured,
    /// and only when the UI did not consume the event.
    pub fn forwards_to_camera(&self, consumed_by_ui: bool) -> (r: bool)
        ensures
            r == (self.camera_active && !consumed_by_ui),
    {
        self.camera_active && !consumed_by_ui
    }

    /// Hands out the pending cursor-grab request once.
    pub fn take_cursor_grab_request(&mut self) -> (r: Option<bool>)
        ensures
            r == old(self).cursor_grab_request,
            final(self).cursor_grab_request is None,
            final(self).camera_active == old(self).camera_active,
            final(self).show_debug_panel == old(self).show_debug_panel,
            final(self).current_project == old(self).current_project,
            final(self).new_project == old(self).new_project,
    {
        let r = self.cursor_grab_request;
        self.cursor_grab_request = None;
        r
    }

    /// A project was created: it becomes the current one and the dialog
    /// closes without error.
    pub fn project_created(&mut self, project: Project)
        ensures
            final(self).current_project == Some(project),
            !final(self).new_project.open,
            final(self).new_project.error is None,
            final(self).new_project.name_input == old(self).new_project.name_input,
            final(self).new_project.location_input == old(self).new_project.location_input,
            final(self).show_debug_panel == old(self).show_debug_panel,
            final(self).camera_active == old(self).camera_active,
            final(self).cursor_grab_request == old(self).cursor_grab_request,
    {
        self.current_project = Some(project);
        self.new_project.open = false;
        self.new_project.error = None;
    }
}

} // verus!
