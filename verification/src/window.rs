use vstd::prelude::*;

verus! {

/// A snapshot of the strings that identify the focused window. Information
/// that the platform could not supply is carried as an empty string, never
/// as a missing value.
pub struct WindowContext {
    pub title: String,
    pub process_name: String,
    pub app_name: String,
}

/// What an X11 query can tell about the focused window: the command that
/// spawned it, its window class and its window name, each possibly
/// unavailable.
pub struct ActiveWindow {
    pub cmd: Option<String>,
    pub wm_class: Option<String>,
    pub wm_name: Option<String>,
}

/// Turns a raw window snapshot into a context for rule evaluation:
/// unavailable fields become empty strings.
pub fn window_context(win: ActiveWindow) -> (r: WindowContext)
    ensures
        r.title@ == (match win.wm_name {
            Some(s) => s@,
            None => Seq::<char>::empty(),
        }),
        r.process_name@ == (match win.wm_class {
            Some(s) => s@,
            None => Seq::<char>::empty(),
        }),
        r.app_name@ == (match win.cmd {
            Some(s) => s@,
            None => Seq::<char>::empty(),
        }),
{
    WindowContext {
        title: match win.wm_name {
            Some(s) => s,
            None => String::new(),
        },
        process_name: match win.wm_class {
            Some(s) => s,
            None => String::new(),
        },
        app_name: match win.cmd {
            Some(s) => s,
            None => String::new(),
        },
    }
}

} // verus!
