//! The description of the currently focused window, as remapper callbacks
//! receive it from the embedding program's window-system query.

use vstd::prelude::*;

verus! {

/// What the window system reports about the active window.
#[derive(Debug, Clone, PartialEq, Eq, Hash)]
pub struct WindowInfo {
    pub pid: u64,
    pub title: String,
    pub class_group_name: String,
    pub clsas_instance_name: String,
}

impl WindowInfo {
    /// Bundle the fields of one active-window report.
    pub fn new(pid: u64, title: String, class_group_name: String, clsas_instance_name: String) -> (r:
        WindowInfo)
        ensures
            r.pid == pid,
            r.title == title,
            r.class_group_name == class_group_name,
            r.clsas_instance_name == clsas_instance_name,
    {
        WindowInfo { pid, title, class_group_name, clsas_instance_name }
    }
}

} // verus!
