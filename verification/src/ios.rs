//! The iOS adapter's capability ceiling.  The platform grants no direct
//! filesystem access and (before its own system picker existed) no color
//! chooser, so every one of these dialogs declines unconditionally; that
//! is documented behavior, not an error.

use vstd::prelude::*;

use crate::ColorChooser;
use crate::FileDialog;

verus! {

/// A save dialog cannot be shown: the filesystem is out of reach.
pub fn save_file_dialog(_dialog: &FileDialog) -> (r: Option<String>)
    ensures
        r is None,
{
    None
}

/// An open dialog cannot be shown: the filesystem is out of reach.
pub fn open_file_dialog(_dialog: &FileDialog) -> (r: Option<Vec<String>>)
    ensures
        r is None,
{
    None
}

/// A folder picker cannot be shown: the filesystem is out of reach.
pub fn select_folder_dialog(_dialog: &FileDialog) -> (r: Option<String>)
    ensures
        r is None,
{
    None
}

/// No built-in color picker exists on this backend.
pub fn color_chooser_dialog(_chooser: &ColorChooser) -> (r: Option<(String, [u8; 3])>)
    ensures
        r is None,
{
    None
}

} // verus!
