use vstd::prelude::*;

verus! {

#[verifier::external_type_specification]
#[verifier::external_body]
pub struct ExPathBuf(std::path::PathBuf);

// No native file dialog is opened here: each picker answers `None`, as the desktop build does
// on systems other than Windows.

/// Path to save a project to.
pub fn pick_save_file() -> (r: Option<std::path::PathBuf>)
    ensures
        r is None,
{
    None
}

/// Project file to open.
pub fn pick_file() -> (r: Option<std::path::PathBuf>)
    ensures
        r is None,
{
    None
}

/// Image to import.
pub fn pick_image_file() -> (r: Option<std::path::PathBuf>)
    ensures
        r is None,
{
    None
}

/// Path to export a spritesheet to.
pub fn pick_export_file() -> (r: Option<std::path::PathBuf>)
    ensures
        r is None,
{
    None
}

/// Folder to export all spritesheets into.
pub fn pick_export_folder() -> (r: Option<std::path::PathBuf>)
    ensures
        r is None,
{
    None
}

/// Project file to open; the same as `pick_file`.
pub fn pick_open_file() -> (r: Option<std::path::PathBuf>)
    ensures
        r is None,
{
    pick_file()
}

} // verus!
