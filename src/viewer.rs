use vstd::prelude::*;

use crate::recents::pushed;
use crate::state::{push_recent, AppState};
use crate::text::{
    display_basename, file_name_of, image_error_status, image_error_text, image_status,
    image_status_text, shown_name, text_status, text_status_text,
};

verus! {

/// What loading a file gave.
pub enum Loaded {
    /// The file is of an image type and decoded to an image of this size.
    Image { width: u32, height: u32 },
    /// The file is of an image type and could not be decoded.
    ImageFailed { message: String },
    /// The file was read as text.
    Text { line_count: usize, lossy: bool },
    /// The file is not an image and could not be read as text.
    Unsupported,
}

/// Which pane the window shows after an event.
#[derive(Clone, Copy, Debug, PartialEq, Eq, Structural)]
pub enum Pane {
    Image,
    Text,
    /// The window keeps what it showed.
    Unchanged,
}

/// What the window does after a file was opened.
pub struct Opened {
    pub status: String,
    pub pane: Pane,
    /// The recently-used list changed: the window shows it anew, hides the
    /// list panel, and the list is saved.
    pub recents_changed: bool,
}

/// The status line after opening a file.
pub open spec fn open_status_text(name: Seq<char>, loaded: Loaded) -> Seq<char> {
    match loaded {
        Loaded::Image { width, height } => image_status_text(name, width as nat, height as nat),
        Loaded::ImageFailed { message } => image_error_text(message@),
        Loaded::Text { line_count, lossy } => text_status_text(name, line_count as nat, lossy),
        Loaded::Unsupported => "Unsupported file type"@,
    }
}

/// Whether opening a file with this result displays it.
pub open spec fn is_shown(loaded: Loaded) -> bool {
    loaded is Image || loaded is Text
}

/// Updates the state after the file at `path` was loaded, and says what the
/// window shows. A file that is shown becomes the current one and moves to
/// the end of the recently-used list; otherwise the state is unchanged.
pub fn open_path(state: &mut AppState, path: &String, loaded: &Loaded) -> (r: Opened)
    ensures
        r.status@ == open_status_text(shown_name(file_name_of(path@), path@), *loaded),
        r.recents_changed == is_shown(*loaded),
        r.pane == match *loaded {
            Loaded::Image { .. } => Pane::Image,
            Loaded::Text { .. } => Pane::Text,
            _ => Pane::Unchanged,
        },
        is_shown(*loaded) ==> final(state).current_view() == Some(path@)
            && final(state).recents_view() == pushed(old(state).recents_view(), path@),
        !is_shown(*loaded) ==> final(state).current_view() == old(state).current_view()
            && final(state).recents_view() == old(state).recents_view(),
{
    match loaded {
        Loaded::Image { width, height } => {
            state.set_current_path(path.clone());
            push_recent(state, path);
            let name = display_basename(path);
            Opened { status: image_status(&name, *width, *height), pane: Pane::Image, recents_changed: true }
        },
        Loaded::ImageFailed { message } => {
            Opened { status: image_error_status(message), pane: Pane::Unchanged, recents_changed: false }
        },
        Loaded::Text { line_count, lossy } => {
            state.set_current_path(path.clone());
            push_recent(state, path);
            let name = display_basename(path);
            Opened {
                status: text_status(&name, *line_count, *lossy),
                pane: Pane::Text,
                recents_changed: true,
            }
        },
        Loaded::Unsupported => {
            Opened {
                status: String::from_str("Unsupported file type"),
                pane: Pane::Unchanged,
                recents_changed: false,
            }
        },
    }
}

/// The kind of file a neighbour is looked for among.
#[derive(Clone, Copy, Debug, PartialEq, Eq, Structural)]
pub enum FileKind {
    Image,
    Text,
}

/// A request for the next or previous file of a kind beside `path` in its
/// directory.
pub struct NeighborQuery {
    pub path: String,
    pub kind: FileKind,
    pub forward: bool,
}

/// The neighbour to look for when the user steps forward or back: beside the
/// current file, among images when an image is shown and among text files
/// otherwise. Nothing when no file is current.
pub fn neighbor_query(state: &AppState, show_image: bool, forward: bool) -> (r: Option<
    NeighborQuery,
>)
    ensures
        match state.current_view() {
            None => r is None,
            Some(p) => r is Some && r->0.path@ == p && r->0.forward == forward && r->0.kind == (
            if show_image {
                FileKind::Image
            } else {
                FileKind::Text
            }),
        },
{
    match state.current_path() {
        None => None,
        Some(p) => Some(
            NeighborQuery {
                path: p,
                kind: if show_image {
                    FileKind::Image
                } else {
                    FileKind::Text
                },
                forward,
            },
        ),
    }
}

/// The theme after the user toggles it, and the status line that says so.
pub struct ThemeToggle {
    pub dark: bool,
    pub status: String,
}

pub fn toggle_theme(dark: bool) -> (r: ThemeToggle)
    ensures
        r.dark == !dark,
        r.status@ == (if dark {
            "Theme: Light"@
        } else {
            "Theme: Dark"@
        }),
{
    let status = if dark {
        String::from_str("Theme: Light")
    } else {
        String::from_str("Theme: Dark")
    };
    ThemeToggle { dark: !dark, status }
}

/// The recents panel after the user toggles it, and a hint when it opens on
/// an empty list.
pub struct RecentsToggle {
    pub show: bool,
    pub status: Option<String>,
}

pub fn toggle_recents(shown: bool, count: i32) -> (r: RecentsToggle)
    ensures
        r.show == !shown,
        r.status is Some <==> (!shown && count == 0),
        r.status is Some ==> r.status->0@ == "No recent files"@,
{
    if !shown && count == 0 {
        RecentsToggle { show: true, status: Some(String::from_str("No recent files")) }
    } else {
        RecentsToggle { show: !shown, status: None }
    }
}

/// The status line when the window opens.
pub fn ready_status() -> (r: String)
    ensures
        r@ == "Ready"@,
{
    String::from_str("Ready")
}

} // verus!
