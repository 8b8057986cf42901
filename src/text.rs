use vstd::prelude::*;

use crate::decimal::{decimal, push_decimal};

verus! {

/// What `std::path::Path::file_name` gives for a path: its last component,
/// or nothing when the path ends in `..` or is a root or prefix alone.
pub uninterp spec fn file_name_of(path: Seq<char>) -> Option<Seq<char>>;

/// What `str::lines` gives for a text: its lines, without their endings.
pub uninterp spec fn lines_of(text: Seq<char>) -> Seq<Seq<char>>;

/// Relies on `std::path::Path::file_name` for the last component of a path.
/// The path comes from a `str`, so the component is valid UTF-8 and the
/// conversion back to `String` loses nothing.
#[verifier::external_body]
fn file_name(path: &str) -> (r: Option<String>)
    ensures
        match r {
            Some(n) => file_name_of(path@) == Some(n@),
            None => file_name_of(path@) is None,
        },
{
    match std::path::Path::new(path).file_name() {
        Some(n) => Some(n.to_string_lossy().into_owned()),
        None => None,
    }
}

/// Relies on `str::lines` to split a text into its lines.
#[verifier::external_body]
fn split_lines(text: &str) -> (r: Vec<String>)
    ensures
        r@.map_values(|l: String| l@) == lines_of(text@),
{
    text.lines().map(String::from).collect()
}

/// The name under which a file is shown: its file name, or the whole path
/// where it has none.
pub open spec fn shown_name(file_name: Option<Seq<char>>, path: Seq<char>) -> Seq<char> {
    match file_name {
        Some(n) => n,
        None => path,
    }
}

/// The name under which a file is shown, given what `Path::file_name` gave.
pub fn display_name(file_name: Option<String>, path: &String) -> (r: String)
    ensures
        r@ == shown_name(
            match file_name {
                Some(n) => Some(n@),
                None => None,
            },
            path@,
        ),
{
    match file_name {
        Some(n) => n,
        None => path.clone(),
    }
}

/// The name under which the file at `path` is shown.
pub fn display_basename(path: &String) -> (r: String)
    ensures
        r@ == shown_name(file_name_of(path@), path@),
{
    display_name(file_name(path.as_str()), path)
}

/// The status line for a decoded image.
pub open spec fn image_status_text(name: Seq<char>, width: nat, height: nat) -> Seq<char> {
    "Image: "@ + name + " ("@ + decimal(width) + "x"@ + decimal(height) + ")"@
}

/// The status line for a text file, with a note when it was not valid UTF-8.
pub open spec fn text_status_text(name: Seq<char>, lines: nat, lossy: bool) -> Seq<char> {
    "Text: "@ + name + " ("@ + decimal(lines) + " lines"@ + (if lossy {
        ", UTF-8 (lossy)"@
    } else {
        Seq::<char>::empty()
    }) + ")"@
}

/// The status line for an image that could not be decoded.
pub open spec fn image_error_text(message: Seq<char>) -> Seq<char> {
    "Error loading image: "@ + message
}

/// The status line after a folder was picked.
pub open spec fn folder_status_text(dir: Seq<char>) -> Seq<char> {
    "Folder: "@ + dir
}

pub fn image_status(name: &String, width: u32, height: u32) -> (r: String)
    ensures
        r@ == image_status_text(name@, width as nat, height as nat),
{
    let mut s = String::from_str("Image: ");
    s.append(name.as_str());
    s.append(" (");
    push_decimal(&mut s, width as u64);
    s.append("x");
    push_decimal(&mut s, height as u64);
    s.append(")");
    assert(s@ =~= image_status_text(name@, width as nat, height as nat));
    s
}

pub fn text_status(name: &String, lines: usize, lossy: bool) -> (r: String)
    ensures
        r@ == text_status_text(name@, lines as nat, lossy),
{
    let mut s = String::from_str("Text: ");
    s.append(name.as_str());
    s.append(" (");
    push_decimal(&mut s, lines as u64);
    s.append(" lines");
    if lossy {
        s.append(", UTF-8 (lossy)");
    }
    s.append(")");
    assert(s@ =~= text_status_text(name@, lines as nat, lossy));
    s
}

pub fn image_error_status(message: &String) -> (r: String)
    ensures
        r@ == image_error_text(message@),
{
    let mut s = String::from_str("Error loading image: ");
    s.append(message.as_str());
    s
}

pub fn folder_status(dir: &String) -> (r: String)
    ensures
        r@ == folder_status_text(dir@),
{
    let mut s = String::from_str("Folder: ");
    s.append(dir.as_str());
    s
}

/// One line of a text file as the viewer lists it.
pub struct NumberedLine {
    /// The line's number, counting from 1, in decimal.
    pub line_no: String,
    pub text: String,
}

/// Numbers `lines` from 1.
pub fn number_lines(lines: Vec<String>) -> (r: Vec<NumberedLine>)
    ensures
        r@.len() == lines@.len(),
        forall|i: int|
            0 <= i < r@.len() ==> (#[trigger] r@[i]).line_no@ == decimal((i + 1) as nat)
                && r@[i].text@ == lines@[i]@,
{
    let mut r: Vec<NumberedLine> = Vec::new();
    let mut i: usize = 0;
    while i < lines.len()
        invariant
            0 <= i <= lines.len(),
            r@.len() == i,
            forall|k: int|
                0 <= k < i ==> (#[trigger] r@[k]).line_no@ == decimal((k + 1) as nat)
                    && r@[k].text@ == lines@[k]@,
        decreases lines.len() - i,
    {
        let mut no = String::new();
        push_decimal(&mut no, (i + 1) as u64);
        r.push(NumberedLine { line_no: no, text: lines[i].clone() });
        i += 1;
    }
    r
}

/// The lines of `text`, numbered from 1.
pub fn numbered_lines(text: &String) -> (r: Vec<NumberedLine>)
    ensures
        r@.len() == lines_of(text@).len(),
        forall|i: int|
            0 <= i < r@.len() ==> (#[trigger] r@[i]).line_no@ == decimal((i + 1) as nat)
                && r@[i].text@ == lines_of(text@)[i],
{
    let lines = split_lines(text.as_str());
    let r = number_lines(lines);
    proof {
        assert forall|i: int| 0 <= i < r@.len() implies r@[i].text@ == lines_of(text@)[i] by {
            assert(lines@.map_values(|l: String| l@)[i] == lines@[i]@);
        }
    }
    r
}

} // verus!
