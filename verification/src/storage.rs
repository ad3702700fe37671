//! Where the files of an order lie in the object store, and what kind of
//! file a name stands for.

use vstd::prelude::*;
use crate::bindings::lowercase;
use crate::bindings::new_uuid;
use crate::bindings::to_lowercase;
use crate::error::RequestError;
use crate::order_item::Mode;
use crate::text::extension;
use crate::text::extension_of;
use crate::text::push_zero_padded;
use crate::text::same_text;
use crate::text::texts;
use crate::text::zero_padded;

verus! {

impl Mode {
    /// The name of the track in a path.
    pub open spec fn spec_folder(self) -> Seq<char> {
        match self {
            Mode::Original => "original"@,
            Mode::Processed => "processed"@,
        }
    }

    /// The name of the track in a path.
    pub fn folder(self) -> (name: &'static str)
        ensures
            name@ == self.spec_folder(),
    {
        match self {
            Mode::Original => "original",
            Mode::Processed => "processed",
        }
    }
}

/// The folder of track `mode` of order `order_id`: a slash, the number of
/// the order with at least six digits, a slash, and the name of the track.
pub open spec fn prefix(order_id: u64, mode: Mode) -> Seq<char> {
    "/"@ + zero_padded(order_id as nat, 6) + "/"@ + mode.spec_folder()
}

/// The path of the file `file_name` in the folder `prefix`.
pub open spec fn object_path(prefix: Seq<char>, file_name: Seq<char>) -> Seq<char> {
    prefix + "/"@ + file_name
}

/// The name under which a file is stored: an identifier, a dot, and what
/// follows the last dot of the name it came with.
pub open spec fn stored_name(object_id: Seq<char>, file_name: Seq<char>) -> Seq<char> {
    object_id + "."@ + extension(file_name)
}

/// The kind of file that an extension in small letters stands for.
pub open spec fn mime_of(extension: Seq<char>) -> Seq<char> {
    if extension == "jpg"@ || extension == "jpeg"@ {
        "image/jpeg"@
    } else if extension == "png"@ {
        "image/png"@
    } else {
        "application/octet-stream"@
    }
}

/// What tells a browser to save a download under the name `file_name`.
pub open spec fn attachment(file_name: Seq<char>) -> Seq<char> {
    "attachment; filename=\""@ + file_name + "\""@
}

/// The folder of track `mode` of order `order_id`.
pub fn get_prefix(order_id: u64, mode: Mode) -> (path: String)
    ensures
        path@ == prefix(order_id, mode),
{
    let mut path = String::from_str("/");
    push_zero_padded(&mut path, order_id, 6);
    path.append("/");
    path.append(mode.folder());
    path
}

/// The path of the file `file_name` in the folder `prefix`.
pub fn object_path_for(prefix: &str, file_name: &str) -> (path: String)
    ensures
        path@ == object_path(prefix@, file_name@),
{
    let mut path = String::from_str(prefix);
    path.append("/");
    path.append(file_name);
    path
}

/// The name under which the file `file_name` is stored with the identifier
/// `object_id`.
pub fn stored_name_for(object_id: &str, file_name: &str) -> (name: String)
    ensures
        name@ == stored_name(object_id@, file_name@),
{
    let ext = extension_of(file_name);
    let mut name = String::from_str(object_id);
    name.append(".");
    name.append(ext.as_str());
    name
}

/// A name under which to store the file `file_name`: a fresh identifier, a
/// dot, and what follows the last dot of `file_name`.
pub fn new_stored_name(file_name: &str) -> (name: String)
    ensures
        exists|object_id: Seq<char>| name@ == stored_name(object_id, file_name@),
{
    let object_id = new_uuid();
    stored_name_for(object_id.as_str(), file_name)
}

/// The kind of file that `extension`, in small letters, stands for.
pub fn mime_for_extension(extension: &str) -> (mime: String)
    ensures
        mime@ == mime_of(extension@),
{
    if same_text(extension, "jpg") || same_text(extension, "jpeg") {
        String::from_str("image/jpeg")
    } else if same_text(extension, "png") {
        String::from_str("image/png")
    } else {
        String::from_str("application/octet-stream")
    }
}

/// The kind of file that the name `file_name` stands for, by what follows
/// its last dot, in small or capital letters.
///
/// Every name has such a part, so the answer is always there.
pub fn get_mime_type(file_name: String) -> (mime: Result<String, RequestError>)
    ensures
        mime matches Ok(kind) && kind@ == mime_of(lowercase(extension(file_name@))),
{
    let ext = extension_of(file_name.as_str());
    let lower = to_lowercase(ext.as_str());
    Ok(mime_for_extension(lower.as_str()))
}

/// What tells a browser to save a download under the name `file_name`.
pub fn attachment_for(file_name: &str) -> (header: String)
    ensures
        header@ == attachment(file_name@),
{
    let mut header = String::from_str("attachment; filename=\"");
    header.append(file_name);
    header.append("\"");
    header
}

/// One page of a listing of the object store: the folders and the files
/// found under a path.
#[derive(Debug, Clone, PartialEq, Eq)]
pub struct ListingPage {
    pub folders: Vec<String>,
    pub files: Vec<String>,
}

/// The names of one page, as plain values.
pub open spec fn page_names(page: ListingPage) -> Seq<Seq<char>> {
    texts(page.folders@) + texts(page.files@)
}

/// The names of the first `count` pages of a listing: of each page first
/// the folders, then the files.
pub open spec fn listed_names(pages: Seq<ListingPage>, count: nat) -> Seq<Seq<char>>
    decreases count,
{
    if count == 0 {
        Seq::empty()
    } else {
        listed_names(pages, (count - 1) as nat) + page_names(pages[count - 1])
    }
}

/// Appends copies of `more` to `list`.
fn push_names(list: &mut Vec<String>, more: &Vec<String>)
    ensures
        texts(final(list)@) == texts(old(list)@) + texts(more@),
{
    let mut k: usize = 0;
    proof {
        assert(texts(list@) =~= texts(old(list)@) + texts(more@.take(0)));
    }
    while k < more.len()
        invariant
            k <= more.len(),
            texts(list@) == texts(old(list)@) + texts(more@.take(k as int)),
        decreases more.len() - k,
    {
        let ghost before = texts(list@);
        list.push(more[k].clone());
        proof {
            assert(texts(list@) =~= before.push(more@[k as int]@));
            assert(texts(more@.take(k + 1)) =~= texts(more@.take(k as int)).push(
                more@[k as int]@,
            ));
        }
        k += 1;
    }
    proof {
        assert(more@.take(k as int) =~= more@);
    }
}

/// What a listing of the object store has found: of each page first the
/// folders, then the files.
pub fn get_files(pages: &Vec<ListingPage>) -> (found: Vec<String>)
    ensures
        texts(found@) == listed_names(pages@, pages@.len()),
{
    let mut found: Vec<String> = Vec::new();
    let mut k: usize = 0;
    proof {
        assert(texts(found@) =~= listed_names(pages@, 0));
    }
    while k < pages.len()
        invariant
            k <= pages.len(),
            texts(found@) == listed_names(pages@, k as nat),
        decreases pages.len() - k,
    {
        push_names(&mut found, &pages[k].folders);
        push_names(&mut found, &pages[k].files);
        proof {
            assert(texts(pages@[k as int].folders@) + texts(pages@[k as int].files@) =~= page_names(
                pages@[k as int],
            ));
            assert(texts(found@) =~= listed_names(pages@, k as nat) + page_names(
                pages@[k as int],
            ));
        }
        k += 1;
    }
    found
}

} // verus!
