//! Media attachments: where their files lie, and who may remove them.

use vstd::prelude::*;
use crate::model::{Contributor, Timestamp};
use crate::ownership::{has_admin_role, is_admin};
use crate::text::{chars_of, string_of_range};

verus! {

/// What is kept of an uploaded file beside the file itself.
#[derive(Debug)]
pub struct MediaAttachment {
    pub id: String,
    /// The path under which the file is served.
    pub file_path: String,
    /// The file extension.
    pub file_format: String,
    pub original_filename: String,
    pub file_size: i64,
    pub summary: String,
    pub tags: String,
    pub uploaded_at: Timestamp,
}

/// The two folders under which the files of attachment `id` lie: the first
/// two characters of the identifier and the two after them. An identifier of
/// fewer than four characters has no folders.
pub open spec fn folders_of(id: Seq<char>) -> Option<(Seq<char>, Seq<char>)> {
    if id.len() < 4 {
        None
    } else {
        Some((id.subrange(0, 2), id.subrange(2, 4)))
    }
}

/// The folders of an attachment.
pub fn attachment_folders(id: &str) -> (r: Option<(String, String)>)
    ensures
        match r {
            Some(pair) => folders_of(id@) == Some((pair.0@, pair.1@)),
            None => folders_of(id@) is None,
        },
{
    let chars = chars_of(id);
    if chars.len() < 4 {
        None
    } else {
        Some((string_of_range(&chars, 0, 2), string_of_range(&chars, 2, 4)))
    }
}

/// The path under which the file of attachment `id` with extension
/// `extension` is served.
pub open spec fn served_path(id: Seq<char>, extension: Seq<char>) -> Option<Seq<char>> {
    match folders_of(id) {
        Some((first, second)) => Some(
            "/media/attachments/"@ + first + "/"@ + second + "/"@ + id + "."@ + extension,
        ),
        None => None,
    }
}

/// The path under which an attachment is served.
pub fn display_path(id: &str, extension: &str) -> (r: Option<String>)
    ensures
        match r {
            Some(path) => served_path(id@, extension@) == Some(path@),
            None => served_path(id@, extension@) is None,
        },
{
    match attachment_folders(id) {
        Some((first, second)) => {
            let mut path = "/media/attachments/".to_owned();
            path.append(first.as_str());
            path.append("/");
            path.append(second.as_str());
            path.append("/");
            path.append(id);
            path.append(".");
            path.append(extension);
            Some(path)
        },
        None => None,
    }
}

/// Whether `user` may remove an attachment: its owner may, and so may an
/// administrator.
pub fn may_delete_media(user: &Contributor, is_owner: bool) -> (b: bool)
    ensures
        b == (is_owner || is_admin(user.role@)),
{
    is_owner || has_admin_role(user)
}

} // verus!
