//! Which directory entries are media files.

use crate::text::{chars_of, optional_text, push_range, same_text};
use vstd::prelude::*;

verus! {

/// Whether `extension` is one of `jpg`, `JPG`, `CR3`, `mp4` and `MP4`. Case
/// counts: no other spelling is accepted.
pub open spec fn is_media_extension(extension: Seq<char>) -> bool {
    ||| extension == "jpg"@
    ||| extension == "JPG"@
    ||| extension == "CR3"@
    ||| extension == "mp4"@
    ||| extension == "MP4"@
}

/// Whether a directory entry is a media file: a regular file that has an
/// extension, and that extension is a media extension.
pub open spec fn is_media_file(is_file: bool, extension: Option<Seq<char>>) -> bool {
    is_file && extension is Some && is_media_extension(extension.unwrap())
}

/// The position of the last `'.'` of `name`, or `-1` if it has none.
pub open spec fn last_dot(name: Seq<char>) -> int
    decreases name.len(),
{
    if name.len() == 0 {
        -1
    } else if name.last() == '.' {
        name.len() - 1
    } else {
        last_dot(name.drop_last())
    }
}

/// The extension of a file name: what follows its last dot. A name without a
/// dot has none, nor has one whose only dot leads it, nor has `..`.
pub open spec fn extension_text(name: Seq<char>) -> Option<Seq<char>> {
    if last_dot(name) <= 0 || name == seq!['.', '.'] {
        None
    } else {
        Some(name.subrange(last_dot(name) + 1, name.len() as int))
    }
}

/// The extension of the file name `name`, if it has one.
pub fn extension_of(name: &str) -> (extension: Option<String>)
    ensures
        extension is None <==> extension_text(name@) is None,
        extension matches Some(text) ==> extension_text(name@) == Some(text@),
{
    let chars = chars_of(name);
    let mut end: usize = chars.len();
    proof {
        assert(chars@.take(end as int) =~= chars@);
    }
    while end > 0 && chars[end - 1] != '.'
        invariant
            end <= chars.len(),
            last_dot(chars@) == last_dot(chars@.take(end as int)),
        decreases end,
    {
        proof {
            assert(chars@.take(end as int).drop_last() =~= chars@.take(end - 1));
        }
        end -= 1;
    }
    if end <= 1 || (chars.len() == 2 && chars[0] == '.') {
        proof {
            if end > 1 {
                assert(chars@ =~= seq!['.', '.']);
            }
        }
        return None;
    }
    let mut text = String::new();
    push_range(&mut text, &chars, end, chars.len());
    Some(text)
}

/// Tells whether files with this extension are renamed.
pub fn is_allowed_extension(extension: &str) -> (allowed: bool)
    ensures
        allowed == is_media_extension(extension@),
{
    same_text(extension, "jpg") || same_text(extension, "JPG") || same_text(extension, "CR3")
        || same_text(extension, "mp4") || same_text(extension, "MP4")
}

/// Tells whether a directory entry is to be handed on for renaming.
/// `extension` is what follows the last dot of the entry's name, if
/// anything does.
pub fn is_eligible(is_file: bool, extension: Option<&str>) -> (eligible: bool)
    ensures
        eligible == is_media_file(is_file, optional_text(extension)),
{
    match extension {
        Some(text) => is_file && is_allowed_extension(text),
        None => false,
    }
}

} // verus!
