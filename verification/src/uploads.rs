//! The rules for uploaded images: which files are taken, how large they may
//! be, and under which name they are kept.

use crate::text::{chars_of, lowercase_of, str_eq, string_of, to_lowercase};
use vstd::prelude::*;
use vstd::string::StringExecFns;

verus! {

/// The largest upload that is taken, in bytes: 8 MiB.
pub const MAX_UPLOAD_BYTES: usize = 8388608;

/// What follows the last `.` of a file name; the whole name where it has no `.`.
pub open spec fn after_last_dot(name: Seq<char>) -> Seq<char>
    decreases name.len(),
{
    if name.len() == 0 {
        name
    } else if name.last() == '.' {
        Seq::<char>::empty()
    } else {
        after_last_dot(name.drop_last()).push(name.last())
    }
}

/// The extensions of the image formats that are taken.
pub open spec fn is_image_extension(extension: Seq<char>) -> bool {
    extension == "png"@ || extension == "jpg"@ || extension == "jpeg"@ || extension == "gif"@
        || extension == "webp"@ || extension == "bmp"@
}

/// The extension of a file name, in lower case: what follows the last `.`,
/// or the whole name where it has no `.`.
pub fn file_extension(name: &str) -> (extension: String)
    ensures
        extension@ == lowercase_of(after_last_dot(name@)),
{
    let chars = chars_of(name);
    let mut start: usize = chars.len();
    proof {
        assert(chars@.subrange(start as int, chars@.len() as int) =~= Seq::<char>::empty());
        lemma_after_last_dot_split(chars@, start as int);
    }
    while start > 0 && chars[start - 1] != '.'
        invariant
            start <= chars.len(),
            forall|i: int| start <= i < chars.len() ==> chars@[i] != '.',
        decreases start,
    {
        start = start - 1;
    }
    proof {
        lemma_after_last_dot_split(chars@, start as int);
    }
    let tail = string_of(&chars, start, chars.len());
    to_lowercase(tail.as_str())
}

proof fn lemma_after_last_dot_split(name: Seq<char>, start: int)
    requires
        0 <= start <= name.len(),
        forall|i: int| start <= i < name.len() ==> name[i] != '.',
    ensures
        start == 0 || name[start - 1] == '.' ==> after_last_dot(name) == name.subrange(
            start,
            name.len() as int,
        ),
    decreases name.len() - start,
{
    if start == 0 || name[start - 1] == '.' {
        if name.len() == start {
            if start == 0 {
                assert(name.subrange(0, 0) =~= name);
            } else {
                assert(name.last() == '.');
                assert(name.subrange(start, name.len() as int) =~= Seq::<char>::empty());
            }
        } else {
            let shorter = name.drop_last();
            assert forall|i: int| start <= i < shorter.len() implies shorter[i] != '.' by {
                assert(shorter[i] == name[i]);
            }
            if start > 0 {
                assert(shorter[start - 1] == name[start - 1]);
            }
            lemma_after_last_dot_split(shorter, start);
            assert(shorter.subrange(start, shorter.len() as int).push(name.last()) =~= name.subrange(
                start,
                name.len() as int,
            ));
        }
    }
}

/// Whether files with this extension are taken.
pub fn is_allowed_extension(extension: &str) -> (allowed: bool)
    ensures
        allowed == is_image_extension(extension@),
{
    str_eq(extension, "png") || str_eq(extension, "jpg") || str_eq(extension, "jpeg") || str_eq(
        extension,
        "gif",
    ) || str_eq(extension, "webp") || str_eq(extension, "bmp")
}

/// The size of an upload after one more chunk, where it is still within
/// `MAX_UPLOAD_BYTES`; nothing where the chunk takes it over the limit.
pub fn add_chunk(total: usize, chunk: usize) -> (grown: Option<usize>)
    ensures
        grown == (if total + chunk <= MAX_UPLOAD_BYTES {
            Some((total + chunk) as usize)
        } else {
            None
        }),
{
    if total > MAX_UPLOAD_BYTES || chunk > MAX_UPLOAD_BYTES - total {
        None
    } else {
        Some(total + chunk)
    }
}

/// The name under which an upload is kept: the uploader's id, `_`, a unique
/// part, `.`, and the extension.
pub fn stored_filename(user_id: &str, unique: &str, extension: &str) -> (name: String)
    ensures
        name@ == user_id@ + "_"@ + unique@ + "."@ + extension@,
{
    let mut name = user_id.to_owned();
    name.append("_");
    name.append(unique);
    name.append(".");
    name.append(extension);
    name
}

/// The address under which a kept file is served.
pub fn upload_url(filename: &str) -> (url: String)
    ensures
        url@ == "/uploads/"@ + filename@,
{
    let mut url = "/uploads/".to_owned();
    url.append(filename);
    url
}

} // verus!
