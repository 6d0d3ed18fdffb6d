//! Uploads: size limits, accepted image types, stored file names and the
//! content type under which a stored file is served.
use vstd::prelude::*;
use crate::error::AppError;
use crate::text::{alphanumeric, char_is_alphanumeric, concat3, decimal, decimal_string, push_char, push_text, str_eq};

verus! {

/// Largest accepted image, in bytes (10 MiB).
pub const MAX_IMAGE_SIZE: usize = 10485760;

/// Whether `s` is one of the accepted image MIME types.
pub open spec fn is_allowed_image_type(s: Seq<char>) -> bool {
    s == "image/png"@ || s == "image/jpeg"@ || s == "image/gif"@ || s == "image/webp"@
}

/// Accepts a declared content type when it is PNG, JPEG, GIF or WebP; any
/// other type, or none, is a `BadRequest` that says which types are accepted.
pub fn validate_image_content_type(content_type: Option<&str>) -> (res: Result<(), AppError>)
    ensures
        match content_type {
            Some(ct) => if is_allowed_image_type(ct@) {
                res is Ok
            } else {
                res == Err::<(), AppError>(AppError::BadRequest(res->Err_0->BadRequest_0))
                    && res->Err_0->BadRequest_0@ == "Type de fichier non autorisé : "@ + ct@
                    + ". Types acceptés : PNG, JPEG, GIF, WebP"@
            },
            None => res == Err::<(), AppError>(AppError::BadRequest(res->Err_0->BadRequest_0))
                && res->Err_0->BadRequest_0@
                == "Type de fichier non spécifié. Types acceptés : PNG, JPEG, GIF, WebP"@,
        },
{
    match content_type {
        Some(ct) => {
            if str_eq(ct, "image/png") || str_eq(ct, "image/jpeg") || str_eq(ct, "image/gif")
                || str_eq(ct, "image/webp") {
                Ok(())
            } else {
                Err(
                    AppError::BadRequest(
                        concat3(
                            "Type de fichier non autorisé : ",
                            ct,
                            ". Types acceptés : PNG, JPEG, GIF, WebP",
                        ),
                    ),
                )
            }
        },
        None => Err(
            AppError::BadRequest(
                "Type de fichier non spécifié. Types acceptés : PNG, JPEG, GIF, WebP".to_owned(),
            ),
        ),
    }
}

/// The message refusing a file larger than `max_size` bytes, which names the
/// limit in whole mebibytes.
pub open spec fn too_large_message(max_size: usize) -> Seq<char> {
    "Fichier trop volumineux (max "@ + decimal((max_size / 1024 / 1024) as nat) + " Mo)"@
}

fn too_large(max_size: usize) -> (res: AppError)
    ensures
        res == AppError::BadRequest(res->BadRequest_0),
        res->BadRequest_0@ == too_large_message(max_size),
{
    let mb = decimal_string((max_size / 1024 / 1024) as u64);
    AppError::BadRequest(concat3("Fichier trop volumineux (max ", mb.as_str(), " Mo)"))
}

/// Accepts one more chunk of `chunk_len` bytes after `received` bytes when the
/// total stays within `max_size`; otherwise the upload is too large.
pub fn check_chunk_fits(received: usize, chunk_len: usize, max_size: usize) -> (res: Result<
    (),
    AppError,
>)
    ensures
        res is Ok <==> received + chunk_len <= max_size,
        res matches Err(e) ==> e == AppError::BadRequest(e->BadRequest_0)
            && e->BadRequest_0@ == too_large_message(max_size),
{
    if chunk_len > max_size || received > max_size - chunk_len {
        Err(too_large(max_size))
    } else {
        Ok(())
    }
}

/// Accepts an uploaded file of `size` bytes when it is at most `max_size`.
pub fn check_upload_size(size: usize, max_size: usize) -> (res: Result<(), AppError>)
    ensures
        res is Ok <==> size <= max_size,
        res matches Err(e) ==> e == AppError::BadRequest(e->BadRequest_0)
            && e->BadRequest_0@ == too_large_message(max_size),
{
    if size > max_size {
        Err(too_large(max_size))
    } else {
        Ok(())
    }
}

/// How one character of a file name is stored: kept when alphanumeric or one
/// of `.`, `-`, `_`, replaced by `_` otherwise.
pub open spec fn sanitized_char(c: char) -> char {
    if alphanumeric(c) || c == '.' || c == '-' || c == '_' {
        c
    } else {
        '_'
    }
}

/// The stored form of a file name: its first 50 characters, sanitized.
pub open spec fn sanitized(name: Seq<char>) -> Seq<char> {
    let n = if name.len() < 50 {
        name.len()
    } else {
        50
    };
    Seq::new(n, |i: int| sanitized_char(name[i]))
}

/// Cleans a file name for storage: keeps the first 50 characters, each
/// replaced by `_` unless alphanumeric or one of `.`, `-`, `_`.
pub fn sanitize_filename(name: &str) -> (res: String)
    ensures
        res@ == sanitized(name@),
{
    let len = name.unicode_len();
    let n: usize = if len < 50 {
        len
    } else {
        50
    };
    let mut res = String::new();
    let mut i: usize = 0;
    while i < n
        invariant
            i <= n,
            n <= name@.len(),
            n == (if name@.len() < 50 {
                name@.len()
            } else {
                50
            }),
            res@ =~= Seq::new(i as nat, |j: int| sanitized_char(name@[j])),
        decreases n - i,
    {
        let c = name.get_char(i);
        let keep = char_is_alphanumeric(c) || c == '.' || c == '-' || c == '_';
        if keep {
            push_char(&mut res, c);
        } else {
            push_char(&mut res, '_');
        }
        i += 1;
    }
    res
}

/// Whether a character may stand in a stored file name as it is.
pub open spec fn kept_char(c: char) -> bool {
    alphanumeric(c) || c == '.' || c == '-' || c == '_'
}

/// A sanitized name holds at most 50 characters, each alphanumeric or one of
/// `.`, `-`, `_` (so no path separator and no space); sanitizing it again
/// changes nothing.
pub proof fn law_sanitize_is_idempotent(name: Seq<char>)
    ensures
        sanitized(name).len() <= 50,
        forall|i: int| 0 <= i < sanitized(name).len() ==> kept_char(#[trigger] sanitized(name)[i]),
        forall|i: int|
            0 <= i < sanitized(name).len() ==> #[trigger] sanitized(name)[i] != '/' && sanitized(name)[i]
                != '\\' && sanitized(name)[i] != ' ',
        sanitized(sanitized(name)) == sanitized(name),
{
    let once = sanitized(name);
    assert forall|i: int| 0 <= i < once.len() implies kept_char(#[trigger] once[i]) by {
        assert(once[i] == sanitized_char(name[i]));
    }
    assert(sanitized(once) =~= once) by {
        assert forall|i: int| 0 <= i < once.len() implies #[trigger] sanitized(once)[i] == once[i] by {
            assert(kept_char(once[i]));
        }
    }
}

/// The extension of a file name as `rsplit('.')` yields it first: what
/// follows the last `.`, or the whole name when there is none.
pub open spec fn extension(name: Seq<char>) -> Seq<char>
    decreases name.len(),
{
    if name.len() == 0 {
        Seq::empty()
    } else if name.last() == '.' {
        Seq::empty()
    } else {
        extension(name.drop_last()).push(name.last())
    }
}

/// The text after the last `.` of `name`, or all of `name` without one.
pub fn file_extension(name: &str) -> (res: &str)
    ensures
        res@ == extension(name@),
{
    let len = name.unicode_len();
    let mut start: usize = len;
    while start > 0 && name.get_char(start - 1) != '.'
        invariant
            start <= len,
            len == name@.len(),
            forall|j: int| start <= j < len ==> name@[j] != '.',
        decreases start,
    {
        start -= 1;
    }
    proof {
        lemma_extension_from(name@, start as int);
    }
    name.substring_char(start, len)
}

/// The extension is the tail after position `start` when `start` is 0 or
/// follows a `.`, and no `.` comes after it.
proof fn lemma_extension_from(s: Seq<char>, start: int)
    requires
        0 <= start <= s.len(),
        start == 0 || s[start - 1] == '.',
        forall|j: int| start <= j < s.len() ==> s[j] != '.',
    ensures
        extension(s) == s.subrange(start, s.len() as int),
    decreases s.len(),
{
    if s.len() == 0 {
    } else if start == s.len() {
        assert(s.last() == '.');
    } else {
        let p = s.drop_last();
        assert forall|j: int| start <= j < p.len() implies p[j] != '.' by {
            assert(p[j] == s[j]);
        }
        if start > 0 {
            assert(p[start - 1] == s[start - 1]);
        }
        lemma_extension_from(p, start);
        assert(s.subrange(start, s.len() as int) =~= p.subrange(start, p.len() as int).push(
            s.last(),
        ));
    }
}

/// The extension of a name is the text after its last `.`: a suffix of the
/// name that holds no `.` and is either the whole name or preceded by a `.`.
pub proof fn law_extension_follows_the_last_dot(name: Seq<char>)
    ensures
        extension(name).len() <= name.len(),
        extension(name) == name.subrange(name.len() - extension(name).len(), name.len() as int),
        forall|j: int| 0 <= j < extension(name).len() ==> #[trigger] extension(name)[j] != '.',
        extension(name).len() < name.len() ==> name[name.len() - extension(name).len() - 1]
            == '.',
    decreases name.len(),
{
    if name.len() > 0 && name.last() != '.' {
        let p = name.drop_last();
        law_extension_follows_the_last_dot(p);
        let e = extension(p);
        assert(extension(name) == e.push(name.last()));
        assert(name.subrange(name.len() - extension(name).len(), name.len() as int) =~= p.subrange(
            p.len() - e.len(),
            p.len() as int,
        ).push(name.last()));
        assert forall|j: int| 0 <= j < extension(name).len() implies #[trigger] extension(name)[j]
            != '.' by {
            if j < e.len() {
                assert(extension(name)[j] == e[j]);
            }
        }
        if extension(name).len() < name.len() {
            assert(name[name.len() - extension(name).len() - 1] == p[p.len() - e.len() - 1]);
        }
    }
}

/// The extension of `prefix`, a `.`, then `ext` is `ext` when `ext` holds
/// no `.`.
proof fn lemma_extension_after_dot(prefix: Seq<char>, ext: Seq<char>)
    requires
        forall|j: int| 0 <= j < ext.len() ==> #[trigger] ext[j] != '.',
    ensures
        extension(prefix + "."@ + ext) == ext,
{
    reveal_strlit(".");
    let s = prefix + "."@ + ext;
    let start = prefix.len() as int + 1;
    assert(s[start - 1] == '.');
    assert forall|j: int| start <= j < s.len() implies s[j] != '.' by {
        assert(s[j] == ext[j - start]);
    }
    lemma_extension_from(s, start);
    assert(s.subrange(start, s.len() as int) =~= ext);
}

/// A stored file keeps the extension of the name it was uploaded under, so
/// it is served with the content type that name calls for.
pub proof fn law_stored_name_keeps_the_extension(id: Seq<char>, uploaded: Seq<char>)
    ensures
        extension(stored_name(id, uploaded)) == extension(uploaded),
        content_type_for(stored_name(id, uploaded)) == content_type_for(uploaded),
{
    law_extension_follows_the_last_dot(uploaded);
    lemma_extension_after_dot(id + "_"@ + sanitized(uploaded), extension(uploaded));
}

/// The name under which an upload is stored: a unique id, `_`, the sanitized
/// name it was uploaded under, `.` and that name's extension.
pub open spec fn stored_name(id: Seq<char>, uploaded: Seq<char>) -> Seq<char> {
    id + "_"@ + sanitized(uploaded) + "."@ + extension(uploaded)
}

/// Builds the stored name of an upload from a unique id and the name it was uploaded under.
pub fn stored_file_name(id: &str, uploaded_name: &str) -> (res: String)
    ensures
        res@ == stored_name(id@, uploaded_name@),
        res@ == id@ + "_"@ + sanitized(uploaded_name@) + "."@ + extension(uploaded_name@),
        extension(res@) == extension(uploaded_name@),
        content_type_for(res@) == content_type_for(uploaded_name@),
{
    proof {
        law_stored_name_keeps_the_extension(id@, uploaded_name@);
    }
    let sanitized = sanitize_filename(uploaded_name);
    let mut res = id.to_owned();
    push_char(&mut res, '_');
    push_text(&mut res, sanitized.as_str());
    push_char(&mut res, '.');
    push_text(&mut res, file_extension(uploaded_name));
    proof {
        reveal_strlit("_");
        reveal_strlit(".");
        assert(res@ =~= stored_name(id@, uploaded_name@));
    }
    res
}

/// Whether `c` is a lower-case hexadecimal digit.
pub open spec fn is_lower_hex(c: char) -> bool {
    ('0' <= c <= '9') || ('a' <= c <= 'f')
}

/// Whether `s` is a version 4 UUID written hyphenated in lower case: 36
/// characters, hyphens at positions 8, 13, 18 and 23, lower-case hex digits
/// elsewhere, the version digit `4` at position 14 and the variant digit
/// (`8`, `9`, `a` or `b`) at position 19.
pub open spec fn is_uuid_v4_text(s: Seq<char>) -> bool {
    &&& s.len() == 36
    &&& forall|i: int|
        0 <= i < 36 ==> (if i == 8 || i == 13 || i == 18 || i == 23 {
            #[trigger] s[i] == '-'
        } else {
            is_lower_hex(s[i])
        })
    &&& s[14] == '4'
    &&& (s[19] == '8' || s[19] == '9' || s[19] == 'a' || s[19] == 'b')
}

/// Calls `uuid::Uuid::new_v4` and renders the id with `to_string`. `new_v4`
/// draws 128 random bits and forces the version bits to 4 and the variant
/// bits to `10`; `to_string` writes the id hyphenated in lower-case hex.
/// Which id comes out is left to chance.
#[verifier::external_body]
fn new_uuid() -> (res: String)
    ensures
        is_uuid_v4_text(res@),
{
    uuid::Uuid::new_v4().to_string()
}

/// A fresh stored name for an upload: a random version 4 UUID, then the
/// uploaded name as `stored_file_name` arranges it.
pub fn new_stored_file_name(uploaded_name: &str) -> (res: String)
    ensures
        res@.len() >= 36,
        is_uuid_v4_text(res@.subrange(0, 36)),
        res@ == stored_name(res@.subrange(0, 36), uploaded_name@),
{
    let id = new_uuid();
    let res = stored_file_name(id.as_str(), uploaded_name);
    proof {
        assert(res@.subrange(0, 36) =~= id@);
    }
    res
}

/// The content type under which a stored file is served, chosen by its
/// extension.
pub open spec fn content_type_for(path: Seq<char>) -> Seq<char> {
    let ext = extension(path);
    if ext == "png"@ {
        "image/png"@
    } else if ext == "jpg"@ || ext == "jpeg"@ {
        "image/jpeg"@
    } else if ext == "gif"@ {
        "image/gif"@
    } else if ext == "webp"@ {
        "image/webp"@
    } else if ext == "mp4"@ {
        "video/mp4"@
    } else if ext == "webm"@ {
        "video/webm"@
    } else if ext == "mp3"@ {
        "audio/mpeg"@
    } else if ext == "ogg"@ {
        "audio/ogg"@
    } else if ext == "pdf"@ {
        "application/pdf"@
    } else {
        "application/octet-stream"@
    }
}

/// The content type of a stored file, chosen by its extension; unknown
/// extensions are served as `application/octet-stream`.
pub fn content_type_for_path(file_path: &str) -> (res: &'static str)
    ensures
        res@ == content_type_for(file_path@),
{
    let ext = file_extension(file_path);
    if str_eq(ext, "png") {
        "image/png"
    } else if str_eq(ext, "jpg") || str_eq(ext, "jpeg") {
        "image/jpeg"
    } else if str_eq(ext, "gif") {
        "image/gif"
    } else if str_eq(ext, "webp") {
        "image/webp"
    } else if str_eq(ext, "mp4") {
        "video/mp4"
    } else if str_eq(ext, "webm") {
        "video/webm"
    } else if str_eq(ext, "mp3") {
        "audio/mpeg"
    } else if str_eq(ext, "ogg") {
        "audio/ogg"
    } else if str_eq(ext, "pdf") {
        "application/pdf"
    } else {
        "application/octet-stream"
    }
}

/// Whether the path `path` lies in the directory `dir`, component by
/// component, both written out in full with `sep` between components: it is
/// the directory itself, or it continues the directory's text after a
/// separator, or the directory ends with a separator (a root) that the path
/// starts with.
pub open spec fn inside_dir(path: Seq<char>, dir: Seq<char>, sep: char) -> bool {
    ||| path == dir
    ||| path.len() > dir.len() && path.subrange(0, dir.len() as int) == dir && path[dir.len() as int]
        == sep
    ||| dir.len() > 0 && dir.last() == sep && path.len() >= dir.len() && path.subrange(
        0,
        dir.len() as int,
    ) == dir
}

/// Whether a file, by its canonical path, lies in the canonical data
/// directory `dir`; files outside it are never served.
pub fn within_dir(path: &str, dir: &str, sep: char) -> (res: bool)
    ensures
        res == inside_dir(path@, dir@, sep),
{
    let plen = path.unicode_len();
    let dlen = dir.unicode_len();
    if plen < dlen {
        return false;
    }
    if !str_eq(path.substring_char(0, dlen), dir) {
        assert(path@.subrange(0, path@.len() as int) =~= path@);
        return false;
    }
    if plen == dlen {
        assert(path@ =~= dir@);
        return true;
    }
    if path.get_char(dlen) == sep {
        return true;
    }
    dlen > 0 && dir.get_char(dlen - 1) == sep
}

} // verus!
