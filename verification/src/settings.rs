//! The settings that administrators change at run time, and the rules for
//! uploads that follow from them.

use vstd::prelude::*;
use crate::config::{char_is_alphanumeric, is_alphanumeric};
use crate::text::{chars_of, same_text, split_trimmed, texts, trimmed_pieces, trim_chars, trim_spec};

verus! {

/// The settings as they are shown.
#[derive(Debug)]
pub struct Settings {
    pub contributor_path_prefix: String,
    pub max_file_upload_size_mb: String,
    /// Comma-separated MIME types; empty where uploads are switched off.
    pub allowed_mime_types: String,
}

/// A stored value, or `default` where the setting is not stored.
pub open spec fn or_default(stored: Option<String>, default: Seq<char>) -> Seq<char> {
    match stored {
        Some(s) => s@,
        None => default,
    }
}

fn stored_or(stored: Option<String>, default: &str) -> (r: String)
    ensures
        r@ == or_default(stored, default@),
{
    match stored {
        Some(s) => s,
        None => default.to_owned(),
    }
}

/// The settings from what the store holds. A setting that is not stored
/// has its default; for MIME types that is the empty list, which allows no
/// upload.
pub fn get_settings(prefix: Option<String>, max_size: Option<String>, mime_types: Option<String>) -> (r: Settings)
    ensures
        r.contributor_path_prefix@ == or_default(prefix, "default-path-not-found"@),
        r.max_file_upload_size_mb@ == or_default(max_size, "10"@),
        r.allowed_mime_types@ == or_default(mime_types, ""@),
{
    Settings {
        contributor_path_prefix: stored_or(prefix, "default-path-not-found"),
        max_file_upload_size_mb: stored_or(max_size, "10"),
        allowed_mime_types: stored_or(mime_types, ""),
    }
}

/// The number that a run of decimal digits stands for.
pub open spec fn digits_value(s: Seq<char>) -> nat
    decreases s.len(),
{
    if s.len() == 0 {
        0
    } else {
        (digits_value(s.drop_last()) * 10 + (s.last() as int - '0' as int)) as nat
    }
}

/// Whether every character is a decimal digit.
pub open spec fn all_digits(s: Seq<char>) -> bool {
    forall|i: int| 0 <= i < s.len() ==> '0' <= #[trigger] s[i] && s[i] <= '9'
}

/// The digits of a number text: what follows an optional plus sign.
pub open spec fn unsigned_part(s: Seq<char>) -> Seq<char> {
    if s.len() > 0 && s[0] == '+' {
        s.drop_first()
    } else {
        s
    }
}

/// The whole number that `s` is, as `str::parse::<u64>` reads it: an
/// optional plus sign, then at least one decimal digit and nothing else,
/// with a value that fits.
pub open spec fn whole_number(s: Seq<char>) -> Option<u64> {
    let d = unsigned_part(s);
    if d.len() > 0 && all_digits(d) && digits_value(d) <= u64::MAX {
        Some(digits_value(d) as u64)
    } else {
        None
    }
}

proof fn lemma_digits_grow(s: Seq<char>, n: int)
    requires
        all_digits(s),
        0 <= n <= s.len(),
    ensures
        digits_value(s.take(n)) <= digits_value(s),
    decreases s.len() - n,
{
    if n < s.len() {
        lemma_digits_grow(s, n + 1);
        let more = s.take(n + 1);
        assert(more.drop_last() == s.take(n));
        assert(more.last() == s[n]);
    } else {
        assert(s.take(n) == s);
    }
}

/// Reads a whole number.
#[verifier::loop_isolation(false)]
pub fn parse_whole_number(text: &str) -> (r: Option<u64>)
    ensures
        r == whole_number(text@),
{
    let chars = chars_of(text);
    let start: usize = if chars.len() > 0 && chars[0] == '+' {
        1
    } else {
        0
    };
    let ghost d = unsigned_part(text@);
    assert(d == chars@.skip(start as int));
    if chars.len() == start {
        return None;
    }
    let mut acc: u64 = 0;
    let mut i: usize = start;
    assert(d.take(0) =~= Seq::<char>::empty());
    while i < chars.len()
        invariant
            start <= i <= chars.len(),
            d == chars@.skip(start as int),
            acc == digits_value(d.take(i - start)),
            forall|k: int| 0 <= k < i - start ==> '0' <= #[trigger] d[k] && d[k] <= '9',
        decreases chars.len() - i,
    {
        let c: char = chars[i];
        assert(d[i - start] == c);
        if !('0' <= c && c <= '9') {
            return None;
        }
        let digit: u64 = (c as u32 - '0' as u32) as u64;
        proof {
            let more = d.take(i - start + 1);
            assert(more.drop_last() == d.take(i - start));
            assert(more.last() == c);
        }
        if acc > (0xffff_ffff_ffff_ffff - digit) / 10 {
            proof {
                let more = d.take(i - start + 1);
                assert(digits_value(more) > u64::MAX);
                if all_digits(d) {
                    lemma_digits_grow(d, i - start + 1);
                }
            }
            return None;
        }
        acc = acc * 10 + digit;
        i += 1;
    }
    proof {
        assert(d.take(d.len() as int) == d);
    }
    Some(acc)
}

/// What is wrong with a change of the settings.
#[derive(Clone, Copy, Debug, PartialEq, Eq, Structural)]
pub enum SettingsIssue {
    /// The contributor prefix is empty or holds something other than
    /// letters, numbers and hyphens.
    Prefix,
    /// The upload limit is no whole number.
    MaxSize,
}

/// Whether `prefix` can be the path prefix of the contributor pages.
pub open spec fn is_contributor_prefix(prefix: Seq<char>) -> bool {
    prefix.len() > 0 && forall|i: int|
        0 <= i < prefix.len() ==> is_alphanumeric(#[trigger] prefix[i]) || prefix[i] == '-'
}

/// Checks a change of the settings: first the prefix, then the upload limit.
pub fn check_settings(prefix: &str, max_size: &str) -> (r: Result<(), SettingsIssue>)
    ensures
        r == if !is_contributor_prefix(prefix@) {
            Err::<(), SettingsIssue>(SettingsIssue::Prefix)
        } else if whole_number(max_size@) is None {
            Err::<(), SettingsIssue>(SettingsIssue::MaxSize)
        } else {
            Ok::<(), SettingsIssue>(())
        },
{
    let chars = chars_of(prefix);
    if chars.len() == 0 {
        return Err(SettingsIssue::Prefix);
    }
    let mut i: usize = 0;
    while i < chars.len()
        invariant
            i <= chars.len(),
            chars@ == prefix@,
            forall|k: int| 0 <= k < i ==> is_alphanumeric(#[trigger] prefix@[k]) || prefix@[k] == '-',
        decreases chars.len() - i,
    {
        let c: char = chars[i];
        if !(char_is_alphanumeric(c) || c == '-') {
            assert(!(is_alphanumeric(prefix@[i as int]) || prefix@[i as int] == '-'));
            return Err(SettingsIssue::Prefix);
        }
        i += 1;
    }
    if parse_whole_number(max_size).is_none() {
        Err(SettingsIssue::MaxSize)
    } else {
        Ok(())
    }
}

/// The largest upload in bytes for the stored limit in megabytes: ten
/// megabytes where the setting is no whole number, and never more than the
/// largest number there is.
pub open spec fn upload_limit(max_size_mb: Seq<char>) -> u64 {
    let mb = match whole_number(max_size_mb) {
        Some(n) => n,
        None => 10,
    };
    if mb * 1024 * 1024 > u64::MAX {
        u64::MAX
    } else {
        (mb * 1024 * 1024) as u64
    }
}

/// The largest upload in bytes.
pub fn upload_limit_bytes(max_size_mb: &str) -> (r: u64)
    ensures
        r == upload_limit(max_size_mb@),
{
    let mb: u64 = match parse_whole_number(max_size_mb) {
        Some(n) => n,
        None => 10,
    };
    if mb > 0xffff_ffff_ffff_ffff / (1024 * 1024) {
        0xffff_ffff_ffff_ffff
    } else {
        mb * 1024 * 1024
    }
}

/// The file extension under which an upload of a MIME type is stored. The
/// list is fixed, so that no setting can make an upload executable.
pub open spec fn safe_extension(mime_type: Seq<char>) -> Option<Seq<char>> {
    if mime_type == "application/pdf"@ {
        Some("pdf"@)
    } else if mime_type == "application/zip"@ {
        Some("zip"@)
    } else if mime_type == "audio/mpeg"@ {
        Some("mp3"@)
    } else if mime_type == "audio/wav"@ {
        Some("wav"@)
    } else if mime_type == "image/gif"@ {
        Some("gif"@)
    } else if mime_type == "image/jpeg"@ {
        Some("jpg"@)
    } else if mime_type == "image/png"@ {
        Some("png"@)
    } else if mime_type == "image/webp"@ {
        Some("webp"@)
    } else if mime_type == "model/gltf-binary"@ {
        Some("glb"@)
    } else if mime_type == "model/obj"@ {
        Some("obj"@)
    } else if mime_type == "video/mp4"@ {
        Some("mp4"@)
    } else if mime_type == "video/webm"@ {
        Some("webm"@)
    } else {
        None
    }
}

/// Maps a MIME type to the file extension under which it is stored.
pub fn mime_to_safe_extension(mime_type: &str) -> (r: Option<&'static str>)
    ensures
        match r {
            Some(ext) => safe_extension(mime_type@) == Some(ext@),
            None => safe_extension(mime_type@) is None,
        },
{
    if same_text(mime_type, "application/pdf") {
        Some("pdf")
    } else if same_text(mime_type, "application/zip") {
        Some("zip")
    } else if same_text(mime_type, "audio/mpeg") {
        Some("mp3")
    } else if same_text(mime_type, "audio/wav") {
        Some("wav")
    } else if same_text(mime_type, "image/gif") {
        Some("gif")
    } else if same_text(mime_type, "image/jpeg") {
        Some("jpg")
    } else if same_text(mime_type, "image/png") {
        Some("png")
    } else if same_text(mime_type, "image/webp") {
        Some("webp")
    } else if same_text(mime_type, "model/gltf-binary") {
        Some("glb")
    } else if same_text(mime_type, "model/obj") {
        Some("obj")
    } else if same_text(mime_type, "video/mp4") {
        Some("mp4")
    } else if same_text(mime_type, "video/webm") {
        Some("webm")
    } else {
        None
    }
}

/// Why an upload is not taken.
#[derive(Clone, Copy, Debug, PartialEq, Eq, Structural)]
pub enum UploadIssue {
    /// No MIME type is configured: uploads are switched off.
    Disabled,
    /// The MIME type of the file is not among the configured ones.
    UnsupportedType,
    /// The MIME type is configured but has no safe extension.
    NoSafeExtension,
    /// A mandatory text field is empty.
    EmptyField,
    /// A text field is longer than its limit.
    FieldTooLong,
    /// The file is larger than the upload limit.
    TooLarge,
}

/// Whether an upload that has grown to `size` bytes may go on: it is
/// stopped as soon as it is larger than the limit.
pub fn check_upload_size(size: u64, max_size_mb: &str) -> (r: Result<(), UploadIssue>)
    ensures
        r == if size > upload_limit(max_size_mb@) {
            Err::<(), UploadIssue>(UploadIssue::TooLarge)
        } else {
            Ok::<(), UploadIssue>(())
        },
{
    if size > upload_limit_bytes(max_size_mb) {
        Err(UploadIssue::TooLarge)
    } else {
        Ok(())
    }
}

/// The extension under which a file of type `content_type` is stored, or
/// why it is not taken, for the configured list of MIME types.
pub open spec fn admission(allowed_mime_types: Seq<char>, content_type: Seq<char>) -> Result<
    Seq<char>,
    UploadIssue,
> {
    if allowed_mime_types.len() == 0 {
        Err(UploadIssue::Disabled)
    } else if !trimmed_pieces(allowed_mime_types, ',').contains(content_type) {
        Err(UploadIssue::UnsupportedType)
    } else {
        match safe_extension(content_type) {
            Some(ext) => Ok(ext),
            None => Err(UploadIssue::NoSafeExtension),
        }
    }
}

/// Decides whether a file of type `content_type` is taken.
pub fn admit_upload(allowed_mime_types: &str, content_type: &str) -> (r: Result<&'static str, UploadIssue>)
    ensures
        match r {
            Ok(ext) => admission(allowed_mime_types@, content_type@) == Ok::<Seq<char>, UploadIssue>(
                ext@,
            ),
            Err(e) => admission(allowed_mime_types@, content_type@) == Err::<Seq<char>, UploadIssue>(
                e,
            ),
        },
{
    if allowed_mime_types.is_empty() {
        return Err(UploadIssue::Disabled);
    }
    let allowed = split_trimmed(allowed_mime_types, ',');
    let mut found = false;
    let mut i: usize = 0;
    while i < allowed.len() && !found
        invariant
            i <= allowed.len(),
            texts(allowed@) == trimmed_pieces(allowed_mime_types@, ','),
            found ==> texts(allowed@).contains(content_type@),
            !found ==> forall|k: int| 0 <= k < i ==> texts(allowed@)[k] != content_type@,
        decreases allowed.len() - i, !found as int,
    {
        if same_text(allowed[i].as_str(), content_type) {
            assert(texts(allowed@)[i as int] == content_type@);
            found = true;
        } else {
            i += 1;
        }
    }
    if !found {
        return Err(UploadIssue::UnsupportedType);
    }
    match mime_to_safe_extension(content_type) {
        Some(ext) => Ok(ext),
        None => Err(UploadIssue::NoSafeExtension),
    }
}

/// The longest text, in bytes, that an upload's field may hold: 500 for the
/// summary, 200 for the tags, and no limit for any other field.
pub open spec fn field_limit(field_name: Seq<char>) -> Option<nat> {
    if field_name == "summary"@ {
        Some(500)
    } else if field_name == "tags"@ {
        Some(200)
    } else {
        None
    }
}

/// Whether a text field of an upload is taken: it must hold more than white
/// space and must not be longer than its limit.
pub fn check_upload_field(field_name: &str, value: &str) -> (r: Result<(), UploadIssue>)
    ensures
        r == if trim_spec(value@).len() == 0 {
            Err::<(), UploadIssue>(UploadIssue::EmptyField)
        } else if field_limit(field_name@) matches Some(limit) && value.len() > limit {
            Err::<(), UploadIssue>(UploadIssue::FieldTooLong)
        } else {
            Ok::<(), UploadIssue>(())
        },
{
    proof {
        reveal_strlit("summary");
        reveal_strlit("tags");
    }
    let trimmed = trim_chars(&chars_of(value));
    if trimmed.len() == 0 {
        return Err(UploadIssue::EmptyField);
    }
    if same_text(field_name, "summary") && value.len() > 500 {
        return Err(UploadIssue::FieldTooLong);
    }
    if same_text(field_name, "tags") && value.len() > 200 {
        assert("tags"@.len() == 4 && "summary"@.len() == 7);
        assert(field_limit(field_name@) == Some(200nat));
        return Err(UploadIssue::FieldTooLong);
    }
    assert("tags"@.len() == 4 && "summary"@.len() == 7);
    Ok(())
}

} // verus!
