//! Validation of untrusted input.
//!
//! Every remote URL and every uploaded filename passes through here before
//! any filesystem or process action.  The validated URL is later handed to
//! the fetch tool as one literal argument-vector entry - never through a
//! shell - so the allow-list plus metacharacter blacklist below is the whole
//! injection defence; the filename rules are the whole traversal defence.

use vstd::prelude::*;

use crate::config::UploadConfig;
use crate::strutil::extension_of;
use crate::strutil::has_pair;
use crate::strutil::last_component;
use crate::strutil::spec_decimal;
use crate::strutil::starts_with;
use crate::strutil::str_concat;
use crate::strutil::str_contains_char;
use crate::strutil::str_eq_str;
use crate::strutil::str_extension;
use crate::strutil::str_has_pair;
use crate::strutil::str_last_component;
use crate::strutil::str_starts_with;
use crate::strutil::str_trim;
use crate::strutil::trim_spec;
use crate::strutil::u64_to_string;

verus! {

/// The remote platforms a fetch may be requested from.
#[derive(Debug, Clone, Copy, PartialEq, Eq, Structural)]
pub enum RemoteKind {
    Youtube,
    Spotify,
}

/// Why a submitted URL or file was rejected.
#[derive(Debug, Clone, Copy, PartialEq, Eq, Structural)]
pub enum ValidationError {
    InvalidUrl,
    InvalidFilename,
    DisallowedExtension,
    FileTooLarge,
}

/// The blacklisted shell metacharacters: `;`, `|`, a backtick, `$`,
/// `&&` or `||`.
pub open spec fn has_shell_meta(s: Seq<char>) -> bool {
    s.contains(';') || s.contains('|') || s.contains('`') || s.contains('$') || has_pair(
        s,
        '&',
        '&',
    ) || has_pair(s, '|', '|')
}

pub open spec fn youtube_prefix_ok(s: Seq<char>) -> bool {
    starts_with(s, "https://www.youtube.com/watch?v="@) || starts_with(
        s,
        "https://youtube.com/watch?v="@,
    ) || starts_with(s, "https://youtu.be/"@) || starts_with(s, "https://m.youtube.com/watch?v="@)
}

pub open spec fn spotify_prefix_ok(s: Seq<char>) -> bool {
    starts_with(s, "https://open.spotify.com/track/"@) || starts_with(
        s,
        "https://open.spotify.com/album/"@,
    ) || starts_with(s, "https://open.spotify.com/playlist/"@) || starts_with(
        s,
        "https://open.spotify.com/artist/"@,
    )
}

/// The URL begins with one of the allow-listed scheme/host/path prefixes of
/// its source kind.
pub open spec fn url_prefix_ok(kind: RemoteKind, s: Seq<char>) -> bool {
    match kind {
        RemoteKind::Youtube => youtube_prefix_ok(s),
        RemoteKind::Spotify => spotify_prefix_ok(s),
    }
}

/// The per-kind ceiling on URL length.
pub open spec fn url_max_len(kind: RemoteKind) -> int {
    match kind {
        RemoteKind::Youtube => 200,
        RemoteKind::Spotify => 300,
    }
}

/// A trimmed URL the pipeline accepts for the given source kind.
pub open spec fn valid_remote_url(kind: RemoteKind, s: Seq<char>) -> bool {
    url_prefix_ok(kind, s) && !has_shell_meta(s) && s.len() <= url_max_len(kind)
}

/// Validate a submitted remote URL.  On success the result is the trimmed
/// URL, safe to pass as a literal process argument.
pub fn validate_remote_url(kind: RemoteKind, raw: &str) -> (r: Result<String, ValidationError>)
    ensures
        match r {
            Ok(u) => u@ == trim_spec(raw@) && valid_remote_url(kind, u@),
            Err(e) => e == ValidationError::InvalidUrl && !valid_remote_url(
                kind,
                trim_spec(raw@),
            ),
        },
{
    let url = str_trim(raw);
    let prefix_ok = match kind {
        RemoteKind::Youtube => {
            str_starts_with(url, "https://www.youtube.com/watch?v=") || str_starts_with(
                url,
                "https://youtube.com/watch?v=",
            ) || str_starts_with(url, "https://youtu.be/") || str_starts_with(
                url,
                "https://m.youtube.com/watch?v=",
            )
        },
        RemoteKind::Spotify => {
            str_starts_with(url, "https://open.spotify.com/track/") || str_starts_with(
                url,
                "https://open.spotify.com/album/",
            ) || str_starts_with(url, "https://open.spotify.com/playlist/") || str_starts_with(
                url,
                "https://open.spotify.com/artist/",
            )
        },
    };
    let has_meta = str_contains_char(url, ';') || str_contains_char(url, '|') || str_contains_char(
        url,
        '`',
    ) || str_contains_char(url, '$') || str_has_pair(url, '&', '&') || str_has_pair(url, '|', '|');
    let max_len: usize = match kind {
        RemoteKind::Youtube => 200,
        RemoteKind::Spotify => 300,
    };
    if prefix_ok && !has_meta && url.unicode_len() <= max_len {
        Ok(String::from_str(url))
    } else {
        Err(ValidationError::InvalidUrl)
    }
}

/// Law: a URL containing a blacklisted shell metacharacter is never valid,
/// whatever its prefix and length.
pub proof fn lemma_meta_never_valid(kind: RemoteKind, s: Seq<char>)
    requires
        has_shell_meta(s),
    ensures
        !valid_remote_url(kind, s),
{
}

/// Law: a URL that fails its source kind's allow-list is never valid.
pub proof fn lemma_prefix_required(kind: RemoteKind, s: Seq<char>)
    requires
        !url_prefix_ok(kind, s),
    ensures
        !valid_remote_url(kind, s),
{
}

/// A bare filename that still smells of traversal: `..`, `/` or `\`.
pub open spec fn suspicious_name(name: Seq<char>) -> bool {
    has_pair(name, '.', '.') || name.contains('/') || name.contains('\\')
}

/// The raw client-supplied filename is acceptable: its last path component
/// is non-empty and free of traversal characters.
pub open spec fn valid_upload_filename(raw: Seq<char>) -> bool {
    last_component(raw).len() > 0 && !suspicious_name(last_component(raw))
}

/// Validate a client-supplied filename.  On success the result is the bare
/// last path component, the name the file is stored under.
pub fn validate_upload_filename(raw: &str) -> (r: Result<String, ValidationError>)
    ensures
        match r {
            Ok(name) => name@ == last_component(raw@) && valid_upload_filename(raw@),
            Err(e) => e == ValidationError::InvalidFilename && !valid_upload_filename(raw@),
        },
{
    let name = str_last_component(raw);
    if name.as_str().unicode_len() == 0 {
        return Err(ValidationError::InvalidFilename);
    }
    if str_has_pair(name.as_str(), '.', '.') || str_contains_char(name.as_str(), '/')
        || str_contains_char(name.as_str(), '\\') {
        return Err(ValidationError::InvalidFilename);
    }
    Ok(name)
}

/// Law: a filename whose last path component still contains `..`, `/` or
/// `\` is always rejected.
pub proof fn lemma_traversal_rejected(raw: Seq<char>)
    requires
        suspicious_name(last_component(raw)),
    ensures
        !valid_upload_filename(raw),
{
}

/// The name's extension is on the configured allow-list.
pub open spec fn extension_allowed(name: Seq<char>, allowed: Seq<Seq<char>>) -> bool {
    allowed.contains(extension_of(name))
}

pub fn check_extension(name: &str, allowed: &Vec<String>) -> (r: bool)
    ensures
        r == extension_allowed(name@, allowed.deep_view()),
{
    let ext = str_extension(name);
    let n = allowed.len();
    let mut i: usize = 0;
    while i < n
        invariant
            i <= n == allowed.len(),
            ext@ == extension_of(name@),
            forall|k: int| 0 <= k < i ==> allowed.deep_view()[k] != ext@,
        decreases n - i,
    {
        if str_eq_str(allowed[i].as_str(), ext.as_str()) {
            assert(allowed.deep_view()[i as int] == ext@);
            assert(allowed.deep_view().contains(ext@));
            return true;
        }
        i += 1;
    }
    assert(!allowed.deep_view().contains(ext@));
    false
}

/// A rejected upload part: the error class and the exact message recorded on
/// the job and returned to the client.
#[derive(Debug)]
pub struct UploadRejection {
    pub error: ValidationError,
    pub message: String,
}

/// The message recorded when an extension is not allow-listed.
pub open spec fn spec_extension_message(name: Seq<char>) -> Seq<char> {
    "File type ."@ + extension_of(name) + " not allowed"@
}

/// The message recorded when a file exceeds the configured ceiling.
pub open spec fn spec_too_large_message(size: u64, max_mb: u64) -> Seq<char> {
    "File too large: "@ + spec_decimal((size / 1024 / 1024) as nat) + " MB (max: "@ + spec_decimal(
        max_mb as nat,
    ) + " MB)"@
}

/// The whole per-file acceptance rule: sane name, allow-listed extension,
/// size within the ceiling.
pub open spec fn spec_upload_ok(raw: Seq<char>, size: u64, upload: UploadConfig) -> bool {
    &&& valid_upload_filename(raw)
    &&& extension_allowed(last_component(raw), upload.allowed_extensions.deep_view())
    &&& size as int <= upload.max_file_size_mb as int * 1024 * 1024
}

/// The message recorded for a rejected file: the first rule it breaks.
pub open spec fn spec_upload_reject_message(
    raw: Seq<char>,
    size: u64,
    upload: UploadConfig,
) -> Seq<char> {
    if !valid_upload_filename(raw) {
        "Invalid filename: path traversal attempt detected"@
    } else if !extension_allowed(last_component(raw), upload.allowed_extensions.deep_view()) {
        spec_extension_message(last_component(raw))
    } else {
        spec_too_large_message(size, upload.max_file_size_mb)
    }
}

/// Decide the fate of one uploaded file part: sanitise the name, check the
/// extension allow-list, check the size ceiling.  Exactly the parts passing
/// all three are accepted, under their sanitised name.
pub fn check_upload_file(raw_name: &str, size: u64, upload: &UploadConfig) -> (r: Result<
    String,
    UploadRejection,
>)
    requires
        upload.max_file_size_mb as int * 1024 * 1024 <= u64::MAX as int,
    ensures
        r is Ok <==> spec_upload_ok(raw_name@, size, *upload),
        r matches Err(rej) ==> rej.message@ == spec_upload_reject_message(
            raw_name@,
            size,
            *upload,
        ),
        match r {
            Ok(name) => {
                &&& name@ == last_component(raw_name@)
                &&& valid_upload_filename(raw_name@)
                &&& extension_allowed(name@, upload.allowed_extensions.deep_view())
                &&& size as int <= upload.max_file_size_mb as int * 1024 * 1024
            },
            Err(rej) => {
                &&& !(valid_upload_filename(raw_name@) && extension_allowed(
                    last_component(raw_name@),
                    upload.allowed_extensions.deep_view(),
                ) && size as int <= upload.max_file_size_mb as int * 1024 * 1024)
                &&& (rej.error == ValidationError::InvalidFilename ==> {
                    &&& !valid_upload_filename(raw_name@)
                    &&& rej.message@ == "Invalid filename: path traversal attempt detected"@
                })
                &&& (rej.error == ValidationError::DisallowedExtension ==> {
                    &&& valid_upload_filename(raw_name@)
                    &&& !extension_allowed(
                        last_component(raw_name@),
                        upload.allowed_extensions.deep_view(),
                    )
                    &&& rej.message@ == spec_extension_message(last_component(raw_name@))
                })
                &&& (rej.error == ValidationError::FileTooLarge ==> {
                    &&& valid_upload_filename(raw_name@)
                    &&& extension_allowed(
                        last_component(raw_name@),
                        upload.allowed_extensions.deep_view(),
                    )
                    &&& size as int > upload.max_file_size_mb as int * 1024 * 1024
                    &&& rej.message@ == spec_too_large_message(size, upload.max_file_size_mb)
                })
                &&& (rej.error == ValidationError::InvalidFilename || rej.error
                    == ValidationError::DisallowedExtension || rej.error
                    == ValidationError::FileTooLarge)
            },
        },
{
    let name = match validate_upload_filename(raw_name) {
        Ok(n) => n,
        Err(_) => {
            return Err(
                UploadRejection {
                    error: ValidationError::InvalidFilename,
                    message: String::from_str("Invalid filename: path traversal attempt detected"),
                },
            );
        },
    };
    if !check_extension(name.as_str(), &upload.allowed_extensions) {
        let ext = str_extension(name.as_str());
        let head = str_concat("File type .", ext.as_str());
        let message = str_concat(head.as_str(), " not allowed");
        return Err(UploadRejection { error: ValidationError::DisallowedExtension, message });
    }
    let max_bytes = upload.max_file_size_mb * 1024 * 1024;
    if size > max_bytes {
        let size_mb = u64_to_string(size / 1024 / 1024);
        let max_mb = u64_to_string(upload.max_file_size_mb);
        let mut message = String::from_str("File too large: ");
        message = message.concat(size_mb.as_str());
        message = message.concat(" MB (max: ");
        message = message.concat(max_mb.as_str());
        message = message.concat(" MB)");
        return Err(UploadRejection { error: ValidationError::FileTooLarge, message });
    }
    Ok(name)
}

} // verus!
