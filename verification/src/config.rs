//! Deployment configuration.
//!
//! The structures mirror the on-disk configuration file; reading that file
//! and the process environment happens outside the library, which then hands
//! the raw override strings to [`Config::apply_overrides`].  The secret used
//! to sign session tokens is replaced by a freshly generated one whenever the
//! configured value is empty or still the shipped placeholder.

use vstd::prelude::*;

use crate::strutil::all_digits;
use crate::strutil::decimal_val;
use crate::strutil::parse_u64;
use crate::strutil::str_eq_str;

verus! {

#[derive(Debug, Clone)]
pub struct ServerConfig {
    pub host: String,
    pub port: u16,
}

#[derive(Debug, Clone)]
pub struct DatabaseConfig {
    pub url: String,
    pub max_connections: u32,
}

#[derive(Debug, Clone)]
pub struct PathsConfig {
    pub music_dir: String,
    pub temp_dir: String,
    pub ferric_path: String,
    pub ferric_enabled: bool,
}

#[derive(Debug, Clone)]
pub struct SecurityConfig {
    pub jwt_secret: String,
    pub session_timeout_hours: i64,
}

#[derive(Debug, Clone)]
pub struct UploadConfig {
    pub max_file_size_mb: u64,
    pub allowed_extensions: Vec<String>,
}

#[derive(Debug, Clone)]
pub struct YoutubeConfig {
    pub enabled: bool,
    pub ytdlp_path: String,
    pub audio_format: String,
    pub format_selector: String,
    pub player_client: Option<String>,
    pub extra_args: Vec<String>,
}

#[derive(Debug, Clone)]
pub struct SpotifyConfig {
    pub enabled: bool,
    pub spotdl_path: String,
    pub audio_format: String,
}

#[derive(Debug, Clone)]
pub struct Config {
    pub server: ServerConfig,
    pub database: DatabaseConfig,
    pub paths: PathsConfig,
    pub security: SecurityConfig,
    pub upload: UploadConfig,
    pub youtube: YoutubeConfig,
    pub spotify: SpotifyConfig,
}

/// One runtime-editable setting held by the persistent store.
#[derive(Debug, Clone)]
pub struct DbConfig {
    pub key: String,
    pub value: String,
}

impl YoutubeConfig {
    pub fn default_format_selector() -> (r: String)
        ensures
            r@ == "bestaudio/best"@,
    {
        String::from_str("bestaudio/best")
    }

    pub fn default_player_client() -> (r: Option<String>)
        ensures
            r.deep_view() == Some("web"@),
    {
        Some(String::from_str("web"))
    }
}

impl Config {
    /// The configured upload ceiling in bytes.
    pub fn max_file_size_bytes(&self) -> (r: u64)
        requires
            self.upload.max_file_size_mb as int * 1024 * 1024 <= u64::MAX as int,
        ensures
            r as int == self.upload.max_file_size_mb as int * 1024 * 1024,
    {
        self.upload.max_file_size_mb * 1024 * 1024
    }

    /// Replace fields for which the environment supplies a value.  A port
    /// override that is not a decimal number within range is ignored.
    pub fn apply_overrides(&mut self, ov: EnvOverrides)
        ensures
            final(self).server.host@ == (match ov.host {
                Some(h) => h@,
                None => old(self).server.host@,
            }),
            final(self).server.port == spec_port_override(
                ov.port.deep_view(),
                old(self).server.port,
            ),
            final(self).database.url@ == (match ov.database_url {
                Some(u) => u@,
                None => old(self).database.url@,
            }),
            final(self).security.jwt_secret@ == (match ov.jwt_secret {
                Some(s) => s@,
                None => old(self).security.jwt_secret@,
            }),
            final(self).paths.music_dir@ == (match ov.music_dir {
                Some(d) => d@,
                None => old(self).paths.music_dir@,
            }),
            final(self).paths.temp_dir@ == (match ov.temp_dir {
                Some(d) => d@,
                None => old(self).paths.temp_dir@,
            }),
            final(self).database.max_connections == old(self).database.max_connections,
            final(self).paths.ferric_path == old(self).paths.ferric_path,
            final(self).paths.ferric_enabled == old(self).paths.ferric_enabled,
            final(self).security.session_timeout_hours == old(self).security.session_timeout_hours,
            final(self).upload == old(self).upload,
            final(self).youtube == old(self).youtube,
            final(self).spotify == old(self).spotify,
    {
        if let Some(h) = ov.host {
            self.server.host = h;
        }
        if let Some(p) = ov.port {
            match parse_u64(p.as_str()) {
                Some(v) => {
                    if v <= u16::MAX as u64 {
                        self.server.port = v as u16;
                    }
                },
                None => {},
            }
        }
        if let Some(u) = ov.database_url {
            self.database.url = u;
        }
        if let Some(s) = ov.jwt_secret {
            self.security.jwt_secret = s;
        }
        if let Some(d) = ov.music_dir {
            self.paths.music_dir = d;
        }
        if let Some(d) = ov.temp_dir {
            self.paths.temp_dir = d;
        }
    }
}

/// Raw override strings taken from the process environment.
#[derive(Debug, Clone)]
pub struct EnvOverrides {
    pub host: Option<String>,
    pub port: Option<String>,
    pub database_url: Option<String>,
    pub jwt_secret: Option<String>,
    pub music_dir: Option<String>,
    pub temp_dir: Option<String>,
}

/// The port that results from an optional environment override: the parsed
/// value when it is a decimal number that fits a `u16`, the old port
/// otherwise.
pub open spec fn spec_port_override(p: Option<Seq<char>>, old_port: u16) -> u16 {
    match p {
        Some(s) => if s.len() > 0 && all_digits(s) && 0 <= decimal_val(s) <= u16::MAX as int {
            decimal_val(s) as u16
        } else {
            old_port
        },
        None => old_port,
    }
}

/// The value of a boolean setting under the two-tier lookup rule: a stored
/// value of `true` or `false` wins; anything else falls back to the static
/// default.
pub open spec fn spec_effective_flag(stored: Option<Seq<char>>, fallback: bool) -> bool {
    match stored {
        Some(v) => if v == "true"@ {
            true
        } else if v == "false"@ {
            false
        } else {
            fallback
        },
        None => fallback,
    }
}

pub fn effective_flag(stored: &Option<String>, fallback: bool) -> (r: bool)
    ensures
        r == spec_effective_flag(stored.deep_view(), fallback),
{
    match stored {
        Some(v) => {
            if str_eq_str(v.as_str(), "true") {
                true
            } else if str_eq_str(v.as_str(), "false") {
                false
            } else {
                fallback
            }
        },
        None => fallback,
    }
}

/// A character the generated signing secret may contain:
/// `A`-`Z`, `a`-`z`, `0`-`9`, `+` or `/`.
pub open spec fn is_secret_char(c: char) -> bool {
    ('A' <= c && c <= 'Z') || ('a' <= c && c <= 'z') || ('0' <= c && c <= '9') || c == '+' || c
        == '/'
}

/// Relies on rand::random_range: a sample drawn from `0..n` lies in `0..n`.
/// The range must be non-empty, or the call panics.
#[verifier::external_body]
fn random_below(n: usize) -> (r: usize)
    requires
        n >= 1,
    ensures
        r < n,
{
    rand::random_range(0..n)
}

/// Relies on String::push: appends exactly one character.
#[verifier::external_body]
fn push_char(s: &mut String, c: char)
    ensures
        final(s)@ == old(s)@.push(c),
{
    s.push(c);
}

fn secret_char(i: usize) -> (c: char)
    requires
        i < 64,
    ensures
        is_secret_char(c),
{
    if i < 26 {
        (65u8 + i as u8) as char
    } else if i < 52 {
        (97u8 + (i as u8 - 26)) as char
    } else if i < 62 {
        (48u8 + (i as u8 - 52)) as char
    } else if i == 62 {
        '+'
    } else {
        '/'
    }
}

/// The shipped secret must not be used for signing: empty, or still the
/// placeholder from the sample configuration.
pub open spec fn is_placeholder_secret(s: Seq<char>) -> bool {
    s.len() == 0 || s == "your-secret-key-here-change-this"@
}

impl Config {
    /// A fresh signing secret: 43 characters drawn from a 64-character
    /// alphabet, the length of 32 base64-encoded bytes.
    pub fn generate_jwt_secret() -> (r: String)
        ensures
            r@.len() == 43,
            forall|i: int| 0 <= i < r@.len() ==> is_secret_char(#[trigger] r@[i]),
    {
        let mut s = String::new();
        let mut k: usize = 0;
        while k < 43
            invariant
                k <= 43,
                s@.len() == k,
                forall|i: int| 0 <= i < k ==> is_secret_char(#[trigger] s@[i]),
            decreases 43 - k,
        {
            let idx = random_below(64);
            let c = secret_char(idx);
            push_char(&mut s, c);
            k += 1;
        }
        s
    }

    /// Swap a missing or placeholder signing secret for a generated one;
    /// a deliberately configured secret is kept as it is.
    pub fn ensure_jwt_secret(&mut self)
        ensures
            is_placeholder_secret(old(self).security.jwt_secret@) ==> {
                &&& final(self).security.jwt_secret@.len() == 43
                &&& forall|i: int|
                    0 <= i < final(self).security.jwt_secret@.len() ==> is_secret_char(
                        #[trigger] final(self).security.jwt_secret@[i],
                    )
            },
            !is_placeholder_secret(old(self).security.jwt_secret@)
                ==> final(self).security.jwt_secret == old(self).security.jwt_secret,
            final(self).server == old(self).server,
            final(self).database == old(self).database,
            final(self).paths == old(self).paths,
            final(self).security.session_timeout_hours
                == old(self).security.session_timeout_hours,
            final(self).upload == old(self).upload,
            final(self).youtube == old(self).youtube,
            final(self).spotify == old(self).spotify,
    {
        let empty = self.security.jwt_secret.as_str().unicode_len() == 0;
        let placeholder = str_eq_str(
            self.security.jwt_secret.as_str(),
            "your-secret-key-here-change-this",
        );
        if empty || placeholder {
            self.security.jwt_secret = Config::generate_jwt_secret();
        }
    }
}

impl Default for Config {
    /// The built-in configuration used when no file is present.
    fn default() -> (c: Config)
        ensures
            c.server.host@ == "0.0.0.0"@,
            c.server.port == 8080,
            c.database.url@ == "sqlite:./data/music_upload.db"@,
            c.database.max_connections == 5,
            c.paths.music_dir@ == "/tmp/music"@,
            c.paths.temp_dir@ == "/tmp/music_upload"@,
            c.paths.ferric_path@ == "/usr/local/bin/ferric"@,
            c.paths.ferric_enabled == true,
            c.security.jwt_secret@ == "your-secret-key-here-change-this"@,
            c.security.session_timeout_hours == 24,
            c.upload.max_file_size_mb == 500,
            c.upload.allowed_extensions.deep_view() =~= seq![
                "mp3"@,
                "flac"@,
                "ogg"@,
                "opus"@,
                "m4a"@,
                "wav"@,
                "aac"@,
            ],
            c.youtube.enabled == true,
            c.youtube.ytdlp_path@ == "yt-dlp"@,
            c.youtube.audio_format@ == "best"@,
            c.youtube.format_selector@ == "bestaudio/best"@,
            c.youtube.player_client.deep_view() == Some("web"@),
            c.youtube.extra_args.deep_view() =~= Seq::<Seq<char>>::empty(),
            c.spotify.enabled == true,
            c.spotify.spotdl_path@ == "spotdl"@,
            c.spotify.audio_format@ == "opus"@,
    {
        let mut exts: Vec<String> = Vec::new();
        exts.push(String::from_str("mp3"));
        exts.push(String::from_str("flac"));
        exts.push(String::from_str("ogg"));
        exts.push(String::from_str("opus"));
        exts.push(String::from_str("m4a"));
        exts.push(String::from_str("wav"));
        exts.push(String::from_str("aac"));
        Config {
            server: ServerConfig { host: String::from_str("0.0.0.0"), port: 8080 },
            database: DatabaseConfig {
                url: String::from_str("sqlite:./data/music_upload.db"),
                max_connections: 5,
            },
            paths: PathsConfig {
                music_dir: String::from_str("/tmp/music"),
                temp_dir: String::from_str("/tmp/music_upload"),
                ferric_path: String::from_str("/usr/local/bin/ferric"),
                ferric_enabled: true,
            },
            security: SecurityConfig {
                jwt_secret: String::from_str("your-secret-key-here-change-this"),
                session_timeout_hours: 24,
            },
            upload: UploadConfig { max_file_size_mb: 500, allowed_extensions: exts },
            youtube: YoutubeConfig {
                enabled: true,
                ytdlp_path: String::from_str("yt-dlp"),
                audio_format: String::from_str("best"),
                format_selector: YoutubeConfig::default_format_selector(),
                player_client: YoutubeConfig::default_player_client(),
                extra_args: Vec::new(),
            },
            spotify: SpotifyConfig {
                enabled: true,
                spotdl_path: String::from_str("spotdl"),
                audio_format: String::from_str("opus"),
            },
        }
    }
}

} // verus!
