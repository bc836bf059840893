//! Argument building for the external tools.
//!
//! Fetch tools and the tagging tool are invoked with a literal argument
//! vector, never through a shell; these builders fix the exact vector for
//! each tool, which operators depend on.  The process spawn itself happens
//! outside the library; [`interpret_exit`] turns what came back into the
//! runner's result.

use vstd::prelude::*;

use crate::config::Config;
use crate::config::SpotifyConfig;
use crate::config::YoutubeConfig;
use crate::strutil::str_concat;
use crate::strutil::str_trim;
use crate::strutil::trim_spec;

verus! {

/// What an external process left behind.
#[derive(Debug)]
pub struct ProcessOutput {
    pub success: bool,
    pub stdout: String,
    pub stderr: String,
}

/// A failed invocation: the tool exited unsuccessfully.
#[derive(Debug)]
pub enum ProcessError {
    Failed { stderr: String },
}

/// Fold an exit status into the runner's result: a failed exit surfaces the
/// captured stderr.
pub fn interpret_exit(output: ProcessOutput) -> (r: Result<ProcessOutput, ProcessError>)
    ensures
        match r {
            Ok(o) => output.success && o == output,
            Err(e) => !output.success && e == (ProcessError::Failed { stderr: output.stderr }),
        },
{
    if output.success {
        Ok(output)
    } else {
        Err(ProcessError::Failed { stderr: output.stderr })
    }
}

/// The fixed leading arguments of a fetch from the video platform.
pub open spec fn spec_ytdlp_base(y: YoutubeConfig, temp_dir: Seq<char>) -> Seq<Seq<char>> {
    seq![
        "--no-warnings"@,
        "--extract-audio"@,
        "--audio-format"@,
        y.audio_format@,
        "--output"@,
        temp_dir + "/%(title)s.%(ext)s"@,
        "--no-playlist"@,
        "--ignore-no-formats-error"@,
    ]
}

/// The full argument vector of a fetch from the video platform: the base,
/// then `--format` when a selector is configured, then the player-client
/// workaround when configured, then the operator's passthrough arguments,
/// and the URL always last.
pub open spec fn spec_ytdlp_args(
    y: YoutubeConfig,
    temp_dir: Seq<char>,
    url: Seq<char>,
) -> Seq<Seq<char>> {
    let base = spec_ytdlp_base(y, temp_dir);
    let with_format = if trim_spec(y.format_selector@).len() > 0 {
        base + seq!["--format"@, trim_spec(y.format_selector@)]
    } else {
        base
    };
    let with_client = match y.player_client {
        Some(c) => if trim_spec(c@).len() > 0 {
            with_format + seq![
                "--extractor-args"@,
                "youtube:player_client="@ + trim_spec(c@),
            ]
        } else {
            with_format
        },
        None => with_format,
    };
    with_client + y.extra_args.deep_view() + seq![url]
}

pub fn build_ytdlp_args(config: &Config, temp_dir: &str, url: &str) -> (r: Vec<String>)
    ensures
        r.deep_view() == spec_ytdlp_args(config.youtube, temp_dir@, url@),
{
    let ghost y = config.youtube;
    let mut args: Vec<String> = Vec::new();
    args.push(String::from_str("--no-warnings"));
    args.push(String::from_str("--extract-audio"));
    args.push(String::from_str("--audio-format"));
    args.push(config.youtube.audio_format.clone());
    args.push(String::from_str("--output"));
    args.push(str_concat(temp_dir, "/%(title)s.%(ext)s"));
    args.push(String::from_str("--no-playlist"));
    args.push(String::from_str("--ignore-no-formats-error"));
    proof {
        assert(args.deep_view() =~= spec_ytdlp_base(y, temp_dir@));
    }
    let format_selector = str_trim(config.youtube.format_selector.as_str());
    if format_selector.unicode_len() > 0 {
        args.push(String::from_str("--format"));
        args.push(String::from_str(format_selector));
    }
    let ghost with_format = if trim_spec(y.format_selector@).len() > 0 {
        spec_ytdlp_base(y, temp_dir@) + seq!["--format"@, trim_spec(y.format_selector@)]
    } else {
        spec_ytdlp_base(y, temp_dir@)
    };
    proof {
        assert(args.deep_view() =~= with_format);
    }
    match &config.youtube.player_client {
        Some(client) => {
            let trimmed = str_trim(client.as_str());
            if trimmed.unicode_len() > 0 {
                // A stable player client avoids spurious precondition
                // failures on the platform's side.
                args.push(String::from_str("--extractor-args"));
                args.push(str_concat("youtube:player_client=", trimmed));
            }
        },
        None => {},
    }
    let ghost with_client = match y.player_client {
        Some(c) => if trim_spec(c@).len() > 0 {
            with_format + seq!["--extractor-args"@, "youtube:player_client="@ + trim_spec(c@)]
        } else {
            with_format
        },
        None => with_format,
    };
    proof {
        assert(args.deep_view() =~= with_client);
    }
    let extra_count = config.youtube.extra_args.len();
    let mut i: usize = 0;
    while i < extra_count
        invariant
            i <= extra_count == config.youtube.extra_args@.len(),
            y == config.youtube,
            args.deep_view() =~= with_client + y.extra_args.deep_view().subrange(0, i as int),
        decreases extra_count - i,
    {
        let ghost prev = args.deep_view();
        let ghost e = y.extra_args.deep_view()[i as int];
        args.push(config.youtube.extra_args[i].clone());
        proof {
            assert(args.deep_view() =~= prev.push(e));
            assert(prev.push(e) =~= with_client + y.extra_args.deep_view().subrange(0, i + 1));
        }
        i += 1;
    }
    proof {
        assert(y.extra_args.deep_view().subrange(0, extra_count as int) =~= y.extra_args.deep_view(
        ));
    }
    args.push(String::from_str(url));
    proof {
        assert(args.deep_view() =~= with_client + y.extra_args.deep_view() + seq![url@]);
    }
    args
}

/// The argument vector of a fetch from the streaming platform: the
/// subcommand, the URL, the output pattern the tool fills per track, and the
/// audio format.
pub open spec fn spec_spotdl_args(
    s: SpotifyConfig,
    temp_dir: Seq<char>,
    url: Seq<char>,
) -> Seq<Seq<char>> {
    seq![
        "download"@,
        url,
        "--output"@,
        temp_dir + "/{artist} - {title}.{output-ext}"@,
        "--format"@,
        s.audio_format@,
    ]
}

pub fn build_spotdl_args(config: &Config, temp_dir: &str, url: &str) -> (r: Vec<String>)
    ensures
        r.deep_view() == spec_spotdl_args(config.spotify, temp_dir@, url@),
{
    let mut args: Vec<String> = Vec::new();
    args.push(String::from_str("download"));
    args.push(String::from_str(url));
    args.push(String::from_str("--output"));
    args.push(str_concat(temp_dir, "/{artist} - {title}.{output-ext}"));
    args.push(String::from_str("--format"));
    args.push(config.spotify.audio_format.clone());
    proof {
        assert(args.deep_view() =~= spec_spotdl_args(config.spotify, temp_dir@, url@));
    }
    args
}

/// The argument vector of the tagging tool: input and output directories.
pub open spec fn spec_ferric_args(temp_dir: Seq<char>, music_dir: Seq<char>) -> Seq<Seq<char>> {
    seq!["--input-dir"@, temp_dir, "--output-dir"@, music_dir]
}

pub fn build_ferric_args(temp_dir: &str, music_dir: &str) -> (r: Vec<String>)
    ensures
        r.deep_view() == spec_ferric_args(temp_dir@, music_dir@),
{
    let mut args: Vec<String> = Vec::new();
    args.push(String::from_str("--input-dir"));
    args.push(String::from_str(temp_dir));
    args.push(String::from_str("--output-dir"));
    args.push(String::from_str(music_dir));
    proof {
        assert(args.deep_view() =~= spec_ferric_args(temp_dir@, music_dir@));
    }
    args
}

} // verus!
