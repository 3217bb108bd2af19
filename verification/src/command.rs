//! The arguments `yt-dlp` is started with, for a platform, a URL and the
//! settings of the download.
use crate::config::{ConfigView, DownloadConfig};
use crate::platform::Platform;
use crate::text::str_equals;
use vstd::prelude::*;

verus! {

/// The browser that `yt-dlp` gives itself out as on sites without rules of their own.
pub const USER_AGENT: &'static str =
    "Mozilla/5.0 (Windows NT 10.0; Win64; x64) AppleWebKit/537.36 (KHTML, like Gecko) Chrome/95.0.4638.74 Safari/537.36";

/// Where a download is written: title and extension, under the output directory.
pub open spec fn output_template(dir: Seq<char>) -> Seq<char> {
    dir + "/%(title)s.%(ext)s"@
}

/// The format selector. A quality that the user named wins, `best` standing
/// for the best video with the best audio; without one each platform has its own.
pub open spec fn format_selector(platform: Platform, quality: Option<Seq<char>>) -> Seq<char> {
    match quality {
        Some(q) => if q == "best"@ {
            "bestvideo+bestaudio"@
        } else {
            q
        },
        None => match platform {
            Platform::Twitch => "1080p60+bestaudio"@,
            Platform::YouTube => "bestvideo+bestaudio"@,
            _ => "bestvideo+bestaudio/best"@,
        },
    }
}

/// Thumbnail and metadata are embedded unless the user declined.
pub open spec fn metadata_args(config: ConfigView) -> Seq<Seq<char>> {
    if config.no_metadata {
        seq![]
    } else {
        seq!["--embed-thumbnail"@, "--add-metadata"@]
    }
}

/// A single video is fetched unless the user asked for the playlist.
pub open spec fn playlist_args(config: ConfigView) -> Seq<Seq<char>> {
    if config.playlist {
        seq![]
    } else {
        seq!["--no-playlist"@]
    }
}

/// What each platform adds of its own.
pub open spec fn platform_args(platform: Platform) -> Seq<Seq<char>> {
    match platform {
        Platform::YouTube => seq!["-4"@, "--geo-bypass-country"@, "JP"@],
        Platform::Generic => seq![
            "--geo-bypass-country"@,
            "JP"@,
            "--user-agent"@,
            USER_AGENT@,
            "--write-sub"@,
            "--sub-lang"@,
            "all"@,
            "--sub-format"@,
            "best"@,
            "--convert-subs"@,
            "srt"@,
            "--ignore-errors"@,
        ],
        _ => seq![],
    }
}

/// At most one of the two verbosity flags; `verbose` wins over `quiet`.
pub open spec fn verbosity_args(config: ConfigView) -> Seq<Seq<char>> {
    if config.verbose {
        seq!["--verbose"@]
    } else if config.quiet {
        seq!["--quiet"@]
    } else {
        seq![]
    }
}

/// Where the download goes and what is downloaded.
pub open spec fn target_args(url: Seq<char>, config: ConfigView) -> Seq<Seq<char>> {
    seq!["--output"@, output_template(config.output_dir), url]
}

/// The arguments of an audio-only download. Platform, quality, container,
/// metadata, cookies and playlist play no part in it.
pub open spec fn audio_args(url: Seq<char>, config: ConfigView) -> Seq<Seq<char>> {
    seq!["-x"@, "--audio-format"@, "mp3"@] + target_args(url, config) + verbosity_args(config)
}

/// The arguments of a video download.
pub open spec fn video_args(platform: Platform, url: Seq<char>, config: ConfigView) -> Seq<
    Seq<char>,
> {
    seq!["-f"@, format_selector(platform, config.quality), "--merge-output-format"@, config.format]
        + metadata_args(config) + seq!["--cookies-from-browser"@, config.cookies] + playlist_args(
        config,
    ) + platform_args(platform) + verbosity_args(config) + target_args(url, config)
}

/// The arguments `yt-dlp` is started with.
pub open spec fn command_args(platform: Platform, url: Seq<char>, config: ConfigView) -> Seq<
    Seq<char>,
> {
    if config.audio_only {
        audio_args(url, config)
    } else {
        video_args(platform, url, config)
    }
}

/// Appends one argument.
fn push_arg(args: &mut Vec<String>, arg: &str)
    ensures
        final(args).deep_view() == old(args).deep_view().push(arg@),
{
    args.push(String::from_str(arg));
    assert(args.deep_view() =~= old(args).deep_view().push(arg@));
}

/// Appends `--output`, the output template and the URL.
fn push_target(args: &mut Vec<String>, url: &str, config: &DownloadConfig)
    ensures
        final(args).deep_view() == old(args).deep_view() + target_args(url@, config@),
{
    let template = config.output_dir.clone().concat("/%(title)s.%(ext)s");
    push_arg(args, "--output");
    push_arg(args, template.as_str());
    push_arg(args, url);
    assert(args.deep_view() =~= old(args).deep_view() + target_args(url@, config@));
}

/// Appends the verbosity flag, if there is one.
fn push_verbosity(args: &mut Vec<String>, config: &DownloadConfig)
    ensures
        final(args).deep_view() == old(args).deep_view() + verbosity_args(config@),
{
    if config.verbose {
        push_arg(args, "--verbose");
    } else if config.quiet {
        push_arg(args, "--quiet");
    }
    assert(args.deep_view() =~= old(args).deep_view() + verbosity_args(config@));
}

/// Appends what the platform adds of its own.
fn push_platform(args: &mut Vec<String>, platform: Platform)
    ensures
        final(args).deep_view() == old(args).deep_view() + platform_args(platform),
{
    match platform {
        Platform::YouTube => {
            push_arg(args, "-4");
            push_arg(args, "--geo-bypass-country");
            push_arg(args, "JP");
        },
        Platform::Generic => {
            push_arg(args, "--geo-bypass-country");
            push_arg(args, "JP");
            push_arg(args, "--user-agent");
            push_arg(args, USER_AGENT);
            push_arg(args, "--write-sub");
            push_arg(args, "--sub-lang");
            push_arg(args, "all");
            push_arg(args, "--sub-format");
            push_arg(args, "best");
            push_arg(args, "--convert-subs");
            push_arg(args, "srt");
            push_arg(args, "--ignore-errors");
        },
        _ => {},
    }
    assert(args.deep_view() =~= old(args).deep_view() + platform_args(platform));
}

/// The format selector for a platform and the quality the user named, if any.
fn select_format(platform: Platform, quality: &Option<String>) -> (selector: String)
    ensures
        selector@ == format_selector(platform, quality.deep_view()),
{
    match quality {
        Some(q) => {
            if str_equals(q.as_str(), "best") {
                String::from_str("bestvideo+bestaudio")
            } else {
                q.clone()
            }
        },
        None => match platform {
            Platform::Twitch => String::from_str("1080p60+bestaudio"),
            Platform::YouTube => String::from_str("bestvideo+bestaudio"),
            _ => String::from_str("bestvideo+bestaudio/best"),
        },
    }
}

/// The arguments `yt-dlp` is started with to download `url`: for audio only,
/// the extraction flags, the target and the verbosity; otherwise format,
/// container, metadata, cookies, playlist, the platform's own flags, the
/// verbosity and the target, in this order.
pub fn build_command(platform: Platform, url: &str, config: &DownloadConfig) -> (args: Vec<String>)
    ensures
        args.deep_view() == command_args(platform, url@, config@),
{
    let mut args: Vec<String> = Vec::new();
    assert(args.deep_view() =~= Seq::<Seq<char>>::empty());

    if config.audio_only {
        push_arg(&mut args, "-x");
        push_arg(&mut args, "--audio-format");
        push_arg(&mut args, "mp3");
        push_target(&mut args, url, config);
        push_verbosity(&mut args, config);
        return args;
    }
    let selector = select_format(platform, &config.quality);
    push_arg(&mut args, "-f");
    push_arg(&mut args, selector.as_str());
    push_arg(&mut args, "--merge-output-format");
    push_arg(&mut args, config.format.as_str());
    let ghost head = args.deep_view();

    if !config.no_metadata {
        push_arg(&mut args, "--embed-thumbnail");
        push_arg(&mut args, "--add-metadata");
    }
    assert(args.deep_view() =~= head + metadata_args(config@));

    push_arg(&mut args, "--cookies-from-browser");
    push_arg(&mut args, config.cookies.as_str());
    let ghost with_cookies = args.deep_view();
    assert(with_cookies =~= head + metadata_args(config@) + seq![
        "--cookies-from-browser"@,
        config@.cookies,
    ]);

    if !config.playlist {
        push_arg(&mut args, "--no-playlist");
    }
    assert(args.deep_view() =~= with_cookies + playlist_args(config@));

    push_platform(&mut args, platform);
    push_verbosity(&mut args, config);
    push_target(&mut args, url, config);
    args
}

/// The target stands in every command as three arguments in a row: `--output`,
/// the output template and the URL, unchanged. In a video command these are
/// the last three, so the URL is the last argument.
pub proof fn lemma_target_in_command(platform: Platform, url: Seq<char>, config: ConfigView) -> (at:
    int)
    ensures
        0 <= at,
        at + 3 <= command_args(platform, url, config).len(),
        command_args(platform, url, config).subrange(at, at + 3) == target_args(url, config),
        config.audio_only ==> at == 3,
        !config.audio_only ==> at + 3 == command_args(platform, url, config).len(),
{
    let args = command_args(platform, url, config);
    let target = target_args(url, config);
    if config.audio_only {
        assert(args.subrange(3, 6) =~= target);
        3
    } else {
        let at = args.len() - 3;
        assert(args.subrange(at, at + 3) =~= target);
        at
    }
}

/// An audio-only command depends on the URL, the output directory and the
/// verbosity alone: platform, quality, container, metadata, cookies and
/// playlist do not change it.
pub proof fn lemma_audio_ignores_video_settings(
    first_platform: Platform,
    second_platform: Platform,
    url: Seq<char>,
    first: ConfigView,
    second: ConfigView,
)
    requires
        first.audio_only,
        second.audio_only,
        first.output_dir == second.output_dir,
        first.verbose == second.verbose,
        first.quiet == second.quiet,
    ensures
        command_args(first_platform, url, first) == command_args(second_platform, url, second),
{
}

} // verus!
