//! The options as the user gave them, and the settings a download runs under.
use vstd::prelude::*;

verus! {

/// The command line, one field per flag, as the argument parser hands it over.
#[derive(Debug, Clone)]
pub struct Cli {
    /// Download this one URL and stop.
    pub url: Option<String>,
    /// Download each of these URLs in turn.
    pub urls: Option<Vec<String>>,
    /// Directory the files are written to.
    pub output_dir: String,
    /// Extract the audio track only, as mp3.
    pub audio_only: bool,
    /// `best`, or a format selector such as `1080p`, handed on as it is.
    pub quality: Option<String>,
    /// Container the streams are merged into; `mp4` where none is given.
    pub format: Option<String>,
    /// Leave thumbnail and metadata out of the file.
    pub no_metadata: bool,
    /// Browser whose cookies are used.
    pub cookies: String,
    /// Download the whole playlist a video belongs to.
    pub playlist: bool,
    /// Fetch a fresh `yt-dlp` and stop.
    pub update_ytdlp: bool,
    /// Ask `yt-dlp` for detailed output.
    pub verbose: bool,
    /// Ask `yt-dlp` for as little output as possible.
    pub quiet: bool,
    /// Show the credits and stop.
    pub credit: bool,
}

/// The settings one download runs under.
#[derive(Debug, Clone)]
pub struct DownloadConfig {
    /// Directory the files are written to.
    pub output_dir: String,
    /// Extract the audio track only, as mp3.
    pub audio_only: bool,
    /// `best`, or a format selector handed on as it is; `None` leaves the
    /// choice to the platform.
    pub quality: Option<String>,
    /// Container the streams are merged into.
    pub format: String,
    /// Leave thumbnail and metadata out of the file.
    pub no_metadata: bool,
    /// Browser whose cookies are used.
    pub cookies: String,
    /// Download the whole playlist a video belongs to.
    pub playlist: bool,
    /// Ask `yt-dlp` for detailed output.
    pub verbose: bool,
    /// Ask `yt-dlp` for as little output as possible, and say little oneself.
    pub quiet: bool,
}

/// What a `Cli` holds, as mathematical values.
pub struct CliView {
    pub url: Option<Seq<char>>,
    pub urls: Option<Seq<Seq<char>>>,
    pub output_dir: Seq<char>,
    pub audio_only: bool,
    pub quality: Option<Seq<char>>,
    pub format: Option<Seq<char>>,
    pub no_metadata: bool,
    pub cookies: Seq<char>,
    pub playlist: bool,
    pub update_ytdlp: bool,
    pub verbose: bool,
    pub quiet: bool,
    pub credit: bool,
}

/// What a `DownloadConfig` holds, as mathematical values.
pub struct ConfigView {
    pub output_dir: Seq<char>,
    pub audio_only: bool,
    pub quality: Option<Seq<char>>,
    pub format: Seq<char>,
    pub no_metadata: bool,
    pub cookies: Seq<char>,
    pub playlist: bool,
    pub verbose: bool,
    pub quiet: bool,
}

impl View for Cli {
    type V = CliView;

    open spec fn view(&self) -> CliView {
        CliView {
            url: self.url.deep_view(),
            urls: self.urls.deep_view(),
            output_dir: self.output_dir@,
            audio_only: self.audio_only,
            quality: self.quality.deep_view(),
            format: self.format.deep_view(),
            no_metadata: self.no_metadata,
            cookies: self.cookies@,
            playlist: self.playlist,
            update_ytdlp: self.update_ytdlp,
            verbose: self.verbose,
            quiet: self.quiet,
            credit: self.credit,
        }
    }
}

impl View for DownloadConfig {
    type V = ConfigView;

    open spec fn view(&self) -> ConfigView {
        ConfigView {
            output_dir: self.output_dir@,
            audio_only: self.audio_only,
            quality: self.quality.deep_view(),
            format: self.format@,
            no_metadata: self.no_metadata,
            cookies: self.cookies@,
            playlist: self.playlist,
            verbose: self.verbose,
            quiet: self.quiet,
        }
    }
}

/// The settings that a command line asks for: each flag as given, and `mp4`
/// as the container where none was named.
pub open spec fn settings_of(cli: CliView) -> ConfigView {
    ConfigView {
        output_dir: cli.output_dir,
        audio_only: cli.audio_only,
        quality: cli.quality,
        format: match cli.format {
            Some(f) => f,
            None => "mp4"@,
        },
        no_metadata: cli.no_metadata,
        cookies: cli.cookies,
        playlist: cli.playlist,
        verbose: cli.verbose,
        quiet: cli.quiet,
    }
}

/// A copy of an optional string.
fn clone_opt(s: &Option<String>) -> (r: Option<String>)
    ensures
        r.deep_view() == s.deep_view(),
{
    match s {
        Some(t) => Some(t.clone()),
        None => None,
    }
}

impl DownloadConfig {
    /// The settings that `cli` asks for.
    pub fn from_cli(cli: &Cli) -> (config: DownloadConfig)
        ensures
            config@ == settings_of(cli@),
    {
        let format = match &cli.format {
            Some(f) => f.clone(),
            None => String::from_str("mp4"),
        };
        DownloadConfig {
            output_dir: cli.output_dir.clone(),
            audio_only: cli.audio_only,
            quality: clone_opt(&cli.quality),
            format,
            no_metadata: cli.no_metadata,
            cookies: cli.cookies.clone(),
            playlist: cli.playlist,
            verbose: cli.verbose,
            quiet: cli.quiet,
        }
    }
}

} // verus!
