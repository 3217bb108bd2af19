use downloader::command::{build_command, USER_AGENT};
use downloader::config::DownloadConfig;
use downloader::platform::Platform;

fn plain_config() -> DownloadConfig {
    DownloadConfig {
        output_dir: "./".to_string(),
        audio_only: false,
        quality: None,
        format: "mp4".to_string(),
        no_metadata: false,
        cookies: "chrome".to_string(),
        playlist: false,
        verbose: false,
        quiet: false,
    }
}

#[test]
fn twitch_with_default_settings() {
    let args = build_command(Platform::Twitch, "https://www.twitch.tv/videos/1", &plain_config());
    assert_eq!(
        args,
        vec![
            "-f",
            "1080p60+bestaudio",
            "--merge-output-format",
            "mp4",
            "--embed-thumbnail",
            "--add-metadata",
            "--cookies-from-browser",
            "chrome",
            "--no-playlist",
            "--output",
            ".//%(title)s.%(ext)s",
            "https://www.twitch.tv/videos/1",
        ]
    );
}

#[test]
fn youtube_with_default_settings() {
    let args = build_command(Platform::YouTube, "https://youtu.be/abc", &plain_config());
    assert_eq!(
        args,
        vec![
            "-f",
            "bestvideo+bestaudio",
            "--merge-output-format",
            "mp4",
            "--embed-thumbnail",
            "--add-metadata",
            "--cookies-from-browser",
            "chrome",
            "--no-playlist",
            "-4",
            "--geo-bypass-country",
            "JP",
            "--output",
            ".//%(title)s.%(ext)s",
            "https://youtu.be/abc",
        ]
    );
}

#[test]
fn twitter_with_default_settings() {
    let args = build_command(Platform::Twitter, "https://x.com/u/status/1", &plain_config());
    assert_eq!(
        args,
        vec![
            "-f",
            "bestvideo+bestaudio/best",
            "--merge-output-format",
            "mp4",
            "--embed-thumbnail",
            "--add-metadata",
            "--cookies-from-browser",
            "chrome",
            "--no-playlist",
            "--output",
            ".//%(title)s.%(ext)s",
            "https://x.com/u/status/1",
        ]
    );
}

#[test]
fn generic_with_default_settings() {
    let args = build_command(Platform::Generic, "https://vimeo.com/1", &plain_config());
    assert_eq!(
        args,
        vec![
            "-f",
            "bestvideo+bestaudio/best",
            "--merge-output-format",
            "mp4",
            "--embed-thumbnail",
            "--add-metadata",
            "--cookies-from-browser",
            "chrome",
            "--no-playlist",
            "--geo-bypass-country",
            "JP",
            "--user-agent",
            "Mozilla/5.0 (Windows NT 10.0; Win64; x64) AppleWebKit/537.36 (KHTML, like Gecko) Chrome/95.0.4638.74 Safari/537.36",
            "--write-sub",
            "--sub-lang",
            "all",
            "--sub-format",
            "best",
            "--convert-subs",
            "srt",
            "--ignore-errors",
            "--output",
            ".//%(title)s.%(ext)s",
            "https://vimeo.com/1",
        ]
    );
}

#[test]
fn user_agent_is_the_one_sent() {
    let args = build_command(Platform::Generic, "u", &plain_config());
    let at = args.iter().position(|a| a == "--user-agent").unwrap();
    assert_eq!(args[at + 1], USER_AGENT);
    assert!(USER_AGENT.starts_with("Mozilla/5.0 (Windows NT 10.0; Win64; x64)"));
    assert!(USER_AGENT.ends_with("Chrome/95.0.4638.74 Safari/537.36"));
}

#[test]
fn audio_only_with_default_settings() {
    let mut config = plain_config();
    config.audio_only = true;
    let args = build_command(Platform::YouTube, "https://youtu.be/abc", &config);
    assert_eq!(
        args,
        vec![
            "-x",
            "--audio-format",
            "mp3",
            "--output",
            ".//%(title)s.%(ext)s",
            "https://youtu.be/abc",
        ]
    );
}

#[test]
fn audio_only_sets_platform_and_video_settings_aside() {
    let mut config = plain_config();
    config.audio_only = true;
    config.quality = Some("720p".to_string());
    config.format = "mkv".to_string();
    config.no_metadata = true;
    config.cookies = "firefox".to_string();
    config.playlist = true;
    config.output_dir = "/tmp/music".to_string();
    let expected = vec![
        "-x",
        "--audio-format",
        "mp3",
        "--output",
        "/tmp/music/%(title)s.%(ext)s",
        "https://example.org/a",
    ];
    for platform in [Platform::Twitch, Platform::YouTube, Platform::Twitter, Platform::Generic] {
        assert_eq!(build_command(platform, "https://example.org/a", &config), expected);
    }
}

#[test]
fn audio_only_puts_verbosity_last() {
    let mut config = plain_config();
    config.audio_only = true;
    config.verbose = true;
    let args = build_command(Platform::Generic, "u", &config);
    assert_eq!(
        args,
        vec!["-x", "--audio-format", "mp3", "--output", ".//%(title)s.%(ext)s", "u", "--verbose"]
    );
    config.verbose = false;
    config.quiet = true;
    let args = build_command(Platform::Generic, "u", &config);
    assert_eq!(
        args,
        vec!["-x", "--audio-format", "mp3", "--output", ".//%(title)s.%(ext)s", "u", "--quiet"]
    );
}

#[test]
fn quality_best_is_spelled_out() {
    let mut config = plain_config();
    config.quality = Some("best".to_string());
    for platform in [Platform::Twitch, Platform::YouTube, Platform::Twitter, Platform::Generic] {
        let args = build_command(platform, "u", &config);
        assert_eq!(args[0], "-f");
        assert_eq!(args[1], "bestvideo+bestaudio");
    }
}

#[test]
fn any_other_quality_is_handed_on() {
    let mut config = plain_config();
    for quality in ["1080p", "720p", "480p", "360p", "Best", "best ", "", "worst"] {
        config.quality = Some(quality.to_string());
        for platform in [Platform::Twitch, Platform::YouTube, Platform::Twitter, Platform::Generic]
        {
            let args = build_command(platform, "u", &config);
            assert_eq!(args[1], quality);
        }
    }
}

#[test]
fn every_setting_changed_on_twitch() {
    let config = DownloadConfig {
        output_dir: "/data/videos".to_string(),
        audio_only: false,
        quality: Some("720p".to_string()),
        format: "webm".to_string(),
        no_metadata: true,
        cookies: "safari".to_string(),
        playlist: true,
        verbose: false,
        quiet: true,
    };
    let args = build_command(Platform::Twitch, "https://twitch.tv/v/9", &config);
    assert_eq!(
        args,
        vec![
            "-f",
            "720p",
            "--merge-output-format",
            "webm",
            "--cookies-from-browser",
            "safari",
            "--quiet",
            "--output",
            "/data/videos/%(title)s.%(ext)s",
            "https://twitch.tv/v/9",
        ]
    );
}

#[test]
fn youtube_playlist_verbose() {
    let mut config = plain_config();
    config.playlist = true;
    config.verbose = true;
    config.quiet = true;
    config.format = "mkv".to_string();
    let args = build_command(Platform::YouTube, "https://www.youtube.com/playlist?list=PL1", &config);
    assert_eq!(
        args,
        vec![
            "-f",
            "bestvideo+bestaudio",
            "--merge-output-format",
            "mkv",
            "--embed-thumbnail",
            "--add-metadata",
            "--cookies-from-browser",
            "chrome",
            "-4",
            "--geo-bypass-country",
            "JP",
            "--verbose",
            "--output",
            ".//%(title)s.%(ext)s",
            "https://www.youtube.com/playlist?list=PL1",
        ]
    );
}

#[test]
fn verbose_wins_over_quiet() {
    let mut config = plain_config();
    config.verbose = true;
    config.quiet = true;
    for audio_only in [false, true] {
        config.audio_only = audio_only;
        for platform in [Platform::Twitch, Platform::YouTube, Platform::Twitter, Platform::Generic]
        {
            let args = build_command(platform, "u", &config);
            assert!(args.iter().any(|a| a == "--verbose"));
            assert!(!args.iter().any(|a| a == "--quiet"));
        }
    }
}

#[test]
fn a_video_command_ends_with_output_template_and_url() {
    let mut config = plain_config();
    config.output_dir = "out".to_string();
    for platform in [Platform::Twitch, Platform::YouTube, Platform::Twitter, Platform::Generic] {
        for flags in 0u8..16 {
            config.no_metadata = flags & 1 != 0;
            config.playlist = flags & 2 != 0;
            config.verbose = flags & 4 != 0;
            config.quiet = flags & 8 != 0;
            let args = build_command(platform, "https://a.example/v", &config);
            let n: usize = args.len();
            assert_eq!(args[n - 3], "--output");
            assert_eq!(args[n - 2], "out/%(title)s.%(ext)s");
            assert_eq!(args[n - 1], "https://a.example/v");
        }
    }
}

#[test]
fn the_url_is_handed_on_as_it_stands() {
    let url = "  https://youtu.be/a b?c=d&e=f#g  ";
    let args = build_command(Platform::YouTube, url, &plain_config());
    assert_eq!(args.last().unwrap(), url);
    let args = build_command(Platform::YouTube, "", &plain_config());
    assert_eq!(args.last().unwrap(), "");
}

#[test]
fn the_output_directory_is_joined_with_a_slash() {
    let mut config = plain_config();
    for (dir, template) in [
        ("", "/%(title)s.%(ext)s"),
        ("./", ".//%(title)s.%(ext)s"),
        ("videos", "videos/%(title)s.%(ext)s"),
        ("C:\\Videos", "C:\\Videos/%(title)s.%(ext)s"),
        ("動画", "動画/%(title)s.%(ext)s"),
    ] {
        config.output_dir = dir.to_string();
        let args = build_command(Platform::Twitter, "u", &config);
        let at = args.iter().position(|a| a == "--output").unwrap();
        assert_eq!(args[at + 1], template);
    }
}

#[test]
fn metadata_and_playlist_flags() {
    let mut config = plain_config();
    let args = build_command(Platform::Twitter, "u", &config);
    assert!(args.iter().any(|a| a == "--embed-thumbnail"));
    assert!(args.iter().any(|a| a == "--add-metadata"));
    assert!(args.iter().any(|a| a == "--no-playlist"));
    config.no_metadata = true;
    config.playlist = true;
    let args = build_command(Platform::Twitter, "u", &config);
    assert_eq!(
        args,
        vec![
            "-f",
            "bestvideo+bestaudio/best",
            "--merge-output-format",
            "mp4",
            "--cookies-from-browser",
            "chrome",
            "--output",
            ".//%(title)s.%(ext)s",
            "u",
        ]
    );
}

#[test]
fn building_does_not_depend_on_earlier_calls() {
    let config = plain_config();
    let first = build_command(Platform::Generic, "https://vimeo.com/1", &config);
    let _ = build_command(Platform::Twitch, "https://twitch.tv/1", &config);
    let second = build_command(Platform::Generic, "https://vimeo.com/1", &config);
    assert_eq!(first, second);
}
