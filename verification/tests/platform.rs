use downloader::platform::Platform;

#[test]
fn detects_twitch() {
    assert_eq!(Platform::detect("https://www.twitch.tv/videos/123456"), Platform::Twitch);
    assert_eq!(Platform::detect("twitch.tv"), Platform::Twitch);
}

#[test]
fn detects_youtube_by_either_host() {
    assert_eq!(Platform::detect("https://www.youtube.com/watch?v=abc"), Platform::YouTube);
    assert_eq!(Platform::detect("https://youtu.be/abc"), Platform::YouTube);
    assert_eq!(Platform::detect("https://music.youtube.com/watch?v=abc"), Platform::YouTube);
}

#[test]
fn detects_twitter_by_either_host() {
    assert_eq!(Platform::detect("https://twitter.com/user/status/1"), Platform::Twitter);
    assert_eq!(Platform::detect("https://x.com/user/status/1"), Platform::Twitter);
}

#[test]
fn everything_else_is_generic() {
    assert_eq!(Platform::detect("https://vimeo.com/1234"), Platform::Generic);
    assert_eq!(Platform::detect("https://example.org/video.mp4"), Platform::Generic);
    assert_eq!(Platform::detect(""), Platform::Generic);
    assert_eq!(Platform::detect("   "), Platform::Generic);
}

#[test]
fn twitch_wins_over_the_others() {
    assert_eq!(
        Platform::detect("https://www.twitch.tv/redirect?to=https://youtube.com/x"),
        Platform::Twitch
    );
    assert_eq!(Platform::detect("https://x.com/share?u=https://twitch.tv/a"), Platform::Twitch);
}

#[test]
fn youtube_wins_over_twitter() {
    assert_eq!(
        Platform::detect("https://twitter.com/share?u=https://youtu.be/abc"),
        Platform::YouTube
    );
}

#[test]
fn a_host_name_counts_wherever_it_stands() {
    // The text is searched, not parsed: `x.com` inside a longer host matches.
    assert_eq!(Platform::detect("https://netflix.com/title/1"), Platform::Twitter);
    assert_eq!(Platform::detect("https://example.com/?ref=youtube.com"), Platform::YouTube);
    assert_eq!(Platform::detect("see https://www.twitch.tv/a now"), Platform::Twitch);
}

#[test]
fn letters_are_compared_as_they_are() {
    assert_eq!(Platform::detect("https://WWW.TWITCH.TV/a"), Platform::Generic);
    assert_eq!(Platform::detect("https://YouTube.com/watch"), Platform::Generic);
}

#[test]
fn a_host_name_cut_short_does_not_count() {
    assert_eq!(Platform::detect("https://twitch.t"), Platform::Generic);
    assert_eq!(Platform::detect("https://youtu.b"), Platform::Generic);
    assert_eq!(Platform::detect("x.co"), Platform::Generic);
    assert_eq!(Platform::detect("x.com"), Platform::Twitter);
}

#[test]
fn context_never_turns_a_site_generic() {
    let urls = ["https://twitch.tv/a", "https://youtu.be/b", "https://x.com/c"];
    for url in urls {
        let inside = format!("<<{}>>", url);
        assert_ne!(Platform::detect(url), Platform::Generic);
        assert_ne!(Platform::detect(&inside), Platform::Generic);
    }
}

#[test]
fn platform_names() {
    assert_eq!(Platform::Twitch.name(), "Twitch");
    assert_eq!(Platform::YouTube.name(), "YouTube");
    assert_eq!(Platform::Twitter.name(), "Twitter");
    assert_eq!(Platform::Generic.name(), "Generic");
    for p in [Platform::Twitch, Platform::YouTube, Platform::Twitter, Platform::Generic] {
        assert_eq!(p.name(), format!("{:?}", p));
    }
}
