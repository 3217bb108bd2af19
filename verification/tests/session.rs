use downloader::config::{Cli, DownloadConfig};
use downloader::download::plan_download;
use downloader::session::{read_entry, select_mode, select_task, Entry, Mode, Task, UsageError};

fn bare_cli() -> Cli {
    Cli {
        url: None,
        urls: None,
        output_dir: "./".to_string(),
        audio_only: false,
        quality: None,
        format: None,
        no_metadata: false,
        cookies: "chrome".to_string(),
        playlist: false,
        update_ytdlp: false,
        verbose: false,
        quiet: false,
        credit: false,
    }
}

fn entry_url(line: &str) -> Option<&str> {
    match read_entry(line) {
        Entry::Url(url) => Some(url),
        _ => None,
    }
}

#[test]
fn from_cli_copies_every_setting() {
    let cli = Cli {
        url: Some("https://youtu.be/a".to_string()),
        urls: None,
        output_dir: "/srv/media".to_string(),
        audio_only: true,
        quality: Some("720p".to_string()),
        format: Some("webm".to_string()),
        no_metadata: true,
        cookies: "edge".to_string(),
        playlist: true,
        update_ytdlp: false,
        verbose: true,
        quiet: true,
        credit: false,
    };
    let config = DownloadConfig::from_cli(&cli);
    assert_eq!(config.output_dir, "/srv/media");
    assert!(config.audio_only);
    assert_eq!(config.quality.as_deref(), Some("720p"));
    assert_eq!(config.format, "webm");
    assert!(config.no_metadata);
    assert_eq!(config.cookies, "edge");
    assert!(config.playlist);
    assert!(config.verbose);
    assert!(config.quiet);
}

#[test]
fn from_cli_defaults_the_container_to_mp4() {
    let config = DownloadConfig::from_cli(&bare_cli());
    assert_eq!(config.format, "mp4");
    assert_eq!(config.output_dir, "./");
    assert_eq!(config.cookies, "chrome");
    assert_eq!(config.quality, None);
    assert!(!config.audio_only);
    assert!(!config.no_metadata);
    assert!(!config.playlist);
    assert!(!config.verbose);
    assert!(!config.quiet);
}

#[test]
fn from_cli_keeps_an_empty_container_name() {
    let mut cli = bare_cli();
    cli.format = Some(String::new());
    assert_eq!(DownloadConfig::from_cli(&cli).format, "");
}

#[test]
fn credits_come_first() {
    let mut cli = bare_cli();
    cli.credit = true;
    assert_eq!(select_task(&cli), Task::Credits);
    cli.update_ytdlp = true;
    cli.url = Some("https://youtu.be/a".to_string());
    assert_eq!(select_task(&cli), Task::Credits);
}

#[test]
fn an_update_comes_before_a_download() {
    let mut cli = bare_cli();
    cli.update_ytdlp = true;
    cli.url = Some("https://youtu.be/a".to_string());
    assert_eq!(select_task(&cli), Task::Update);
}

#[test]
fn a_download_is_the_usual_task() {
    assert_eq!(select_task(&bare_cli()), Task::Download);
}

#[test]
fn one_url_is_single_mode() {
    match select_mode(Some("https://youtu.be/a".to_string()), None) {
        Ok(Mode::Single(url)) => assert_eq!(url, "https://youtu.be/a"),
        other => panic!("{:?}", other),
    }
}

#[test]
fn a_list_of_urls_is_batch_mode() {
    let urls = vec!["a".to_string(), "b".to_string()];
    match select_mode(None, Some(urls.clone())) {
        Ok(Mode::Batch(list)) => assert_eq!(list, urls),
        other => panic!("{:?}", other),
    }
    match select_mode(None, Some(Vec::new())) {
        Ok(Mode::Batch(list)) => assert!(list.is_empty()),
        other => panic!("{:?}", other),
    }
}

#[test]
fn no_url_is_interactive_mode() {
    assert!(matches!(select_mode(None, None), Ok(Mode::Interactive)));
}

#[test]
fn url_and_urls_together_are_refused() {
    let r = select_mode(Some("a".to_string()), Some(vec!["b".to_string()]));
    assert!(matches!(r, Err(UsageError::UrlAndUrls)));
    assert_eq!(UsageError::UrlAndUrls.message(), "--url と --urls を同時に指定できません");
}

#[test]
fn exit_and_quit_ask_to_leave() {
    for line in ["exit", "quit", "EXIT", "Quit", "  exit  ", "\tqUiT\r\n", "\u{3000}exit"] {
        assert!(matches!(read_entry(line), Entry::Quit), "{:?}", line);
    }
}

#[test]
fn an_empty_line_asks_for_nothing() {
    for line in ["", " ", "\n", "\r\n", " \t ", "\u{a0}"] {
        assert!(matches!(read_entry(line), Entry::Skip), "{:?}", line);
    }
}

#[test]
fn any_other_line_is_a_url_without_the_white_space_around_it() {
    assert_eq!(entry_url("https://youtu.be/a\n"), Some("https://youtu.be/a"));
    assert_eq!(entry_url("  https://youtu.be/a b  "), Some("https://youtu.be/a b"));
    assert_eq!(entry_url("exit now"), Some("exit now"));
    assert_eq!(entry_url("exi"), Some("exi"));
    assert_eq!(entry_url("quit!"), Some("quit!"));
    assert_eq!(entry_url("ｅｘｉｔ"), Some("ｅｘｉｔ"));
    assert_eq!(entry_url("q"), Some("q"));
}

#[test]
fn a_url_from_the_prompt_is_never_skipped() {
    let config = DownloadConfig::from_cli(&bare_cli());
    for line in ["https://youtu.be/a\n", " x ", "exit now", "\u{200b}"] {
        let url = entry_url(line).unwrap();
        assert!(plan_download(url, &config).is_some());
        assert_eq!(entry_url(url), Some(url));
    }
}
