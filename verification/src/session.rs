//! What the program is asked to do: the task a command line names, the way
//! the URLs come in, and what a line typed at the prompt means.
use crate::config::{Cli, CliView, ConfigView};
use crate::download::job_for;
use crate::text::{
    eq_ignore_ascii_case, lemma_trimmed_empty_iff_blank, lemma_trimmed_idempotent,
    str_eq_ignore_ascii_case, trim, trimmed,
};
use vstd::prelude::*;

verus! {

/// What a run of the program does.
#[derive(Debug, Clone, Copy, PartialEq, Eq, Structural)]
pub enum Task {
    /// Show the credits.
    Credits,
    /// Fetch a fresh `yt-dlp`.
    Update,
    /// Download.
    Download,
}

/// The way the URLs come in.
#[derive(Debug, Clone)]
pub enum Mode {
    /// One URL from the command line.
    Single(String),
    /// Several URLs from the command line.
    Batch(Vec<String>),
    /// URLs typed at the prompt, one per line.
    Interactive,
}

/// What a `Mode` holds, as mathematical values.
pub enum ModeView {
    Single(Seq<char>),
    Batch(Seq<Seq<char>>),
    Interactive,
}

impl View for Mode {
    type V = ModeView;

    open spec fn view(&self) -> ModeView {
        match self {
            Mode::Single(url) => ModeView::Single(url@),
            Mode::Batch(urls) => ModeView::Batch(urls.deep_view()),
            Mode::Interactive => ModeView::Interactive,
        }
    }
}

/// A command line that cannot be served.
#[derive(Debug, Clone, Copy, PartialEq, Eq, Structural)]
pub enum UsageError {
    /// One URL and a list of URLs were both given.
    UrlAndUrls,
}

/// What a line typed at the prompt asks for.
#[derive(Debug, Clone, Copy)]
pub enum Entry<'a> {
    /// To leave.
    Quit,
    /// Nothing.
    Skip,
    /// To download this URL.
    Url(&'a str),
}

/// What an `Entry` holds, as mathematical values.
pub enum EntryView {
    Quit,
    Skip,
    Url(Seq<char>),
}

impl<'a> View for Entry<'a> {
    type V = EntryView;

    open spec fn view(&self) -> EntryView {
        match self {
            Entry::Quit => EntryView::Quit,
            Entry::Skip => EntryView::Skip,
            Entry::Url(url) => EntryView::Url(url@),
        }
    }
}

/// The task a command line names: the credits come before an update, and an
/// update before a download.
pub open spec fn task_of(cli: CliView) -> Task {
    if cli.credit {
        Task::Credits
    } else if cli.update_ytdlp {
        Task::Update
    } else {
        Task::Download
    }
}

/// The way the URLs come in: from the one flag that was given, from the
/// prompt where none was, and not at all where both were.
pub open spec fn mode_of(url: Option<Seq<char>>, urls: Option<Seq<Seq<char>>>) -> Result<
    ModeView,
    UsageError,
> {
    match (url, urls) {
        (Some(u), None) => Ok(ModeView::Single(u)),
        (None, Some(list)) => Ok(ModeView::Batch(list)),
        (None, None) => Ok(ModeView::Interactive),
        (Some(_), Some(_)) => Err(UsageError::UrlAndUrls),
    }
}

/// What a line asks for, white space around it set aside: `exit` and `quit`,
/// in any case of their letters, ask to leave; an empty line asks for
/// nothing; every other line is a URL.
pub open spec fn entry_of(line: Seq<char>) -> EntryView {
    let word = trimmed(line);
    if eq_ignore_ascii_case(word, "exit"@) || eq_ignore_ascii_case(word, "quit"@) {
        EntryView::Quit
    } else if word.len() == 0 {
        EntryView::Skip
    } else {
        EntryView::Url(word)
    }
}

/// What the user is told of a command line that cannot be served.
pub open spec fn usage_error_text(error: UsageError) -> Seq<char> {
    match error {
        UsageError::UrlAndUrls => "--url と --urls を同時に指定できません"@,
    }
}

/// What a chosen mode, or the refusal to choose one, holds.
pub open spec fn mode_result_view(r: Result<Mode, UsageError>) -> Result<ModeView, UsageError> {
    match r {
        Ok(mode) => Ok(mode@),
        Err(e) => Err(e),
    }
}

/// The task that `cli` names.
pub fn select_task(cli: &Cli) -> (task: Task)
    ensures
        task == task_of(cli@),
{
    if cli.credit {
        Task::Credits
    } else if cli.update_ytdlp {
        Task::Update
    } else {
        Task::Download
    }
}

/// The way the URLs come in, given what stood behind `--url` and `--urls`.
pub fn select_mode(url: Option<String>, urls: Option<Vec<String>>) -> (r: Result<
    Mode,
    UsageError,
>)
    ensures
        mode_result_view(r) == mode_of(url.deep_view(), urls.deep_view()),
{
    match (url, urls) {
        (Some(u), None) => Ok(Mode::Single(u)),
        (None, Some(list)) => Ok(Mode::Batch(list)),
        (None, None) => Ok(Mode::Interactive),
        (Some(_), Some(_)) => Err(UsageError::UrlAndUrls),
    }
}

/// What `line` asks for. A URL is handed out without the white space around it.
pub fn read_entry<'a>(line: &'a str) -> (entry: Entry<'a>)
    ensures
        entry@ == entry_of(line@),
{
    let word = trim(line);
    if str_eq_ignore_ascii_case(word, "exit") || str_eq_ignore_ascii_case(word, "quit") {
        Entry::Quit
    } else if word.is_empty() {
        Entry::Skip
    } else {
        Entry::Url(word)
    }
}

impl UsageError {
    /// What the user is told.
    pub fn message(&self) -> (message: String)
        ensures
            message@ == usage_error_text(*self),
    {
        match self {
            UsageError::UrlAndUrls => String::from_str("--url と --urls を同時に指定できません"),
        }
    }
}

/// A URL taken from the prompt is ready for download: it has no white space
/// around it, reads as the same URL when read again, and is never skipped as
/// blank.
pub proof fn lemma_entry_url_is_ready(line: Seq<char>, config: ConfigView)
    requires
        entry_of(line) is Url,
    ensures
        ({
            let url = entry_of(line)->Url_0;
            &&& trimmed(url) == url
            &&& entry_of(url) == EntryView::Url(url)
            &&& job_for(url, config) is Some
        }),
{
    let url = trimmed(line);
    lemma_trimmed_idempotent(line);
    lemma_trimmed_empty_iff_blank(url);
}

} // verus!
