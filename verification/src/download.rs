//! One download: what `yt-dlp` is started with for a URL, and what its exit
//! means.
use crate::command::{build_command, command_args};
use crate::config::{ConfigView, DownloadConfig};
use crate::decimal::{decimal, decimal_string};
use crate::platform::{platform_of, Platform};
use crate::text::{is_blank, lemma_trimmed_empty_iff_blank, trim};
use vstd::prelude::*;

verus! {

/// A run of `yt-dlp` that is due.
#[derive(Debug, Clone)]
pub struct Job {
    /// The platform the URL was found to belong to.
    pub platform: Platform,
    /// The arguments `yt-dlp` is started with.
    pub args: Vec<String>,
}

/// What a `Job` holds, as mathematical values.
pub struct JobView {
    pub platform: Platform,
    pub args: Seq<Seq<char>>,
}

impl View for Job {
    type V = JobView;

    open spec fn view(&self) -> JobView {
        JobView { platform: self.platform, args: self.args.deep_view() }
    }
}

impl DeepView for Job {
    type V = JobView;

    open spec fn deep_view(&self) -> JobView {
        self.view()
    }
}

/// Why a download failed.
#[derive(Debug, Clone, Copy, PartialEq, Eq, Structural)]
pub enum RunError {
    /// `yt-dlp` ended without success; `code` is its exit code, or -1 where
    /// it ended without one.
    Failed { code: i32 },
}

/// The run that is due for a URL: none for a URL of nothing but white space,
/// else one for the platform of the URL, with the arguments that belong to
/// that platform and the settings. The URL is handed on as it stands.
pub open spec fn job_for(url: Seq<char>, config: ConfigView) -> Option<JobView> {
    if is_blank(url) {
        None
    } else {
        Some(
            JobView {
                platform: platform_of(url),
                args: command_args(platform_of(url), url, config),
            },
        )
    }
}

/// The runs that are due for a list of URLs: one entry for each URL, in
/// their order.
pub open spec fn jobs_for(urls: Seq<Seq<char>>, config: ConfigView) -> Seq<Option<JobView>> {
    urls.map_values(|url: Seq<char>| job_for(url, config))
}

/// What the exit of `yt-dlp` means for the download.
pub open spec fn exit_result(success: bool, code: Option<i32>) -> Result<(), RunError> {
    if success {
        Ok(())
    } else {
        Err(
            RunError::Failed {
                code: match code {
                    Some(c) => c,
                    None => -1i32,
                },
            },
        )
    }
}

/// What the user is told of a failed download.
pub open spec fn run_error_text(error: RunError) -> Seq<char> {
    match error {
        RunError::Failed { code } => "yt-dlpがエラーコード"@ + decimal(code as int)
            + "で終了しました"@,
    }
}

/// The run of `yt-dlp` that is due for `url`, if any.
pub fn plan_download(url: &str, config: &DownloadConfig) -> (job: Option<Job>)
    ensures
        job.deep_view() == job_for(url@, config@),
{
    proof {
        lemma_trimmed_empty_iff_blank(url@);
    }
    if trim(url).is_empty() {
        return None;
    }
    let platform = Platform::detect(url);
    let args = build_command(platform, url, config);
    Some(Job { platform, args })
}

/// The runs that are due for `urls`, one entry for each URL and in their order.
pub fn plan_batch(urls: &Vec<String>, config: &DownloadConfig) -> (jobs: Vec<Option<Job>>)
    ensures
        jobs.deep_view() == jobs_for(urls.deep_view(), config@),
{
    let mut jobs: Vec<Option<Job>> = Vec::new();
    let mut i: usize = 0;
    while i < urls.len()
        invariant
            i <= urls.len(),
            jobs.len() == i,
            forall|k: int|
                0 <= k < i ==> (#[trigger] jobs[k]).deep_view() == job_for(urls[k]@, config@),
        decreases urls.len() - i,
    {
        let job = plan_download(urls[i].as_str(), config);
        jobs.push(job);
        i += 1;
    }
    assert(jobs.deep_view() =~= jobs_for(urls.deep_view(), config@));
    jobs
}

/// What the exit of `yt-dlp` means: `success` is whether it reported
/// success, `code` its exit code where it ended with one.
pub fn exit_outcome(success: bool, code: Option<i32>) -> (r: Result<(), RunError>)
    ensures
        r == exit_result(success, code),
{
    if success {
        Ok(())
    } else {
        let code = match code {
            Some(c) => c,
            None => -1,
        };
        Err(RunError::Failed { code })
    }
}

impl RunError {
    /// What the user is told.
    pub fn message(&self) -> (message: String)
        ensures
            message@ == run_error_text(*self),
    {
        match self {
            RunError::Failed { code } => {
                let number = decimal_string(*code);
                String::from_str("yt-dlpがエラーコード").concat(number.as_str()).concat(
                    "で終了しました",
                )
            },
        }
    }
}

} // verus!
