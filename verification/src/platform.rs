//! The site a URL belongs to, told from the host names that occur in it.
use crate::text::{chars_contain, chars_of, contains};
use vstd::prelude::*;

verus! {

/// The sites that get arguments of their own.
#[derive(Debug, Clone, Copy, PartialEq, Eq, Structural)]
pub enum Platform {
    Twitch,
    YouTube,
    Twitter,
    Generic,
}

/// The platform of a URL: the first of Twitch, YouTube and Twitter one of
/// whose host names occurs anywhere in the text, and `Generic` if none does.
pub open spec fn platform_of(url: Seq<char>) -> Platform {
    if contains(url, "twitch.tv"@) {
        Platform::Twitch
    } else if contains(url, "youtube.com"@) || contains(url, "youtu.be"@) {
        Platform::YouTube
    } else if contains(url, "twitter.com"@) || contains(url, "x.com"@) {
        Platform::Twitter
    } else {
        Platform::Generic
    }
}

/// The name a platform is shown under.
pub open spec fn platform_name(platform: Platform) -> Seq<char> {
    match platform {
        Platform::Twitch => "Twitch"@,
        Platform::YouTube => "YouTube"@,
        Platform::Twitter => "Twitter"@,
        Platform::Generic => "Generic"@,
    }
}

/// Whether `pattern` occurs in a text given by its characters.
fn mentions(url: &Vec<char>, pattern: &str) -> (r: bool)
    ensures
        r == contains(url@, pattern@),
{
    let p = chars_of(pattern);
    chars_contain(url, &p)
}

impl Platform {
    /// Tells the platform of `url`. The text is not parsed: a host name
    /// counts wherever it occurs, and letters are compared as they are.
    pub fn detect(url: &str) -> (platform: Platform)
        ensures
            platform == platform_of(url@),
    {
        let chars = chars_of(url);
        if mentions(&chars, "twitch.tv") {
            Platform::Twitch
        } else if mentions(&chars, "youtube.com") || mentions(&chars, "youtu.be") {
            Platform::YouTube
        } else if mentions(&chars, "twitter.com") || mentions(&chars, "x.com") {
            Platform::Twitter
        } else {
            Platform::Generic
        }
    }

    /// The name the platform is shown under.
    pub fn name(&self) -> (name: &'static str)
        ensures
            name@ == platform_name(*self),
    {
        match self {
            Platform::Twitch => "Twitch",
            Platform::YouTube => "YouTube",
            Platform::Twitter => "Twitter",
            Platform::Generic => "Generic",
        }
    }
}

/// Text around a URL never hides a host name: what occurs in `url` occurs in
/// every text that holds `url`.
pub proof fn lemma_contains_in_context(
    before: Seq<char>,
    url: Seq<char>,
    after: Seq<char>,
    pattern: Seq<char>,
)
    requires
        contains(url, pattern),
    ensures
        contains(before + url + after, pattern),
{
    let at = choose|at: int| crate::text::occurs_at(url, pattern, at);
    let whole = before + url + after;
    assert(whole.subrange(before.len() + at, before.len() + at + pattern.len()) =~= url.subrange(
        at,
        at + pattern.len(),
    ));
    assert(crate::text::occurs_at(whole, pattern, before.len() + at));
}

/// A URL that is `Generic` inside some text was `Generic` on its own: context
/// can add a host name, never take one away.
pub proof fn lemma_generic_in_context(before: Seq<char>, url: Seq<char>, after: Seq<char>)
    requires
        platform_of(before + url + after) == Platform::Generic,
    ensures
        platform_of(url) == Platform::Generic,
{
    if contains(url, "twitch.tv"@) {
        lemma_contains_in_context(before, url, after, "twitch.tv"@);
    }
    if contains(url, "youtube.com"@) {
        lemma_contains_in_context(before, url, after, "youtube.com"@);
    }
    if contains(url, "youtu.be"@) {
        lemma_contains_in_context(before, url, after, "youtu.be"@);
    }
    if contains(url, "twitter.com"@) {
        lemma_contains_in_context(before, url, after, "twitter.com"@);
    }
    if contains(url, "x.com"@) {
        lemma_contains_in_context(before, url, after, "x.com"@);
    }
}

} // verus!
