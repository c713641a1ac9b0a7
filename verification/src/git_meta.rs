//! Page metadata from the repository history: the date and author of a page's last
//! commit, read from the output of `git log -1 --format=%aI%x09%aN`.
use vstd::prelude::*;

use crate::template_parts::{clock_seconds, seconds_from_clock, PageGitMeta};
use crate::text::{chars_of, string_from_chars, sub_chars, trim, trim_chars};
use crate::utils::{find_char, find_char_exec};

verus! {

broadcast use vstd::string::group_string_axioms;

/// What `display_date` gives for an RFC 3339 timestamp: the date as chrono formats it
/// with `%b %-d, %Y` (such as "Mar 6, 2026"), or nothing when it does not parse.
pub uninterp spec fn rfc3339_display_date(iso: Seq<char>) -> Option<Seq<char>>;

/// The characters of an optional string.
pub open spec fn opt_string_view(o: Option<String>) -> Option<Seq<char>> {
    match o {
        Some(s) => Some(s@),
        None => None,
    }
}

/// Parses an RFC 3339 timestamp with `chrono::DateTime::parse_from_rfc3339` and
/// formats its date with `format("%b %-d, %Y")`, keeping the timestamp's own offset.
/// The result is named `rfc3339_display_date`; nothing more is stated of it.
#[verifier::external_body]
fn display_date(iso: &str) -> (r: Option<String>)
    ensures
        opt_string_view(r) == rfc3339_display_date(iso@),
{
    chrono::DateTime::parse_from_rfc3339(iso).ok().map(|d| d.format("%b %-d, %Y").to_string())
}

/// The (date, author) of a page's last commit from the output of `git log`: the
/// trimmed output split at its first tab into an RFC 3339 timestamp and an author;
/// nothing when the output is empty, has no tab or the timestamp does not parse.
pub open spec fn git_log_meta(stdout: Seq<char>) -> Option<(Seq<char>, Seq<char>)> {
    let line = trim(stdout);
    if line.len() == 0 {
        None
    } else {
        match find_char(line, '\t') {
            None => None,
            Some(k) => match rfc3339_display_date(line.take(k)) {
                None => None,
                Some(date) => Some((date, line.skip(k + 1))),
            },
        }
    }
}

/// The (date, author) pair of a page's last commit, read from the output of `git log`.
pub fn git_meta_from_log(stdout: &str) -> (r: Option<(String, String)>)
    ensures
        match git_log_meta(stdout@) {
            Some((date, author)) => r matches Some((d, a)) && d@ == date && a@ == author,
            None => r is None,
        },
{
    let line = trim_chars(&chars_of(stdout));
    if line.len() == 0 {
        return None;
    }
    let tab = match find_char_exec(&line, '\t') {
        Some(k) => k,
        None => {
            return None;
        },
    };
    let iso = string_from_chars(&sub_chars(&line, 0, tab));
    let author = string_from_chars(&sub_chars(&line, tab + 1, line.len()));
    assert(line@.subrange(0, tab as int) =~= line@.take(tab as int));
    assert(line@.subrange(tab + 1, line@.len() as int) =~= line@.skip(tab + 1));
    match display_date(iso.as_str()) {
        Some(date) => Some((date, author)),
        None => None,
    }
}

/// The date, as chrono formats it with `%b %-d, %Y` in UTC, of the instant `secs`
/// seconds after the Unix epoch; `None` where chrono cannot represent that instant.
pub uninterp spec fn utc_display_date_of(secs: int) -> Option<Seq<char>>;

/// Calls `chrono::DateTime::from_timestamp(secs, 0)`, which gives `None` outside the
/// dates chrono represents, and formats the date with `format("%b %-d, %Y")`. The
/// result is named `utc_display_date_of`: it depends on `secs` alone.
#[verifier::external_body]
fn utc_display_date(secs: i64) -> (r: Option<String>)
    ensures
        opt_string_view(r) == utc_display_date_of(secs as int),
{
    chrono::DateTime::from_timestamp(secs, 0).map(|t| t.format("%b %-d, %Y").to_string())
}

/// The date shown for a page without commit history: that of its file's modification
/// time, given as `duration_since(UNIX_EPOCH)` gives it, where there is one.
pub open spec fn mtime_display_date(mtime: Option<Result<u64, (u64, u32)>>) -> Option<Seq<char>> {
    match mtime {
        Some(reading) => match clock_seconds(reading) {
            Some(s) => utc_display_date_of(s),
            None => None,
        },
        None => None,
    }
}

/// The metadata of a page without commit history: no author, and the date of its
/// file's modification time.
pub fn git_meta_fallback(mtime: Option<Result<u64, (u64, u32)>>) -> (m: PageGitMeta)
    ensures
        m.last_author is None,
        opt_string_view(m.last_updated) == mtime_display_date(mtime),
{
    let last_updated = match mtime {
        Some(reading) => match seconds_from_clock(reading) {
            Some(secs) => utc_display_date(secs),
            None => None,
        },
        None => None,
    };
    PageGitMeta { last_updated, last_author: None }
}

/// The metadata of a page: the date and author of its last commit, read from the
/// output of `git log` where there is one that parses; else `git_meta_fallback` of its
/// file's modification time.
pub fn resolve_git_meta(git_log: Option<&str>, mtime: Option<Result<u64, (u64, u32)>>) -> (m: PageGitMeta)
    ensures
        match git_log {
            Some(out) => match git_log_meta(out@) {
                Some((date, author)) => opt_string_view(m.last_updated) == Some(date) && opt_string_view(
                    m.last_author,
                ) == Some(author),
                None => m.last_author is None && opt_string_view(m.last_updated) == mtime_display_date(mtime),
            },
            None => m.last_author is None && opt_string_view(m.last_updated) == mtime_display_date(mtime),
        },
{
    if let Some(out) = git_log {
        if let Some((date, author)) = git_meta_from_log(out) {
            return PageGitMeta { last_updated: Some(date), last_author: Some(author) };
        }
    }
    git_meta_fallback(mtime)
}

} // verus!
