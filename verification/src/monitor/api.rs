//! The requests that the monitor sends to the server, and the summaries it
//! appends to the logs.
use vstd::prelude::*;

use crate::text::{i32_to_decimal, signed_decimal};

verus! {

/// The text of a duration as `{:.2?}` prints `Duration::from_nanos(nanos)`.
pub uninterp spec fn elapsed_text_of(nanos: u64) -> Seq<char>;

/// A moment as RFC 2822 prints it, given as seconds and nanoseconds since
/// the Unix epoch.
pub uninterp spec fn rfc2822_of(secs: i64, nanos: u32) -> Seq<char>;

/// Formats a duration with std's `Debug` for `Duration` at two decimals
/// (`format!("{:.2?}", Duration::from_nanos(nanos))`). Claimed: the text
/// depends on `nanos` alone.
#[verifier::external_body]
fn elapsed_text(nanos: u64) -> (r: String)
    ensures
        r@ == elapsed_text_of(nanos),
{
    format!("{:.2?}", std::time::Duration::from_nanos(nanos))
}

/// Formats a moment with chrono's `DateTime::<Utc>::from_timestamp` and
/// `to_rfc2822`. The moment is within the years that RFC 2822 can write
/// (0 to 9999),
/// where neither call fails. Claimed: the text depends on the moment alone.
#[verifier::external_body]
fn rfc2822(secs: i64, nanos: u32) -> (r: String)
    requires
        -62167219200 <= secs <= 253402300799,
        nanos < 1_000_000_000,
    ensures
        r@ == rfc2822_of(secs, nanos),
{
    chrono::DateTime::from_timestamp(secs, nanos).map(|d| d.to_rfc2822()).unwrap_or_default()
}

/// When a step ended and how long it took.
#[derive(Clone, Copy, Debug)]
pub struct Timing {
    pub elapsed_nanos: u64,
    pub finished_secs: i64,
    pub finished_nanos: u32,
}

/// The moment is one that RFC 2822 can write.
pub open spec fn timing_ok(t: Timing) -> bool {
    -62167219200 <= t.finished_secs <= 253402300799 && t.finished_nanos < 1_000_000_000
}

/// The end of a summary, from the texts of the time taken and of the moment
/// it ended.
pub open spec fn times_line(elapsed: Seq<char>, finished: Seq<char>) -> Seq<char> {
    "<b>Total time:</b> "@ + elapsed + "\n<b>Finished at:</b> "@ + finished
}

/// The end of a summary: the time taken and the moment it ended.
pub open spec fn times_text(t: Timing) -> Seq<char> {
    times_line(elapsed_text_of(t.elapsed_nanos), rfc2822_of(t.finished_secs, t.finished_nanos))
}

/// The end of a summary, from the texts of the time taken and of the moment
/// it ended.
pub fn summary_times(elapsed: &str, finished: &str) -> (r: String)
    ensures
        r@ == times_line(elapsed@, finished@),
{
    let mut r = String::from_str("<b>Total time:</b> ");
    r.append(elapsed);
    r.append("\n<b>Finished at:</b> ");
    r.append(finished);
    r
}

fn times(t: Timing) -> (r: String)
    requires
        timing_ok(t),
    ensures
        r@ == times_text(t),
{
    let e = elapsed_text(t.elapsed_nanos);
    let f = rfc2822(t.finished_secs, t.finished_nanos);
    summary_times(e.as_str(), f.as_str())
}

/// The track log of a fetch or a clone: its output, then a summary.
pub open spec fn track_log_text(output: Seq<char>, t: Timing) -> Seq<char> {
    output + "\n\n<hr><h3>Summary:</h3>"@ + times_text(t)
}

/// The track log of a fetch or a clone.
pub fn track_log_body(output: &str, t: Timing) -> (r: String)
    requires
        timing_ok(t),
    ensures
        r@ == track_log_text(output@, t),
{
    let mut r = String::from_str(output);
    r.append("\n\n<hr><h3>Summary:</h3>");
    let tail = times(t);
    r.append(tail.as_str());
    r
}

/// The summary that ends a build log: the digest of the image, or the
/// message that no digest could be read.
pub open spec fn build_summary_text(digest: Seq<char>, t: Timing) -> Seq<char> {
    "\n<hr><h3>Summary:</h3><b>Digest:</b> "@ + digest + "\n"@ + times_text(t)
}

/// The summary that ends a build log.
pub fn build_summary_body(digest: &str, t: Timing) -> (r: String)
    requires
        timing_ok(t),
    ensures
        r@ == build_summary_text(digest@, t),
{
    let mut r = String::from_str("\n<hr><h3>Summary:</h3><b>Digest:</b> ");
    r.append(digest);
    r.append("\n");
    let tail = times(t);
    r.append(tail.as_str());
    r
}

/// The summary that ends a push log.
pub open spec fn push_summary_text(t: Timing) -> Seq<char> {
    "\n<hr><h3>Summary:</h3>"@ + times_text(t)
}

/// The summary that ends a push log.
pub fn push_summary_body(t: Timing) -> (r: String)
    requires
        timing_ok(t),
    ensures
        r@ == push_summary_text(t),
{
    let mut r = String::from_str("\n<hr><h3>Summary:</h3>");
    let tail = times(t);
    r.append(tail.as_str());
    r
}

/// The summary of a push log when the build failed and nothing was pushed.
pub open spec fn incident_summary_text(t: Timing) -> Seq<char> {
    "\n<hr><h3>Summary:</h3><b>Incident:</b> Error happened during build. Skip pushing\n"@
        + times_text(t)
}

/// The summary of a push log when the build failed and nothing was pushed.
pub fn incident_summary_body(t: Timing) -> (r: String)
    requires
        timing_ok(t),
    ensures
        r@ == incident_summary_text(t),
{
    let mut r = String::from_str(
        "\n<hr><h3>Summary:</h3><b>Incident:</b> Error happened during build. Skip pushing\n",
    );
    let tail = times(t);
    r.append(tail.as_str());
    r
}

// ---------------------------------------------------------------------------
// Addresses
// ---------------------------------------------------------------------------

/// The address of an endpoint of a repository: `HOST/api/repo/ID/ACTION`.
pub open spec fn repo_url_text(host: Seq<char>, id: i32, action: Seq<char>) -> Seq<char> {
    host + "/api/repo/"@ + signed_decimal(id as int) + "/"@ + action
}

/// The address of an endpoint of a repository.
pub fn repo_url(host: &str, id: i32, action: &str) -> (r: String)
    ensures
        r@ == repo_url_text(host@, id, action@),
{
    let mut r = String::from_str(host);
    r.append("/api/repo/");
    let n = i32_to_decimal(id);
    r.append(n.as_str());
    r.append("/");
    r.append(action);
    r
}

/// The address of an endpoint of a notebook:
/// `HOST/api/notebook/ACTION?name=NAME&namespace=NAMESPACE`.
pub open spec fn notebook_url_text(
    host: Seq<char>,
    action: Seq<char>,
    name: Seq<char>,
    namespace: Seq<char>,
) -> Seq<char> {
    host + "/api/notebook/"@ + action + "?name="@ + name + "&namespace="@ + namespace
}

/// The address of an endpoint of a notebook.
pub fn notebook_url(host: &str, action: &str, name: &str, namespace: &str) -> (r: String)
    ensures
        r@ == notebook_url_text(host@, action@, name@, namespace@),
{
    let mut r = String::from_str(host);
    r.append("/api/notebook/");
    r.append(action);
    r.append("?name=");
    r.append(name);
    r.append("&namespace=");
    r.append(namespace);
    r
}

/// The address of a server endpoint: `HOST/api/PATH`.
pub fn api_url(host: &str, path: &str) -> (r: String)
    ensures
        r@ == host@ + "/api/"@ + path@,
{
    let mut r = String::from_str(host);
    r.append("/api/");
    r.append(path);
    r
}

} // verus!
