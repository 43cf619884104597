//! One monitored target and the decisions of its scrape cycle, from the
//! fetched body to the alert plan.
use vstd::prelude::*;
use crate::alert::{action_views, alert_actions, check_and_alert, AlertConfig, AlertPlan};
use crate::decimal::{decimal, decimal_string, signed_decimal, signed_decimal_string};
use crate::error::MonitorError;
use crate::extract::{extract, extraction, views};
use crate::logline::{info, line_text, Level, LogLine};
use crate::matcher::{match_count, pattern_compiles, PatternCache};

verus! {

/// A monitored endpoint: where to fetch, what to count and how many
/// matches are expected.
pub struct Lookout {
    /// Identity in log lines, alerts and audit file names.
    pub name: String,
    /// The absolute URL fetched; also the context handed to the alert.
    pub url: String,
    /// The regular expression whose matches are counted.
    pub regex: String,
    pub expected_matches: usize,
    /// Seconds that a cycle lasts at least.
    pub timeout: u64,
    /// Selectors that narrow the document; none means the whole body.
    pub selectors: Vec<String>,
    /// Header names and values sent with the request.
    pub headers: Vec<(String, String)>,
}

/// What a successful cycle found and what it asks the caller to do.
pub struct CycleReport {
    /// The text the pattern was counted in.
    pub text: String,
    pub matches: usize,
    /// The information line that reports the count.
    pub found: LogLine,
    /// The text to append to the audit file, when raw logging is on.
    pub audit: Option<String>,
    pub alert: AlertPlan,
}

/// The report of a count: `Found N instances of 'P'`.
pub open spec fn found_message(matches: nat, pattern: Seq<char>) -> Seq<char> {
    "Found "@ + decimal(matches) + " instances of '"@ + pattern + "'"@
}

/// The name of the audit file of a cycle of `name` at `timestamp` (seconds
/// since the Unix epoch).
pub open spec fn audit_name(name: Seq<char>, timestamp: int) -> Seq<char> {
    name + "-"@ + signed_decimal(timestamp) + ".html"@
}

/// The report of a count.
pub fn found_text(matches: usize, pattern: &str) -> (r: String)
    ensures
        r@ == found_message(matches as nat, pattern@),
{
    let mut s = String::from_str("Found ");
    s.append(decimal_string(matches as u64).as_str());
    s.append(" instances of '");
    s.append(pattern);
    s.append("'");
    s
}

/// The name of the audit file of a cycle of `name` at `timestamp`.
pub fn audit_file_name(name: &str, timestamp: i64) -> (r: String)
    ensures
        r@ == audit_name(name@, timestamp as int),
{
    let mut s = String::from_str(name);
    s.append("-");
    s.append(signed_decimal_string(timestamp).as_str());
    s.append(".html");
    s
}

impl Lookout {
    /// The cycle's decisions on a fetched `body`: extract the text, count
    /// the pattern in it, report the count, keep the text for the audit file
    /// when `log_raw` holds, and plan the alert with the URL as context.
    pub fn scrape(
        &self,
        body: &String,
        cache: &mut PatternCache,
        alerts: &AlertConfig,
        log_raw: bool,
        alert_delay: u64,
        padding: usize,
    ) -> (r: Result<CycleReport, MonitorError>)
        requires
            old(cache).wf(),
        ensures
            final(cache).wf(),
            extraction(body@, views(self.selectors@)) is None ==> r == Err::<CycleReport, MonitorError>(
                MonitorError::SelectorNotFound,
            ) && final(cache).patterns() == old(cache).patterns(),
            extraction(body@, views(self.selectors@)) is Some && !pattern_compiles(self.regex@) ==> r
                == Err::<CycleReport, MonitorError>(MonitorError::InvalidPattern),
            extraction(body@, views(self.selectors@)) is Some && pattern_compiles(self.regex@) ==> ({
                let t = extraction(body@, views(self.selectors@))->Some_0;
                let rep = r->Ok_0;
                &&& r is Ok
                &&& rep.text@ == t
                &&& rep.matches as nat == match_count(self.regex@, t)
                &&& rep.found.level == Level::Info
                &&& rep.found.text@ == line_text(
                    self.name@,
                    found_message(rep.matches as nat, self.regex@),
                    padding as nat,
                )
                &&& rep.audit is Some == log_raw
                &&& log_raw ==> rep.audit->Some_0@ == t
                &&& rep.alert.raised == (rep.matches != self.expected_matches)
                &&& action_views(rep.alert.actions@) == alert_actions(
                    *alerts,
                    self.name@,
                    rep.matches as nat,
                    self.expected_matches as nat,
                    self.url@,
                    alert_delay,
                )
                &&& final(cache).patterns().contains(self.regex@)
            }),
    {
        let text = match extract(body, &self.selectors) {
            Ok(t) => t,
            Err(e) => return Err(e),
        };
        let matches = match cache.count_matches(text.as_str(), self.regex.as_str()) {
            Ok(n) => n,
            Err(e) => return Err(e),
        };
        proof {
            if !old(cache).patterns().contains(self.regex@) {
                assert(cache.patterns().last() == self.regex@);
            }
        }
        let msg = found_text(matches, self.regex.as_str());
        let found = info(self.name.as_str(), msg.as_str(), padding);
        let audit = if log_raw { Some(text.clone()) } else { None };
        let alert = check_and_alert(
            alerts,
            self.name.as_str(),
            matches,
            self.expected_matches,
            self.url.as_str(),
            alert_delay,
        );
        Ok(CycleReport { text, matches, found, audit, alert })
    }
}

} // verus!
