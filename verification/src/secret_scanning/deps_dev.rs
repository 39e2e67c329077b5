//! Reports from deps.dev.

use vstd::prelude::*;
use crate::secret_scanning::alert::{FeedbackLabel, SecretAlert};
use crate::time::MICROS_PER_HOUR;

verus! {

/// Where deps.dev publishes the keys it signs reports with.
pub const DEPS_DEV_PUBLIC_KEY_URL: &'static str =
    "https://storage.googleapis.com/depsdev-gcp-public-keys/secret_scanning";

/// How long fetched deps.dev keys stay fresh: 24 hours.
pub const PUBLIC_KEY_CACHE_LIFETIME: i64 = 24 * MICROS_PER_HOUR;

/// The header that names the signing key.
pub const KEY_ID_HEADER: &'static str = "DepsDev-Public-Key-Identifier";

/// The header that carries the signature.
pub const SIGNATURE_HEADER: &'static str = "DepsDev-Public-Key-Signature";

/// The name deps.dev is reported under.
pub const REPORTER: &'static str = "deps.dev";

/// A report from deps.dev; an empty `url` means that no address was given.
#[derive(Debug)]
pub struct DepsDevSecretAlert {
    pub token: String,
    pub url: String,
}

impl SecretAlert for DepsDevSecretAlert {
    open spec fn alert_reporter(&self) -> Seq<char> {
        REPORTER@
    }

    open spec fn alert_source(&self) -> Option<Seq<char>> {
        None
    }

    open spec fn alert_token(&self) -> Seq<char> {
        self.token@
    }

    open spec fn alert_url(&self) -> Option<Seq<char>> {
        if self.url@.len() == 0 {
            None
        } else {
            Some(self.url@)
        }
    }

    fn reporter(&self) -> (r: &str) {
        REPORTER
    }

    fn source(&self) -> (r: Option<&str>) {
        None
    }

    fn token(&self) -> (r: &str) {
        self.token.as_str()
    }

    fn url(&self) -> (r: Option<&str>) {
        if self.url.as_str().is_empty() {
            None
        } else {
            Some(self.url.as_str())
        }
    }
}

/// The answer about one reported token.
#[derive(Debug)]
pub struct DepsDevSecretAlertFeedback {
    pub token_raw: String,
    pub label: FeedbackLabel,
}

/// The answers to a list of reports, given the label decided for each, in order.
pub fn feedback(alerts: &Vec<DepsDevSecretAlert>, labels: &Vec<FeedbackLabel>) -> (r: Vec<DepsDevSecretAlertFeedback>)
    requires
        alerts@.len() == labels@.len(),
    ensures
        r@.len() == alerts@.len(),
        forall|i: int|
            0 <= i < r@.len() ==> (#[trigger] r@[i]).token_raw@ == alerts@[i].token@ && r@[i].label
                == labels@[i],
{
    let mut out: Vec<DepsDevSecretAlertFeedback> = Vec::new();
    let n: usize = alerts.len();
    let mut i: usize = 0;
    while i < n
        invariant
            n == alerts@.len(),
            n == labels@.len(),
            i <= n,
            out@.len() == i,
            forall|j: int|
                0 <= j < i ==> (#[trigger] out@[j]).token_raw@ == alerts@[j].token@ && out@[j].label
                    == labels@[j],
        decreases n - i,
    {
        let ghost prev = out@;
        let token_raw = alerts[i].token.clone();
        let label = labels[i];
        assert(token_raw@ == alerts@[i as int].token@);
        out.push(DepsDevSecretAlertFeedback { token_raw, label });
        proof {
            assert forall|j: int| 0 <= j < i + 1 implies (#[trigger] out@[j]).token_raw@ == alerts@[j].token@ && out@[j].label == labels@[j] by {
                if j < i {
                    assert(out@[j] == prev[j]);
                    assert(prev[j].token_raw@ == alerts@[j].token@);
                }
            }
        }
        i = i + 1;
    }
    out
}

} // verus!
