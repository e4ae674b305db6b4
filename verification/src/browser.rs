//! Construction of the hosted merge-request URL.
//!
//! The URL is built from the remote's push URL (its `.git` suffixes
//! stripped), the full names of the finished branch and the source branch it
//! converges into, and an encoded title.  Opening the URL is the caller's
//! business.

use vstd::prelude::*;

use crate::branch::{Branch, Config};
use crate::gitv2::{push_url_of, GitV2};
use crate::strutil::spec_remove_all;
use crate::FlowError;

verus! {

/// The percent-encoding of a piece of text, which depends on its bytes
/// alone.
pub uninterp spec fn url_encoded(s: Seq<char>) -> Seq<char>;

/// Relies on `urlencoding::encode`: percent-encodes every byte except ASCII
/// alphanumerics and `-`, `_`, `.`, `~`.
#[verifier::external_body]
fn url_encode(s: &str) -> (r: String)
    ensures
        r@ == url_encoded(s@),
{
    urlencoding::encode(s).into_owned()
}

/// The merge-request title for a branch converging into a source.
pub open spec fn spec_merge_title(branch_full: Seq<char>, origin_full: Seq<char>) -> Seq<char> {
    "Merging branch "@ + branch_full + " into "@ + origin_full
}

/// The merge-request URL: the remote base without `.git`, the fixed path,
/// and the three encoded parameters.
pub open spec fn spec_merge_request_url(
    raw_base: Seq<char>,
    branch_full: Seq<char>,
    origin_full: Seq<char>,
) -> Seq<char> {
    spec_remove_all(raw_base, ".git"@) + "/merge_requests/new?merge_request[source_branch]="@
        + url_encoded(branch_full) + "&merge_request[target_branch]="@ + url_encoded(origin_full)
        + "&merge_request[title]="@ + url_encoded(spec_merge_title(branch_full, origin_full))
}

/// Builds merge-request URLs for the host behind the `origin` remote.
pub struct Browser;

impl Browser {
    /// The merge-request URL for `branch` converging into `origin`, read off
    /// the given `git remote -v` listing; an error when the listing shows no
    /// push URL.
    pub fn merge_request(branch: &Branch, origin: &Branch, config: &Config, remote_output: &str)
        -> (r: Result<String, FlowError>)
        ensures
            match push_url_of(remote_output@) {
                None => r is Err && r->Err_0 is RemoteNotConfigured,
                Some(u) => r is Ok && r->Ok_0@ == spec_merge_request_url(
                    u,
                    branch.spec_full_name(config),
                    origin.spec_full_name(config),
                ),
            },
    {
        let remote_url = match GitV2::remote_push_url(remote_output) {
            Some(u) => u,
            None => {
                return Err(FlowError::RemoteNotConfigured);
            },
        };
        proof {
            reveal_strlit(".git");
        }
        let base = crate::strutil::remove_all(remote_url.as_str(), ".git");
        let branch_name = branch.full_name(config);
        let origin_name = origin.full_name(config);
        let mut title = ("Merging branch ").to_owned();
        title.append(branch_name.as_str());
        title.append(" into ");
        title.append(origin_name.as_str());
        assert(title@ == spec_merge_title(branch.spec_full_name(config), origin.spec_full_name(config)));
        let encoded_title = url_encode(title.as_str());
        let mut url = base;
        url.append("/merge_requests/new?merge_request[source_branch]=");
        let encoded_branch = url_encode(branch_name.as_str());
        url.append(encoded_branch.as_str());
        url.append("&merge_request[target_branch]=");
        let encoded_origin = url_encode(origin_name.as_str());
        url.append(encoded_origin.as_str());
        url.append("&merge_request[title]=");
        url.append(encoded_title.as_str());
        Ok(url)
    }
}

} // verus!
