//! The two request variants, time-range resolution, and endpoint building.
//!
//! A query carries an optional start and end instant. An absent start
//! defaults to five minutes before now, an absent end to now; both are
//! rendered as RFC 3339 UTC strings at seconds precision. The endpoint is
//! one of two REST URLs over the account id, bucket name and resolved
//! range, with a literal `{DATE}` prefix token that the remote service
//! expands.

use vstd::prelude::*;
use vstd::string::StringExecFns;
use crate::clock::{now_epoch_secs, rfc3339_of, rfc3339_utc, valid_epoch_secs};
use crate::config::UrlEnv;

verus! {

/// The request variant: stream matching log records, or list the stored
/// objects that contain them.
#[derive(Clone, Copy, Debug, PartialEq, Eq, Structural)]
pub enum Commands {
    /// Stream logs stored in the bucket that match the query parameters.
    Retrieve,
    /// List the stored objects containing logs that match the query
    /// parameters.
    List,
}

/// The arguments of one invocation after time-range resolution: both
/// bounds rendered as RFC 3339 UTC strings.
pub struct ParsedArgs {
    pub start_time: String,
    pub end_time: String,
    pub verbose: bool,
    pub commands: Option<Commands>,
}

/// Seconds in the default trailing window: an absent start means five
/// minutes before now.
pub const DEFAULT_WINDOW_SECS: i64 = 300;

/// The instant the range starts at: the given one, or five minutes before
/// `now` when absent.
pub open spec fn start_instant(start: Option<i64>, now: i64) -> int {
    match start {
        Some(s) => s as int,
        None => now - DEFAULT_WINDOW_SECS,
    }
}

/// The instant the range ends at: the given one, or `now` when absent.
pub open spec fn end_instant(end: Option<i64>, now: i64) -> int {
    match end {
        Some(e) => e as int,
        None => now as int,
    }
}

impl ParsedArgs {
    /// Resolves the optional range bounds against the instant `now`:
    /// explicit bounds pass through unchanged, absent ones default to the
    /// trailing five-minute window ending at `now`, and both are rendered
    /// as RFC 3339 UTC strings. No ordering between the bounds is checked;
    /// the remote service is the authority on range validity.
    pub fn resolve_at(
        start: Option<i64>,
        end: Option<i64>,
        verbose: bool,
        commands: Option<Commands>,
        now: i64,
    ) -> (r: ParsedArgs)
        requires
            0 <= now,
            valid_epoch_secs(now as int),
            start matches Some(s) ==> valid_epoch_secs(s as int),
            end matches Some(e) ==> valid_epoch_secs(e as int),
        ensures
            r.start_time@ == rfc3339_of(start_instant(start, now)),
            r.end_time@ == rfc3339_of(end_instant(end, now)),
            r.verbose == verbose,
            r.commands == commands,
    {
        let start_secs: i64 = match start {
            Some(s) => s,
            None => now - DEFAULT_WINDOW_SECS,
        };
        let end_secs: i64 = match end {
            Some(e) => e,
            None => now,
        };
        ParsedArgs {
            start_time: rfc3339_utc(start_secs),
            end_time: rfc3339_utc(end_secs),
            verbose,
            commands,
        }
    }

    /// Resolves the optional range bounds against the current clock: there
    /// is one instant, read once, that an absent end resolves to and that
    /// an absent start trails by five minutes.
    pub fn resolve(
        start: Option<i64>,
        end: Option<i64>,
        verbose: bool,
        commands: Option<Commands>,
    ) -> (r: ParsedArgs)
        requires
            start matches Some(s) ==> valid_epoch_secs(s as int),
            end matches Some(e) ==> valid_epoch_secs(e as int),
        ensures
            exists|now: i64|
                {
                    &&& 0 <= now
                    &&& valid_epoch_secs(now as int)
                    &&& r.start_time@ == rfc3339_of(#[trigger] start_instant(start, now))
                    &&& r.end_time@ == rfc3339_of(end_instant(end, now))
                },
            r.verbose == verbose,
            r.commands == commands,
    {
        let now = now_epoch_secs();
        let r = Self::resolve_at(start, end, verbose, commands, now);
        proof {
            assert(0 <= now && valid_epoch_secs(now as int) && r.start_time@ == rfc3339_of(
                start_instant(start, now),
            ) && r.end_time@ == rfc3339_of(end_instant(end, now)));
        }
        r
    }
}

/// An absent start resolves five minutes before `now`, and an absent end
/// resolves to `now` itself, whatever the clock read.
pub proof fn lemma_default_window(now: i64)
    ensures
        start_instant(None, now) == now - 300,
        end_instant(None, now) == now,
{
}

/// Explicit range bounds pass through resolution unchanged: the rendered
/// strings name exactly the instants that were given, whatever the clock
/// read.
pub proof fn lemma_explicit_bounds_kept(s: i64, e: i64, now: i64)
    ensures
        start_instant(Some(s), now) == s,
        end_instant(Some(e), now) == e,
{
}

/// The URL prefix shared by both variants, up to the variant's own path
/// segment.
pub open spec fn endpoint_base(account: Seq<char>) -> Seq<char> {
    "https://api.cloudflare.com/client/v4/accounts/"@ + account + "/logs"@
}

/// The query string shared by both variants: range bounds, bucket, and the
/// literal `{DATE}` prefix token, which is not expanded client-side.
pub open spec fn endpoint_query(start: Seq<char>, end: Seq<char>, bucket: Seq<char>) -> Seq<char> {
    "start="@ + start + "&end="@ + end + "&bucket="@ + bucket + "&prefix="@ + "{DATE}"@
}

impl Commands {
    /// The path segment that names this variant.
    pub open spec fn path_segment(self) -> Seq<char> {
        match self {
            Commands::Retrieve => "retrieve"@,
            Commands::List => "list"@,
        }
    }

    /// The full endpoint URL for this variant over the given account id,
    /// bucket name and rendered range bounds.
    pub open spec fn endpoint_spec(
        self,
        start: Seq<char>,
        end: Seq<char>,
        account: Seq<char>,
        bucket: Seq<char>,
    ) -> Seq<char> {
        endpoint_base(account) + "/"@ + self.path_segment() + "?"@ + endpoint_query(
            start,
            end,
            bucket,
        )
    }

    /// The path segment that names this variant, as a string slice.
    pub fn path_segment_str(&self) -> (r: &'static str)
        ensures
            r@ == self.path_segment(),
    {
        match self {
            Commands::Retrieve => "retrieve",
            Commands::List => "list",
        }
    }

    /// Builds the endpoint URL for this variant: the fixed account base
    /// path, the variant's segment, and the query over the resolved range,
    /// the bucket name and the literal `{DATE}` token. Parameter values are
    /// spliced in as they stand; no URL encoding is applied.
    pub fn build_endpoint(&self, args: &ParsedArgs, env: &UrlEnv) -> (r: String)
        ensures
            r@ == self.endpoint_spec(
                args.start_time@,
                args.end_time@,
                env.cf_account_id@,
                env.bucket_name@,
            ),
    {
        let mut url = String::from_str("https://api.cloudflare.com/client/v4/accounts/");
        url.append(env.cf_account_id.as_str());
        url.append("/logs");
        url.append("/");
        url.append(self.path_segment_str());
        url.append("?");
        url.append("start=");
        url.append(args.start_time.as_str());
        url.append("&end=");
        url.append(args.end_time.as_str());
        url.append("&bucket=");
        url.append(env.bucket_name.as_str());
        url.append("&prefix=");
        url.append("{DATE}");
        proof {
            assert(url@ =~= self.endpoint_spec(
                args.start_time@,
                args.end_time@,
                env.cf_account_id@,
                env.bucket_name@,
            ));
        }
        url
    }
}

/// The two variants' endpoints differ only in the path segment: over the
/// same account, bucket and range they share the base path before it and
/// the query string after it.
pub proof fn lemma_endpoint_variants_differ_only_in_segment(
    start: Seq<char>,
    end: Seq<char>,
    account: Seq<char>,
    bucket: Seq<char>,
)
    ensures
        Commands::Retrieve.endpoint_spec(start, end, account, bucket) == endpoint_base(account)
            + "/"@ + "retrieve"@ + "?"@ + endpoint_query(start, end, bucket),
        Commands::List.endpoint_spec(start, end, account, bucket) == endpoint_base(account) + "/"@
            + "list"@ + "?"@ + endpoint_query(start, end, bucket),
{
}

} // verus!
