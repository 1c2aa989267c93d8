//! The third-party feed's subscription filter and credential handling.
//!
//! The feed variant must declare what it wants to watch before the stream
//! starts: a request mapping caller-chosen filter names to filter
//! specifications, plus a commitment level.  This tool subscribes to every
//! account update at the least-strict level, favouring latency over
//! finality.  An optional bearer token is attached to every outbound
//! request as the `x-token` metadata entry — but only when the transport's
//! header rules accept it; a malformed token is silently left off rather
//! than failing the call.

use vstd::prelude::*;

verus! {

/// The metadata key the bearer token travels under.
pub const X_TOKEN_HEADER: &'static str = "x-token";

/// The feed's finality tier for reported state.  `Processed` is the
/// least strict and therefore the lowest-latency choice.
#[derive(Clone, Copy, Debug, PartialEq, Eq, Structural)]
pub enum CommitmentLevel {
    Processed,
    Confirmed,
    Finalized,
}

impl CommitmentLevel {
    /// The numeric code the feed's wire schema assigns this level.
    pub fn wire_code(&self) -> (c: i32)
        ensures
            c == (match *self {
                CommitmentLevel::Processed => 0int,
                CommitmentLevel::Confirmed => 1int,
                CommitmentLevel::Finalized => 2int,
            }),
    {
        match self {
            CommitmentLevel::Processed => 0,
            CommitmentLevel::Confirmed => 1,
            CommitmentLevel::Finalized => 2,
        }
    }
}

/// A sub-filter narrowing an account filter beyond the account and owner
/// lists.  This tool never sets one, but the request shape carries them.
#[derive(Clone, Debug)]
pub enum SubFilter {
    /// Keep only accounts whose data is exactly this many bytes.
    Datasize(u64),
    /// Keep only accounts whose data at `offset` equals `data`.
    Memcmp { offset: u64, data: Vec<u8> },
}

/// One filter specification: which accounts and owners to watch, narrowed
/// by sub-filters.  An empty list matches everything of its category, so
/// the all-empty specification subscribes to every account update.
#[derive(Clone, Debug)]
pub struct AccountFilter {
    pub accounts: Vec<String>,
    pub owners: Vec<String>,
    pub sub_filters: Vec<SubFilter>,
}

impl AccountFilter {
    /// The specification matches every account update.
    pub open spec fn matches_all(self) -> bool {
        self.accounts@.len() == 0 && self.owners@.len() == 0 && self.sub_filters@.len() == 0
    }

    /// The all-empty specification: watch every account update.
    pub fn match_all() -> (f: AccountFilter)
        ensures
            f.matches_all(),
    {
        AccountFilter { accounts: Vec::new(), owners: Vec::new(), sub_filters: Vec::new() }
    }
}

/// One named entry of a subscription request.
#[derive(Clone, Debug)]
pub struct FilterEntry {
    pub name: String,
    pub filter: AccountFilter,
}

/// The feed subscription request: named filter entries plus a commitment
/// level.  Entry names are unique within one request.
#[derive(Clone, Debug)]
pub struct FilterSubscriptionRequest {
    pub entries: Vec<FilterEntry>,
    pub commitment: CommitmentLevel,
}

impl FilterSubscriptionRequest {
    /// The request invariant: no two entries share a name.
    pub open spec fn wf(self) -> bool {
        forall|i: int, j: int|
            0 <= i < j < self.entries@.len() ==> self.entries@[i].name@ != self.entries@[j].name@
    }

    /// An empty request at the given commitment level.
    pub fn new(commitment: CommitmentLevel) -> (r: FilterSubscriptionRequest)
        ensures
            r.wf(),
            r.entries@.len() == 0,
            r.commitment == commitment,
    {
        FilterSubscriptionRequest { entries: Vec::new(), commitment }
    }

    /// Whether some entry already carries this name.
    pub fn contains_name(&self, name: &String) -> (b: bool)
        ensures
            b == exists|i: int| 0 <= i < self.entries@.len() && self.entries@[i].name@ == name@,
    {
        let mut i: usize = 0;
        while i < self.entries.len()
            invariant
                i <= self.entries@.len(),
                forall|j: int| 0 <= j < i ==> self.entries@[j].name@ != name@,
            decreases self.entries@.len() - i,
        {
            if self.entries[i].name == *name {
                return true;
            }
            i += 1;
        }
        false
    }

    /// Adds a named filter entry, refusing a duplicate name so that the
    /// uniqueness invariant is kept.  Returns whether the entry went in;
    /// on refusal the request is unchanged.
    pub fn add_filter(&mut self, name: String, filter: AccountFilter) -> (added: bool)
        requires
            old(self).wf(),
        ensures
            final(self).wf(),
            added == !(exists|i: int|
                0 <= i < old(self).entries@.len() && old(self).entries@[i].name@ == name@),
            added ==> final(self).entries@ == old(self).entries@.push(
                FilterEntry { name, filter },
            ) && final(self).commitment == old(self).commitment,
            !added ==> *final(self) == *old(self),
    {
        if self.contains_name(&name) {
            false
        } else {
            self.entries.push(FilterEntry { name, filter });
            true
        }
    }
}

/// The fixed request this tool subscribes with: one entry named
/// `slot_account_updates` watching every account update, at the
/// least-strict commitment level.
pub fn all_updates_request() -> (r: FilterSubscriptionRequest)
    ensures
        r.wf(),
        r.entries@.len() == 1,
        r.entries@[0].name@ == "slot_account_updates"@,
        r.entries@[0].filter.matches_all(),
        r.commitment == CommitmentLevel::Processed,
{
    let mut r = FilterSubscriptionRequest::new(CommitmentLevel::Processed);
    let name = "slot_account_updates".to_owned();
    let _added = r.add_filter(name, AccountFilter::match_all());
    r
}

/// A character the transport accepts inside a metadata header value: tab,
/// or anything that is neither an ASCII control character nor delete.
pub open spec fn valid_header_char(c: char) -> bool {
    c as int == 9 || (32 <= c as int && c as int != 127)
}

/// A string the transport accepts as a metadata header value.
pub open spec fn valid_header_value(s: Seq<char>) -> bool {
    forall|i: int| 0 <= i < s.len() ==> valid_header_char(s[i])
}

/// Relies on `tonic::metadata::AsciiMetadataValue::from_str` (which is
/// `http::HeaderValue::from_str`): it accepts a string exactly when every
/// byte is a tab or is at least 32 and not 127 — for UTF-8 text, exactly
/// when every character is a tab or neither an ASCII control nor delete.
#[verifier::external_body]
fn transport_accepts_header(s: &str) -> (r: bool)
    ensures
        r == valid_header_value(s@),
{
    <tonic::metadata::AsciiMetadataValue as core::str::FromStr>::from_str(s).is_ok()
}

/// The token value to attach under `x-token`, if any: the configured
/// token exactly when the transport's header rules accept it.  A missing
/// token sends requests undecorated; a malformed one is silently left
/// off, since the attachment must never fail the call.
pub fn token_header(token: &Option<String>) -> (r: Option<String>)
    ensures
        match token {
            None => r is None,
            Some(t) => {
                if valid_header_value(t@) {
                    r matches Some(v) && v@ == t@
                } else {
                    r is None
                }
            },
        },
{
    match token {
        None => None,
        Some(t) => {
            if transport_accepts_header(t.as_str()) {
                Some(t.clone())
            } else {
                None
            }
        },
    }
}

/// Everything the feed consumer needs before opening its stream: the one
/// subscription request it will send, and the metadata value to attach
/// under `x-token`, if any.
#[derive(Clone, Debug)]
pub struct SubscriptionSetup {
    pub request: FilterSubscriptionRequest,
    pub x_token: Option<String>,
}

/// Builds the feed subscription: the all-updates request at the
/// least-strict commitment level, decorated with the configured token
/// exactly when the transport accepts it.  With no token configured the
/// request travels with no `x-token` entry at all.
pub fn build_subscription(token: &Option<String>) -> (s: SubscriptionSetup)
    ensures
        s.request.wf(),
        s.request.entries@.len() == 1,
        s.request.entries@[0].name@ == "slot_account_updates"@,
        s.request.entries@[0].filter.matches_all(),
        s.request.commitment == CommitmentLevel::Processed,
        match token {
            None => s.x_token is None,
            Some(t) => {
                if valid_header_value(t@) {
                    s.x_token matches Some(v) && v@ == t@
                } else {
                    s.x_token is None
                }
            },
        },
{
    SubscriptionSetup { request: all_updates_request(), x_token: token_header(token) }
}

} // verus!
