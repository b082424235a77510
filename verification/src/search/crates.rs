use crate::icons;
use crate::result::{SearchAction, SearchResult};
use vstd::prelude::*;
use vstd::string::StringExecFns;

verus! {

/// One not-yet-serviced submission to the remote-registry worker: the query
/// to look up and the round its results belong to.
pub struct PendingRequest {
    pub query: String,
    pub round: u64,
}

/// The single-slot mailbox shared by the dispatching side and the worker:
/// at most one pending request is stored, and a new submission overwrites
/// any previous one that was not yet serviced.
pub struct CratesResolver {
    state: Option<PendingRequest>,
}

/// The slot after a submission: the new request alone is pending, whatever
/// was pending before.
pub open spec fn submitted(slot: Option<PendingRequest>, p: PendingRequest) -> Option<
    PendingRequest,
> {
    Some(p)
}

impl CratesResolver {
    /// The request now pending, if any.
    pub closed spec fn pending(&self) -> Option<PendingRequest> {
        self.state
    }

    /// A resolver with nothing pending.
    pub fn new() -> (r: Self)
        ensures
            r.pending() is None,
    {
        CratesResolver { state: None }
    }

    /// Stores a submission, overwriting any pending one (last write wins).
    pub fn update(&mut self, query: String, round: u64)
        ensures
            final(self).pending() == submitted(
                old(self).pending(),
                (PendingRequest { query, round }),
            ),
    {
        self.state = Some(PendingRequest { query, round });
    }

    /// Takes and clears the pending request, so that each submission is
    /// serviced at most once.
    pub fn take(&mut self) -> (r: Option<PendingRequest>)
        ensures
            r == old(self).pending(),
            final(self).pending() is None,
    {
        let mut taken: Option<PendingRequest> = None;
        core::mem::swap(&mut taken, &mut self.state);
        taken
    }
}

/// Coalescing: of two submissions within one service interval only the
/// second is pending, so at most one remote call is made, for the second
/// query alone; the first submission is never serviced.
pub proof fn lemma_submissions_coalesce(
    slot: Option<PendingRequest>,
    first: PendingRequest,
    second: PendingRequest,
)
    ensures
        submitted(submitted(slot, first), second) == Some(second),
        first != second ==> submitted(submitted(slot, first), second) != Some(first),
{
}

/// The remote-registry provider's dispatch side: performs no network work
/// itself, only stores the query and its round into the shared slot and
/// returns at once.
pub fn search(query: &str, round: u64, resolver: &mut CratesResolver)
    ensures
        final(resolver).pending() matches Some(p) && p.query@ == query@ && p.round == round,
{
    resolver.update(String::from_str(query), round);
}

/// One record of the remote package registry, as the worker reads it: the
/// package's name and its newest version.
pub struct CrateRecord {
    pub name: String,
    pub max_version: String,
}

/// The text shown for a registry record: `<name>@<version>`.
pub open spec fn crate_text(name: Seq<char>, version: Seq<char>) -> Seq<char> {
    name + "@"@ + version
}

/// The canonical page of a registry record.
pub open spec fn crate_url(name: Seq<char>, version: Seq<char>) -> Seq<char> {
    "https://crates.io/crates/"@ + name + "/"@ + version
}

/// Holds when `r` is the result the worker builds from record `rec`.
pub open spec fn is_crate_result(rec: CrateRecord, r: SearchResult) -> bool {
    &&& r.icon == icons::SHROOM
    &&& r.text@ == crate_text(rec.name@, rec.max_version@)
    &&& r.action matches Some(SearchAction::OpenUrl(url)) && url@ == crate_url(
        rec.name@,
        rec.max_version@,
    )
}

/// Translates the records of one serviced lookup into results, one per
/// record, in order: default icon, text `<name>@<version>`, and an action
/// that opens the record's canonical page.
pub fn crate_results(records: Vec<CrateRecord>) -> (out: Vec<SearchResult>)
    ensures
        out@.len() == records@.len(),
        forall|i: int| 0 <= i < records@.len() ==> is_crate_result(records@[i], #[trigger] out@[i]),
{
    let ghost all = records@;
    let mut records = records;
    let mut out: Vec<SearchResult> = Vec::new();
    while records.len() > 0
        invariant
            out@.len() + records@.len() == all.len(),
            records@ == all.subrange(out@.len() as int, all.len() as int),
            forall|i: int| 0 <= i < out@.len() ==> is_crate_result(all[i], #[trigger] out@[i]),
        decreases records@.len(),
    {
        let rec = records.remove(0);
        let url = String::from_str("https://crates.io/crates/").concat(rec.name.as_str()).concat(
            "/",
        ).concat(rec.max_version.as_str());
        let text = rec.name.concat("@").concat(rec.max_version.as_str());
        let result = SearchResult::default().text(text).open_with(url);
        out.push(result);
        proof {
            assert(records@ =~= all.subrange(out@.len() as int, all.len() as int));
        }
    }
    out
}

} // verus!
