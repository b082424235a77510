pub mod crates;
pub mod math;
pub mod web;

use crate::result::SearchResult;
use crate::search::crates::PendingRequest;
use vstd::prelude::*;
use vstd::seq_lib::*;
use vstd::string::StrSliceExecFns;
use vstd::string::StringExecFns;

verus! {

/// One message on its way to the aggregator: a result together with the
/// round it was produced for. Results of a superseded round are told apart
/// from current ones by their tag alone.
pub struct TaggedResult {
    pub round: u64,
    pub result: SearchResult,
}

/// What one query-change event asks the surroundings to do: put these
/// messages on the wire, and hand this request, if any, to the
/// remote-registry worker's slot.
pub struct Dispatch {
    pub messages: Vec<TaggedResult>,
    pub remote: Option<PendingRequest>,
}

/// Holds when `d` is the dispatch of one round for query `q`: nothing for an
/// empty query; otherwise the math provider's result (where the query
/// evaluates), then the web provider's result, each tagged with the round,
/// and a submission of the query to the remote worker.
pub open spec fn round_dispatch(q: Seq<char>, round: u64, d: Dispatch) -> bool {
    if q.len() == 0 {
        &&& d.messages@ == Seq::<TaggedResult>::empty()
        &&& d.remote is None
    } else {
        &&& forall|i: int| 0 <= i < d.messages@.len() ==> (#[trigger] d.messages@[i]).round == round
        &&& (if crate::search::math::eval_succeeds(q) {
            d.messages@.len() == 2 && crate::search::math::is_math_result(
                q,
                d.messages@[0].result,
            ) && crate::search::web::is_web_result(q, d.messages@[1].result)
        } else {
            d.messages@.len() == 1 && crate::search::web::is_web_result(q, d.messages@[0].result)
        })
        &&& d.remote matches Some(p) && p.query@ == q && p.round == round
    }
}

/// The results that a batch of arrived messages adds under the given round:
/// those tagged with it, in arrival order, stripped of their tag.
pub open spec fn current_round_results(arrived: Seq<TaggedResult>, round: u64) -> Seq<
    SearchResult,
> {
    arrived.filter(|m: TaggedResult| m.round == round).map_values(|m: TaggedResult| m.result)
}

proof fn lemma_current_round_push(arrived: Seq<TaggedResult>, m: TaggedResult, round: u64)
    ensures
        current_round_results(arrived.push(m), round) == current_round_results(arrived, round) + (
        if m.round == round {
            seq![m.result]
        } else {
            Seq::<SearchResult>::empty()
        }),
{
    reveal(Seq::filter);
    let pred = |t: TaggedResult| t.round == round;
    assert(arrived.push(m).drop_last() =~= arrived);
    assert(arrived.push(m).last() == m);
    if m.round == round {
        assert(arrived.push(m).filter(pred) =~= arrived.filter(pred).push(m));
        assert(current_round_results(arrived.push(m), round) =~= current_round_results(
            arrived,
            round,
        ) + seq![m.result]);
    } else {
        assert(arrived.push(m).filter(pred) =~= arrived.filter(pred));
        assert(current_round_results(arrived.push(m), round) =~= current_round_results(
            arrived,
            round,
        ) + Seq::<SearchResult>::empty());
    }
}

/// Idempotence of polling: with no new channel traffic a poll leaves the
/// visible result list exactly as it was.
pub proof fn lemma_poll_idempotent(results: Seq<SearchResult>, round: u64)
    ensures
        results + current_round_results(Seq::<TaggedResult>::empty(), round) == results,
{
    reveal(Seq::filter);
    assert(current_round_results(Seq::<TaggedResult>::empty(), round) =~= Seq::<
        SearchResult,
    >::empty());
    assert(results + current_round_results(Seq::<TaggedResult>::empty(), round) =~= results);
}

/// Staleness: messages generated for superseded rounds add nothing to the
/// list polled under the current round.
pub proof fn lemma_stale_results_discarded(arrived: Seq<TaggedResult>, round: u64)
    requires
        forall|i: int| 0 <= i < arrived.len() ==> (#[trigger] arrived[i]).round != round,
    ensures
        current_round_results(arrived, round) == Seq::<SearchResult>::empty(),
    decreases arrived.len(),
{
    reveal(Seq::filter);
    if arrived.len() == 0 {
        assert(current_round_results(arrived, round) =~= Seq::<SearchResult>::empty());
    } else {
        lemma_stale_results_discarded(arrived.drop_last(), round);
        lemma_current_round_push(arrived.drop_last(), arrived.last(), round);
        assert(arrived.drop_last().push(arrived.last()) =~= arrived);
        assert(current_round_results(arrived, round) =~= Seq::<SearchResult>::empty());
    }
}

/// Clamps a character index to the length of the text, the way edits past
/// the end land at the end.
pub open spec fn clamp_index(i: int, len: int) -> int {
    if i <= len {
        i
    } else {
        len
    }
}

/// The aggregator: owns the query text, the visible result list and the
/// current round. Every edit of the query starts a new round: the round
/// counter moves on, the result list is cleared, and the providers' messages
/// and the remote submission of the round are handed back for dispatch.
pub struct Searcher {
    query: String,
    round: u64,
    live: bool,
    pub results: Vec<SearchResult>,
}

/// Holds when one query-change event took the aggregator from `pre` to
/// `post` with the query now reading `new_query`: a fresh round is open, the
/// visible result list is empty before any poll, and `d` is that round's
/// dispatch.
pub open spec fn query_changed(pre: Searcher, post: Searcher, new_query: Seq<char>, d: Dispatch) -> bool {
    &&& post.spec_query() == new_query
    &&& post.spec_round() == pre.spec_round() + 1
    &&& post.spec_live()
    &&& post.spec_results() == Seq::<SearchResult>::empty()
    &&& round_dispatch(new_query, post.spec_round(), d)
}

impl Searcher {
    /// The query text.
    pub closed spec fn spec_query(&self) -> Seq<char> {
        self.query@
    }

    /// The visible result list.
    pub closed spec fn spec_results(&self) -> Seq<SearchResult> {
        self.results@
    }

    /// The current round: results are accepted under this tag alone.
    pub closed spec fn spec_round(&self) -> u64 {
        self.round
    }

    /// Whether a round has been opened, that is, a receiver is live.
    pub closed spec fn spec_live(&self) -> bool {
        self.live
    }

    /// A fresh aggregator: empty query, no results, no round open yet.
    pub fn new() -> (s: Searcher)
        ensures
            s.spec_query() == Seq::<char>::empty(),
            s.spec_round() == 0,
            !s.spec_live(),
            s.spec_results() == Seq::<SearchResult>::empty(),
    {
        Searcher { query: String::new(), round: 0, live: false, results: Vec::new() }
    }

    /// Opens a new round for the current query: clears the visible results,
    /// replaces the round tag (discarding the old round's messages for
    /// good), and, for a non-empty query, runs the synchronous providers and
    /// prepares the remote submission. For an empty query no provider runs.
    pub fn on_query_change(&mut self) -> (d: Dispatch)
        requires
            old(self).spec_round() < u64::MAX,
        ensures
            query_changed(*old(self), *final(self), old(self).spec_query(), d),
    {
        self.round = self.round + 1;
        self.live = true;
        self.results = Vec::new();
        let mut messages: Vec<TaggedResult> = Vec::new();
        let mut remote: Option<PendingRequest> = None;
        if !self.query.as_str().is_empty() {
            let mut sink: Vec<SearchResult> = Vec::new();
            crate::search::math::search(self.query.as_str(), &mut sink);
            crate::search::web::search(self.query.as_str(), &mut sink);
            let ghost produced = sink@;
            while sink.len() > 0
                invariant
                    messages@.len() + sink@.len() == produced.len(),
                    sink@ == produced.subrange(messages@.len() as int, produced.len() as int),
                    forall|j: int|
                        0 <= j < messages@.len() ==> (#[trigger] messages@[j]).round == self.round
                            && messages@[j].result == produced[j],
                    self.round == old(self).spec_round() + 1,
                decreases sink@.len(),
            {
                let result = sink.remove(0);
                messages.push(TaggedResult { round: self.round, result });
                proof {
                    assert(sink@ =~= produced.subrange(
                        messages@.len() as int,
                        produced.len() as int,
                    ));
                }
            }
            remote = Some(PendingRequest { query: self.query.clone(), round: self.round });
        }
        Dispatch { messages, remote }
    }

    /// Drains the messages that have arrived since the last call into the
    /// visible result list, in arrival order; messages of superseded rounds
    /// are discarded. With no round open it is a no-op. Never blocks.
    pub fn poll(&mut self, arrived: Vec<TaggedResult>)
        ensures
            final(self).spec_query() == old(self).spec_query(),
            final(self).spec_round() == old(self).spec_round(),
            final(self).spec_live() == old(self).spec_live(),
            !old(self).spec_live() ==> final(self).spec_results() == old(self).spec_results(),
            old(self).spec_live() ==> final(self).spec_results() == old(self).spec_results() + current_round_results(
                arrived@,
                old(self).spec_round(),
            ),
    {
        if !self.live {
            return ;
        }
        let ghost all = arrived@;
        let ghost start = self.results@;
        let ghost mut k: int = 0;
        let mut arrived = arrived;
        proof {
            assert(arrived@ =~= all.subrange(0, all.len() as int));
            assert(all.take(0) =~= Seq::<TaggedResult>::empty());
            lemma_poll_idempotent(start, self.round);
        }
        while arrived.len() > 0
            invariant
                0 <= k <= all.len(),
                arrived@.len() == all.len() - k,
                arrived@ == all.subrange(k, all.len() as int),
                self.results@ == start + current_round_results(all.take(k), self.round),
                self.query == old(self).query,
                self.round == old(self).round,
                self.live,
            decreases arrived@.len(),
        {
            proof {
                assert(arrived@[0] == all.subrange(k, all.len() as int)[0]);
            }
            let m = arrived.remove(0);
            proof {
                assert(m == all[k]);
                lemma_current_round_push(all.take(k), m, self.round);
                assert(all.take(k + 1) =~= all.take(k).push(all[k]));
            }
            if m.round == self.round {
                self.results.push(m.result);
            }
            proof {
                k = k + 1;
                assert(arrived@ =~= all.subrange(k, all.len() as int));
                assert(self.results@ =~= start + current_round_results(
                    all.take(k),
                    self.round,
                ));
            }
        }
        proof {
            assert(all.take(all.len() as int) =~= all);
        }
    }

    /// The current round's tag.
    pub fn round(&self) -> (r: u64)
        ensures
            r == self.spec_round(),
    {
        self.round
    }

    /// The query buffer accepts edits.
    pub fn is_mutable(&self) -> (r: bool)
        ensures
            r,
    {
        true
    }

    /// The query text as a string slice.
    pub fn as_str(&self) -> (r: &str)
        ensures
            r@ == self.spec_query(),
    {
        self.query.as_str()
    }

    /// Inserts text at a character index (clamped to the end), then opens a
    /// new round. Returns how many characters were inserted, and the round's
    /// dispatch.
    pub fn insert_text(&mut self, text: &str, char_index: usize) -> (r: (usize, Dispatch))
        requires
            old(self).spec_round() < u64::MAX,
        ensures
            r.0 as nat == text@.len(),
            query_changed(
                *old(self),
                *final(self),
                ({
                    let q = old(self).spec_query();
                    let ci = clamp_index(char_index as int, q.len() as int);
                    q.take(ci) + text@ + q.skip(ci)
                }),
                r.1,
            ),
    {
        let len = self.query.as_str().unicode_len();
        let ci = if char_index < len {
            char_index
        } else {
            len
        };
        let front = self.query.as_str().substring_char(0, ci);
        let back = self.query.as_str().substring_char(ci, len);
        let next = String::from_str(front).concat(text).concat(back);
        let n = text.unicode_len();
        self.query = next;
        let d = self.on_query_change();
        (n, d)
    }

    /// Deletes the character range `start..end` (each clamped to the end),
    /// then opens a new round. A range with `start > end` is a caller bug
    /// and is ruled out, not clamped.
    pub fn delete_char_range(&mut self, start: usize, end: usize) -> (d: Dispatch)
        requires
            start <= end,
            old(self).spec_round() < u64::MAX,
        ensures
            query_changed(
                *old(self),
                *final(self),
                ({
                    let q = old(self).spec_query();
                    q.take(clamp_index(start as int, q.len() as int)) + q.skip(
                        clamp_index(end as int, q.len() as int),
                    )
                }),
                d,
            ),
    {
        let len = self.query.as_str().unicode_len();
        let cs = if start < len {
            start
        } else {
            len
        };
        let ce = if end < len {
            end
        } else {
            len
        };
        let front = self.query.as_str().substring_char(0, cs);
        let back = self.query.as_str().substring_char(ce, len);
        let next = String::from_str(front).concat(back);
        self.query = next;
        self.on_query_change()
    }

    /// Empties the query, then opens a new round.
    pub fn clear(&mut self) -> (d: Dispatch)
        requires
            old(self).spec_round() < u64::MAX,
        ensures
            query_changed(*old(self), *final(self), Seq::<char>::empty(), d),
    {
        self.query = String::new();
        self.on_query_change()
    }

    /// Replaces the whole query, then opens a new round.
    pub fn replace(&mut self, text: &str) -> (d: Dispatch)
        requires
            old(self).spec_round() < u64::MAX,
        ensures
            query_changed(*old(self), *final(self), text@, d),
    {
        self.query = String::from_str(text);
        self.on_query_change()
    }

    /// Maps a character offset (clamped to the end of the text) to the
    /// offset where that character falls in the UTF-8 byte storage of the
    /// query.
    pub fn byte_index_from_char_index(&self, char_index: usize) -> (r: usize)
        ensures
            r == vstd::utf8::encode_utf8(
                self.spec_query().take(
                    clamp_index(char_index as int, self.spec_query().len() as int),
                ),
            ).len() as usize,
    {
        let len = self.query.as_str().unicode_len();
        let ci = if char_index < len {
            char_index
        } else {
            len
        };
        let front = self.query.as_str().substring_char(0, ci);
        proof {
            assert(front@ =~= self.spec_query().take(
                clamp_index(char_index as int, self.spec_query().len() as int),
            ));
        }
        front.len()
    }

    /// Takes the query text out, leaving it empty, then opens a new round.
    pub fn take(&mut self) -> (r: (String, Dispatch))
        requires
            old(self).spec_round() < u64::MAX,
        ensures
            r.0@ == old(self).spec_query(),
            query_changed(*old(self), *final(self), Seq::<char>::empty(), r.1),
    {
        let taken = self.query.clone();
        self.query = String::new();
        let d = self.on_query_change();
        (taken, d)
    }
}

} // verus!
