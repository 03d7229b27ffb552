//! The pagination aggregator: computes the sequence of paged requests for a
//! desired item count, threads the continuation cursor from each response
//! into the next request, and concatenates the returned pages, trimmed to
//! the exact requested total.
//!
//! The aggregator never touches the network itself. A driver asks it for
//! the next request's `first`/`after` parameters, issues the call, and feeds
//! the status and body back in; the aggregator validates and accumulates.

use vstd::prelude::*;
use vstd::string::*;
use crate::error::TwitchError;
use crate::http::is_success_status;
use crate::text::dec_rep;

verus! {

/// Number of page requests needed to collect `count` items when at most
/// `maximum` arrive per request: the ceiling of `count / maximum`.
pub open spec fn pages_needed(count: nat, maximum: nat) -> nat
    recommends
        maximum > 0,
{
    if count % maximum == 0 {
        count / maximum
    } else {
        count / maximum + 1
    }
}

/// The abstract state of one aggregation in progress: the fixed plan
/// (per-page maximum, requested count, number of pages), and the progress
/// made so far (pages fetched, current continuation cursor, accumulated
/// items, each the serialized text of one record).
#[verifier::ext_equal]
pub ghost struct PageFlow {
    pub endpoint_maximum: nat,
    pub count: nat,
    pub pages_to_request: nat,
    pub pages_done: nat,
    pub cursor: Seq<char>,
    pub items: Seq<Seq<char>>,
}

impl PageFlow {
    /// Internal consistency: a positive per-page maximum, the page count
    /// fixed by the ceiling formula, and never more progress than planned.
    pub open spec fn wf(self) -> bool {
        &&& self.endpoint_maximum > 0
        &&& self.pages_to_request == pages_needed(self.count, self.endpoint_maximum)
        &&& self.pages_done <= self.pages_to_request
        &&& self.items.len() <= self.count
    }

    /// The state before any page has been fetched: empty cursor, empty
    /// accumulator.
    pub open spec fn initial(endpoint_maximum: nat, count: nat) -> PageFlow {
        PageFlow {
            endpoint_maximum,
            count,
            pages_to_request: pages_needed(count, endpoint_maximum),
            pages_done: 0,
            cursor: Seq::empty(),
            items: Seq::empty(),
        }
    }

    /// The aggregation is finished: every planned page was fetched, or the
    /// requested count is already reached.
    pub open spec fn done(self) -> bool {
        self.pages_done == self.pages_to_request || self.items.len() == self.count
    }

    /// How many items still to collect.
    pub open spec fn remaining(self) -> nat
        recommends
            self.items.len() <= self.count,
    {
        (self.count - self.items.len()) as nat
    }

    /// The page size of the next request: the endpoint maximum, except that
    /// the last page asks only for the exact remainder.
    pub open spec fn next_first(self) -> nat
        recommends
            self.items.len() <= self.count,
    {
        if self.endpoint_maximum <= self.remaining() {
            self.endpoint_maximum
        } else {
            self.remaining()
        }
    }

    /// The part of a returned page that is kept: all of it, trimmed so that
    /// the accumulator never exceeds the requested count.
    pub open spec fn kept(self, page: Seq<Seq<char>>) -> Seq<Seq<char>> {
        if page.len() <= self.remaining() {
            page
        } else {
            page.take(self.remaining() as int)
        }
    }

    /// One step of the aggregation: record the response's cursor for the
    /// next request and append the returned items, in order.
    pub open spec fn feed(self, cursor: Seq<char>, page: Seq<Seq<char>>) -> PageFlow {
        PageFlow {
            pages_done: self.pages_done + 1,
            cursor: cursor,
            items: self.items + self.kept(page),
            ..self
        }
    }

    /// Full-page progress: every page so far supplied what was asked of it,
    /// so the accumulator sits exactly at the page-count arithmetic.
    pub open spec fn on_schedule(self) -> bool {
        self.items.len() == if self.count <= self.pages_done * self.endpoint_maximum {
            self.count
        } else {
            self.pages_done * self.endpoint_maximum
        }
    }
}

/// The two sides of the ceiling: the planned pages can carry the requested
/// count, and one page fewer cannot.
proof fn lemma_pages_needed_bounds(count: nat, maximum: nat)
    requires
        maximum > 0,
    ensures
        count <= pages_needed(count, maximum) * maximum,
        count > 0 ==> (pages_needed(count, maximum) - 1) * maximum < count,
{
    let q = count / maximum;
    let r = count % maximum;
    vstd::arithmetic::div_mod::lemma_fundamental_div_mod(count as int, maximum as int);
    assert(count == maximum * q + r);
    if r == 0 {
        assert(pages_needed(count, maximum) == q);
        assert(q * maximum == maximum * q) by (nonlinear_arith);
        if count > 0 {
            assert((q - 1) * maximum == maximum * q - maximum) by (nonlinear_arith);
        }
    } else {
        assert(pages_needed(count, maximum) == q + 1);
        assert((q + 1) * maximum == maximum * q + maximum) by (nonlinear_arith);
        assert(q * maximum == maximum * q) by (nonlinear_arith);
    }
}

/// Law: an aggregation that has stayed on schedule and is finished holds
/// exactly the requested number of items: never more, never less.
pub proof fn lemma_full_pages_exact_count(flow: PageFlow)
    requires
        flow.wf(),
        flow.on_schedule(),
        flow.done(),
    ensures
        flow.items.len() == flow.count,
{
    if flow.items.len() != flow.count {
        lemma_pages_needed_bounds(flow.count, flow.endpoint_maximum);
        assert(flow.pages_done == flow.pages_to_request);
        assert(flow.count <= flow.pages_done * flow.endpoint_maximum);
    }
}

/// Law: feeding a page that supplies exactly the requested page size keeps
/// the aggregation well formed and on schedule, so a run over full pages
/// stays on schedule from start to finish.
pub proof fn lemma_feed_keeps_schedule(flow: PageFlow, cursor: Seq<char>, page: Seq<Seq<char>>)
    requires
        flow.wf(),
        flow.on_schedule(),
        !flow.done(),
        page.len() == flow.next_first(),
    ensures
        flow.feed(cursor, page).wf(),
        flow.feed(cursor, page).on_schedule(),
{
    let d = flow.pages_done;
    let m = flow.endpoint_maximum;
    let c = flow.count;
    let l = flow.items.len();
    assert(l == if c <= d * m {
        c
    } else {
        d * m
    });
    assert(l < c);
    assert(l == d * m);
    assert((d + 1) * m == d * m + m) by (nonlinear_arith);
    let next = flow.feed(cursor, page);
    assert(next.items.len() == l + page.len());
    if m <= c - l {
        assert(next.items.len() == (d + 1) * m);
        assert(next.on_schedule());
    } else {
        assert(next.items.len() == c);
        assert(next.on_schedule());
    }
}

/// Law: the number of planned pages is the ceiling of `count` over the
/// endpoint maximum, and while on schedule every page before the last
/// requests exactly the endpoint maximum while the last requests the exact
/// remainder.
pub proof fn lemma_page_sizes(flow: PageFlow)
    requires
        flow.wf(),
        flow.on_schedule(),
        !flow.done(),
    ensures
        flow.pages_to_request == pages_needed(flow.count, flow.endpoint_maximum),
        flow.pages_done + 1 == flow.pages_to_request ==> flow.next_first() == flow.count
            - flow.items.len(),
        flow.pages_done + 1 < flow.pages_to_request ==> flow.next_first()
            == flow.endpoint_maximum,
{
    let d = flow.pages_done;
    let m = flow.endpoint_maximum;
    let c = flow.count;
    let l = flow.items.len();
    let p = flow.pages_to_request;
    assert(l < c);
    assert(l == d * m);
    lemma_pages_needed_bounds(c, m);
    if d + 1 == p {
        assert((d + 1) * m == d * m + m) by (nonlinear_arith);
        assert(c - l <= m);
    } else if d + 1 < p {
        assert((d + 1) * m <= (p - 1) * m) by (nonlinear_arith)
            requires
                d + 1 <= p - 1,
                m >= 0,
        ;
        assert((d + 1) * m == d * m + m) by (nonlinear_arith);
        assert(m < c - l);
    }
}

/// Law: the continuation cursor is threaded exactly: the first request's
/// `after` value is the empty string, and the request following a fed page
/// carries that page's cursor.
pub proof fn lemma_cursor_threading(
    flow: PageFlow,
    cursor: Seq<char>,
    page: Seq<Seq<char>>,
    endpoint_maximum: nat,
    count: nat,
)
    ensures
        PageFlow::initial(endpoint_maximum, count).cursor == Seq::<char>::empty(),
        flow.feed(cursor, page).cursor == cursor,
{
}

/// Law: concatenated output preserves page order and intra-page order:
/// feeding two pages that fit within the requested count appends first the
/// whole earlier page, then the whole later one, with no reordering.
pub proof fn lemma_ordering(
    flow: PageFlow,
    first_cursor: Seq<char>,
    first_page: Seq<Seq<char>>,
    second_cursor: Seq<char>,
    second_page: Seq<Seq<char>>,
)
    requires
        flow.items.len() + first_page.len() + second_page.len() <= flow.count,
    ensures
        flow.feed(first_cursor, first_page).feed(second_cursor, second_page).items == flow.items
            + first_page + second_page,
{
}

/// Law: a request for zero items is complete before any page is fetched,
/// with an empty result.
pub proof fn lemma_zero_count(endpoint_maximum: nat)
    ensures
        PageFlow::initial(endpoint_maximum, 0).done(),
        PageFlow::initial(endpoint_maximum, 0).items == Seq::<Seq<char>>::empty(),
{
}

/// The caller-supplied base query parameters, as a sequence of key/value
/// character sequences; an absent list is the empty sequence.
pub open spec fn base_query_view(base: Option<&Vec<(String, String)>>) -> Seq<
    (Seq<char>, Seq<char>),
> {
    match base {
        Some(pairs) => pairs.deep_view(),
        None => Seq::empty(),
    }
}

/// Whether a body is a well-formed JSON document, i.e. whether
/// `serde_json::from_str` accepts it as a `serde_json::Value`.
pub uninterp spec fn json_well_formed(body: Seq<char>) -> bool;

/// What the pagination envelope of a well-formed body holds: the string at
/// its `pagination.cursor` path together with the serialized text of each
/// element of its `data` array, or nothing when either field is missing or
/// of the wrong type.
pub uninterp spec fn envelope_of(body: Seq<char>) -> Option<(Seq<char>, Seq<Seq<char>>)>;

/// Split a paginated response body into its continuation cursor and the
/// serialized text of each item of its `data` array.
///
/// Relies on `serde_json`: `from_str` parses the body into a
/// `serde_json::Value` (failure is a `DeserializationFailed`); indexing with
/// `"pagination"`/`"cursor"`/`"data"` yields `Null` for a missing key, so
/// `as_str` and `as_array` return `None` exactly when the cursor is not a
/// string or the item list is not an array (a
/// `MalformedPaginationEnvelope`); `to_string` re-serializes each array
/// element, and cannot fail on a value that was itself parsed from JSON,
/// since such a value contains no non-string map keys.
#[verifier::external_body]
fn extract_envelope(body: &str) -> (r: Result<(String, Vec<String>), TwitchError>)
    ensures
        (r is Ok) == (json_well_formed(body@) && envelope_of(body@) is Some),
        r is Ok ==> envelope_of(body@) == Some((r->Ok_0.0@, r->Ok_0.1.deep_view())),
        r is Err ==> r->Err_0 == if !json_well_formed(body@) {
            TwitchError::DeserializationFailed
        } else {
            TwitchError::MalformedPaginationEnvelope
        },
{
    let v: serde_json::Value = match serde_json::from_str(body) {
        Ok(v) => v,
        Err(_) => return Err(TwitchError::DeserializationFailed),
    };
    let (cursor, arr) = match (v["pagination"]["cursor"].as_str(), v["data"].as_array()) {
        (Some(c), Some(a)) => (c.to_owned(), a),
        _ => return Err(TwitchError::MalformedPaginationEnvelope),
    };
    let mut items: Vec<String> = Vec::new();
    for item in arr {
        items.push(serde_json::to_string(item).unwrap_or_default());
    }
    Ok((cursor, items))
}

/// The executable aggregation state. Mirrors [`PageFlow`], which is its
/// view.
///
/// The plan is fixed by page-count arithmetic alone: if the upstream
/// resource is exhausted before `count` items have been collected, the
/// remaining computed pages are still requested, and a page supplying fewer
/// items than asked simply leaves the final aggregate short. A page
/// supplying more than asked is trimmed, so the aggregate never exceeds
/// `count` items.
pub struct Paginator {
    endpoint_maximum: u64,
    count: u64,
    pages_to_request: u64,
    pages_done: u64,
    cursor: String,
    items: Vec<String>,
}

impl View for Paginator {
    type V = PageFlow;

    closed spec fn view(&self) -> PageFlow {
        PageFlow {
            endpoint_maximum: self.endpoint_maximum as nat,
            count: self.count as nat,
            pages_to_request: self.pages_to_request as nat,
            pages_done: self.pages_done as nat,
            cursor: self.cursor@,
            items: self.items.deep_view(),
        }
    }
}

impl Paginator {
    /// Start an aggregation that will collect exactly `count` items from an
    /// endpoint returning at most `endpoint_maximum` items per request.
    pub fn new(endpoint_maximum: u64, count: u64) -> (r: Paginator)
        requires
            endpoint_maximum > 0,
        ensures
            r@ == PageFlow::initial(endpoint_maximum as nat, count as nat),
            r@.wf(),
            r@.on_schedule(),
            count == 0 ==> r@.done(),
    {
        let pages_to_request = if count % endpoint_maximum == 0 {
            count / endpoint_maximum
        } else {
            proof {
                assert(count / endpoint_maximum < u64::MAX) by (nonlinear_arith)
                    requires
                        endpoint_maximum >= 2,
                        count <= u64::MAX,
                ;
            }
            count / endpoint_maximum + 1
        };
        let r = Paginator {
            endpoint_maximum,
            count,
            pages_to_request,
            pages_done: 0,
            cursor: String::new(),
            items: Vec::new(),
        };
        proof {
            assert(r@ =~= PageFlow::initial(endpoint_maximum as nat, count as nat));
        }
        r
    }

    /// Whether the aggregation is finished.
    pub fn is_done(&self) -> (r: bool)
        requires
            self@.wf(),
        ensures
            r == self@.done(),
    {
        self.pages_done == self.pages_to_request || (self.items.len() as u64) == self.count
    }

    /// The parameters of the next request: the page size to pass as `first`
    /// and the continuation cursor to pass as `after` (empty for the first
    /// request).
    pub fn next_request(&self) -> (r: (u64, String))
        requires
            self@.wf(),
            !self@.done(),
        ensures
            r.0 as nat == self@.next_first(),
            r.1@ == self@.cursor,
    {
        let remaining = self.count - (self.items.len() as u64);
        let first = if self.endpoint_maximum <= remaining {
            self.endpoint_maximum
        } else {
            remaining
        };
        (first, self.cursor.clone())
    }

    /// Record one successfully decoded page: remember its cursor for the
    /// next request and append its items in order, trimmed to the requested
    /// total.
    pub fn feed_page(&mut self, cursor: String, page_items: Vec<String>)
        requires
            old(self)@.wf(),
            !old(self)@.done(),
        ensures
            final(self)@ == old(self)@.feed(cursor@, page_items.deep_view()),
            final(self)@.wf(),
    {
        let ghost pre = self@;
        let ghost page = page_items.deep_view();
        let mut page_items = page_items;
        let room = self.count - (self.items.len() as u64);
        if (page_items.len() as u64) > room {
            page_items.truncate(room as usize);
        }
        proof {
            assert(page_items.deep_view() =~= pre.kept(page));
        }
        self.pages_done = self.pages_done + 1;
        self.cursor = cursor;
        let ghost kept = page_items.deep_view();
        self.items.append(&mut page_items);
        proof {
            assert(self.items.deep_view() =~= pre.items + kept);
            assert(self@ =~= pre.feed(cursor@, page));
        }
    }

    /// Validate one raw HTTP response and, on success, fold its page into
    /// the aggregation.
    ///
    /// The whole error taxonomy of a page shows up here, each on exactly the
    /// inputs that produce it: a status outside the success range is an
    /// [`TwitchError::UnsuccessfulStatus`] carrying the code, a body that is
    /// not JSON is a [`TwitchError::DeserializationFailed`], and a missing
    /// or mistyped cursor or item array is a
    /// [`TwitchError::MalformedPaginationEnvelope`]. On any failure the
    /// aggregation state is left untouched: no partial page is kept.
    pub fn feed_response(&mut self, status: u16, body: &str) -> (r: Result<(), TwitchError>)
        requires
            old(self)@.wf(),
            !old(self)@.done(),
        ensures
            final(self)@.wf(),
            r is Ok <==> is_success_status(status) && json_well_formed(body@) && envelope_of(
                body@,
            ) is Some,
            r is Ok ==> final(self)@ == old(self)@.feed(
                envelope_of(body@)->Some_0.0,
                envelope_of(body@)->Some_0.1,
            ),
            r is Err ==> final(self)@ == old(self)@,
            r matches Err(e) ==> e == if !is_success_status(status) {
                TwitchError::UnsuccessfulStatus(status)
            } else if !json_well_formed(body@) {
                TwitchError::DeserializationFailed
            } else {
                TwitchError::MalformedPaginationEnvelope
            },
    {
        if !crate::http::status_is_success(status) {
            return Err(TwitchError::UnsuccessfulStatus(status));
        }
        match extract_envelope(body) {
            Ok((cursor, page_items)) => {
                self.feed_page(cursor, page_items);
                Ok(())
            },
            Err(e) => Err(e),
        }
    }

    /// The full query parameter list of the next request: the caller's base
    /// parameters (which must not themselves contain `first` or `after`),
    /// then `first` with the next page size in decimal, then `after` with
    /// the continuation cursor.
    pub fn next_query(&self, base: Option<&Vec<(String, String)>>) -> (r: Vec<(String, String)>)
        requires
            self@.wf(),
            !self@.done(),
        ensures
            r.deep_view() == base_query_view(base) + seq![
                ("first"@, dec_rep(self@.next_first())),
                ("after"@, self@.cursor),
            ],
    {
        let mut q: Vec<(String, String)> = Vec::new();
        match base {
            Some(pairs) => {
                let mut i: usize = 0;
                while i < pairs.len()
                    invariant
                        i <= pairs.len(),
                        q.deep_view() == pairs.deep_view().take(i as int),
                    decreases pairs.len() - i,
                {
                    let key = pairs[i].0.clone();
                    let value = pairs[i].1.clone();
                    proof {
                        assert(q.deep_view().len() == i);
                    }
                    q.push((key, value));
                    proof {
                        assert(q.deep_view() =~~= pairs.deep_view().take(i + 1 as int));
                    }
                    i = i + 1;
                }
                proof {
                    assert(q.deep_view() =~~= base_query_view(base));
                }
            },
            None => {
                proof {
                    assert(q.deep_view() =~~= base_query_view(base));
                }
            },
        }
        let (first, after) = self.next_request();
        q.push((String::from_str("first"), crate::text::u64_to_string(first)));
        q.push((String::from_str("after"), after));
        proof {
            assert(q.deep_view() =~~= base_query_view(base) + seq![
                ("first"@, dec_rep(self@.next_first())),
                ("after"@, self@.cursor),
            ]);
        }
        q
    }

    /// The items accumulated so far, in request order.
    pub fn current_items(&self) -> (r: &Vec<String>)
        ensures
            r.deep_view() == self@.items,
    {
        &self.items
    }

    /// How many pages have been fetched so far.
    pub fn pages_fetched(&self) -> (r: u64)
        ensures
            r as nat == self@.pages_done,
    {
        self.pages_done
    }

    /// Finish the aggregation, handing the accumulated items out in request
    /// order.
    pub fn into_items(self) -> (r: Vec<String>)
        ensures
            r.deep_view() == self@.items,
    {
        self.items
    }
}

} // verus!
