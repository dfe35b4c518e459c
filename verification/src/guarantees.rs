//! What holds of the store over any run of requests, proved of the outcomes
//! that the operations are specified by.

use crate::code::is_short_code;
use crate::long_url::canonical_long_url;
use crate::store::{create_outcome, is_mapping, long_url_of};
use vstd::prelude::*;

verus! {

/// One request to create a short link: the text of the long URL, and the
/// candidate code at hand when it is served.
pub type Request = (Seq<char>, Seq<char>);

/// The entries after `requests` were served one after the other, in order.
pub open spec fn entries_after(
    entries: Map<Seq<char>, Seq<char>>,
    host: Seq<char>,
    requests: Seq<Request>,
) -> Map<Seq<char>, Seq<char>>
    decreases requests.len(),
{
    if requests.len() == 0 {
        entries
    } else {
        create_outcome(
            entries_after(entries, host, requests.drop_last()),
            host,
            requests.last().0,
            requests.last().1,
        ).0
    }
}

/// Whether the request at `index` of `requests` is answered with a short URL
/// when `requests` are served in order.
pub open spec fn succeeds_at(
    entries: Map<Seq<char>, Seq<char>>,
    host: Seq<char>,
    requests: Seq<Request>,
    index: int,
) -> bool {
    create_outcome(
        entries_after(entries, host, requests.take(index)),
        host,
        requests[index].0,
        requests[index].1,
    ).1 is Ok
}

/// Creating a short link keeps a mapping a mapping and every entry as it
/// was. At most one entry is added: for the long URL of the request, and only
/// if the request is answered with a short URL. A request that is answered
/// with a short URL leaves its long URL with a code.
pub proof fn lemma_create_keeps_entries(
    entries: Map<Seq<char>, Seq<char>>,
    host: Seq<char>,
    input: Seq<char>,
    candidate: Seq<char>,
)
    requires
        is_mapping(entries),
    ensures
        ({
            let outcome = create_outcome(entries, host, input, candidate);
            &&& is_mapping(outcome.0)
            &&& forall|long_url: Seq<char>| #[trigger]
                entries.contains_key(long_url) ==> outcome.0.contains_key(long_url)
                    && outcome.0[long_url] == entries[long_url]
            &&& forall|long_url: Seq<char>| #[trigger]
                outcome.0.contains_key(long_url) && !entries.contains_key(long_url) ==> outcome.1
                    is Ok && canonical_long_url(input) == Some(long_url)
            &&& outcome.1 is Ok ==> canonical_long_url(input) is Some && outcome.0.contains_key(
                canonical_long_url(input)->0,
            )
            &&& outcome.1 is Err ==> outcome.0 == entries
            &&& outcome.0.len() == entries.len() + (if outcome.0 == entries {
                0nat
            } else {
                1nat
            })
        }),
{
}

/// Idempotence: once a request for a long URL was answered with a short URL,
/// a second request for it, whatever candidate is then at hand, gets the same
/// answer, leaves the entries as they are, and so the long URL with the same
/// code.
pub proof fn lemma_create_is_idempotent(
    entries: Map<Seq<char>, Seq<char>>,
    host: Seq<char>,
    input: Seq<char>,
    first: Seq<char>,
    second: Seq<char>,
)
    requires
        is_mapping(entries),
    ensures
        ({
            let once = create_outcome(entries, host, input, first);
            let twice = create_outcome(once.0, host, input, second);
            once.1 is Ok ==> {
                &&& twice.1 == once.1
                &&& twice.0 == once.0
                &&& twice.0[canonical_long_url(input)->0] == once.0[canonical_long_url(input)->0]
            }
        }),
{
}

/// Uniqueness: two requests for different long URLs that are both answered
/// with a short URL leave the two with different codes.
pub proof fn lemma_codes_are_unique(
    entries: Map<Seq<char>, Seq<char>>,
    host: Seq<char>,
    input1: Seq<char>,
    candidate1: Seq<char>,
    input2: Seq<char>,
    candidate2: Seq<char>,
)
    requires
        is_mapping(entries),
        canonical_long_url(input1) != canonical_long_url(input2),
    ensures
        ({
            let first = create_outcome(entries, host, input1, candidate1);
            let second = create_outcome(first.0, host, input2, candidate2);
            first.1 is Ok && second.1 is Ok ==> {
                let long_url1 = canonical_long_url(input1)->0;
                let long_url2 = canonical_long_url(input2)->0;
                &&& second.0.contains_key(long_url1)
                &&& second.0.contains_key(long_url2)
                &&& second.0[long_url1] != second.0[long_url2]
            }
        }),
{
    let first = create_outcome(entries, host, input1, candidate1);
    lemma_create_keeps_entries(entries, host, input1, candidate1);
    lemma_create_keeps_entries(first.0, host, input2, candidate2);
}

/// In a mapping, the code of a long URL stands for that long URL and for no
/// other.
pub proof fn lemma_code_resolves(entries: Map<Seq<char>, Seq<char>>, long_url: Seq<char>)
    requires
        is_mapping(entries),
        entries.contains_key(long_url),
    ensures
        long_url_of(entries, entries[long_url]) == Some(long_url),
{
}

/// Round trip: after a request for a long URL was answered with a short URL,
/// the code of the long URL resolves to it.
pub proof fn lemma_round_trip(
    entries: Map<Seq<char>, Seq<char>>,
    host: Seq<char>,
    input: Seq<char>,
    candidate: Seq<char>,
)
    requires
        is_mapping(entries),
    ensures
        ({
            let outcome = create_outcome(entries, host, input, candidate);
            outcome.1 is Ok ==> {
                let long_url = canonical_long_url(input)->0;
                &&& outcome.0.contains_key(long_url)
                &&& long_url_of(outcome.0, outcome.0[long_url]) == Some(long_url)
            }
        }),
{
    let outcome = create_outcome(entries, host, input, candidate);
    lemma_create_keeps_entries(entries, host, input, candidate);
    if outcome.1 is Ok {
        lemma_code_resolves(outcome.0, canonical_long_url(input)->0);
    }
}

/// In a mapping, a text that is no short code stands for no long URL.
pub proof fn lemma_only_codes_resolve(entries: Map<Seq<char>, Seq<char>>, code: Seq<char>)
    requires
        is_mapping(entries),
        !is_short_code(code),
    ensures
        long_url_of(entries, code) is None,
{
}

/// Over any run of requests a mapping stays a mapping, and every entry stays
/// as it is: a long URL that has a code keeps that code, in whatever order
/// the requests that follow are served.
pub proof fn lemma_codes_are_stable(
    entries: Map<Seq<char>, Seq<char>>,
    host: Seq<char>,
    requests: Seq<Request>,
)
    requires
        is_mapping(entries),
    ensures
        is_mapping(entries_after(entries, host, requests)),
        forall|long_url: Seq<char>| #[trigger]
            entries.contains_key(long_url) ==> entries_after(
                entries,
                host,
                requests,
            ).contains_key(long_url) && entries_after(entries, host, requests)[long_url]
                == entries[long_url],
    decreases requests.len(),
{
    if requests.len() > 0 {
        lemma_codes_are_stable(entries, host, requests.drop_last());
        lemma_create_keeps_entries(
            entries_after(entries, host, requests.drop_last()),
            host,
            requests.last().0,
            requests.last().1,
        );
    }
}

/// All requests for one long URL get the same answer from the first that is
/// answered with a short URL onwards, whatever else is served in between and
/// whatever candidates are at hand.
pub proof fn lemma_same_long_url_same_answer(
    entries: Map<Seq<char>, Seq<char>>,
    host: Seq<char>,
    input: Seq<char>,
    first: Seq<char>,
    between: Seq<Request>,
    later: Seq<char>,
)
    requires
        is_mapping(entries),
    ensures
        ({
            let once = create_outcome(entries, host, input, first);
            let again = create_outcome(
                entries_after(once.0, host, between),
                host,
                input,
                later,
            );
            once.1 is Ok ==> again.1 == once.1
        }),
{
    let once = create_outcome(entries, host, input, first);
    lemma_create_keeps_entries(entries, host, input, first);
    lemma_codes_are_stable(once.0, host, between);
    if once.1 is Ok {
    }
}

/// Requests for pairwise different long URLs, none of which has a code yet,
/// that are all answered with a short URL add one entry each, in whatever
/// order they are served: afterwards each of the long URLs has a code, no two
/// of them the same, and the entries are as many more as there were requests.
pub proof fn lemma_distinct_requests_add_distinct_codes(
    entries: Map<Seq<char>, Seq<char>>,
    host: Seq<char>,
    requests: Seq<Request>,
)
    requires
        is_mapping(entries),
        forall|i: int|
            0 <= i < requests.len() ==> canonical_long_url(#[trigger] requests[i].0) is Some
                && !entries.contains_key(canonical_long_url(requests[i].0)->0),
        forall|i: int, j: int|
            0 <= i < j < requests.len() ==> canonical_long_url(#[trigger] requests[i].0)
                != canonical_long_url(#[trigger] requests[j].0),
        forall|i: int| 0 <= i < requests.len() ==> #[trigger] succeeds_at(entries, host, requests, i),
    ensures
        ({
            let served = entries_after(entries, host, requests);
            &&& is_mapping(served)
            &&& served.len() == entries.len() + requests.len()
            &&& forall|i: int|
                0 <= i < requests.len() ==> served.contains_key(
                    canonical_long_url(#[trigger] requests[i].0)->0,
                )
            &&& forall|i: int, j: int|
                0 <= i < j < requests.len() ==> served[canonical_long_url(
                    #[trigger] requests[i].0,
                )->0] != served[canonical_long_url(#[trigger] requests[j].0)->0]
            &&& forall|long_url: Seq<char>| #[trigger]
                served.contains_key(long_url) ==> entries.contains_key(long_url) || exists|i: int|
                    0 <= i < requests.len() && canonical_long_url(#[trigger] requests[i].0) == Some(
                        long_url,
                    )
        }),
    decreases requests.len(),
{
    if requests.len() > 0 {
        let served = entries_after(entries, host, requests);
        let earlier = requests.drop_last();
        let last = requests.len() - 1;
        let long_url = canonical_long_url(requests[last].0)->0;
        assert forall|i: int| 0 <= i < earlier.len() implies #[trigger] succeeds_at(
            entries,
            host,
            earlier,
            i,
        ) by {
            assert(succeeds_at(entries, host, requests, i));
            assert(earlier.take(i) =~= requests.take(i));
        }
        lemma_distinct_requests_add_distinct_codes(entries, host, earlier);
        let before = entries_after(entries, host, earlier);
        assert(!before.contains_key(long_url)) by {
            if before.contains_key(long_url) {
                let i = choose|i: int|
                    0 <= i < earlier.len() && canonical_long_url(#[trigger] earlier[i].0) == Some(
                        long_url,
                    );
                assert(earlier[i] == requests[i]);
            }
        }
        assert(succeeds_at(entries, host, requests, last));
        lemma_create_keeps_entries(before, host, requests[last].0, requests[last].1);
        assert forall|i: int| 0 <= i < requests.len() implies served.contains_key(
            canonical_long_url(#[trigger] requests[i].0)->0,
        ) by {
            if i < last {
                assert(before.contains_key(canonical_long_url(earlier[i].0)->0));
            }
        }
        assert forall|key: Seq<char>| #[trigger] served.contains_key(key) implies entries.contains_key(
            key,
        ) || exists|i: int|
            0 <= i < requests.len() && canonical_long_url(#[trigger] requests[i].0) == Some(
                key,
            ) by {
            if before.contains_key(key) && !entries.contains_key(key) {
                let i = choose|i: int|
                    0 <= i < earlier.len() && canonical_long_url(#[trigger] earlier[i].0) == Some(
                        key,
                    );
                assert(canonical_long_url(requests[i].0) == Some(key));
            }
        }
    }
}

} // verus!
