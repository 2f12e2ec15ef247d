//! Discovery of the caller's public address: a fixed list of endpoints, tried
//! one after another in an order shuffled per call.

use vstd::prelude::*;
use rand::seq::SliceRandom;
use crate::http::{usable_body, Reply};
use crate::json::{parse_document, parsed_document, text_field, text_view};
use crate::lookup::text_at;
use crate::text::{trim, trimmed};

verus! {

/// How an endpoint reports the address.
#[derive(Debug, Copy, Clone, PartialEq, Eq, Structural)]
pub enum ResponseShape {
    /// The body is the address itself.
    PlainText,
    /// The body is a JSON object with the address in its `ip` member.
    JsonIpField,
}

/// One address-discovery endpoint.
#[derive(Debug, Copy, Clone)]
pub struct Endpoint {
    pub url: &'static str,
    pub shape: ResponseShape,
}

/// The time allowed to each request to an endpoint, in seconds.
pub const REQUEST_TIMEOUT_SECS: u64 = 3;

/// The number of endpoints.
pub open spec fn endpoint_count() -> nat {
    4
}

/// The response shape of the endpoint at place `i` of the list.
pub open spec fn shape_at(i: int) -> ResponseShape {
    if i == 0 || i == 1 {
        ResponseShape::PlainText
    } else {
        ResponseShape::JsonIpField
    }
}

/// The URL of the endpoint at place `i` of the list.
pub open spec fn url_at(i: int) -> Seq<char> {
    if i == 0 {
        "https://icanhazip.com/"@
    } else if i == 1 {
        "https://api.ip.sb/ip"@
    } else if i == 2 {
        "https://api.ipsimple.org/ipv4?format=json"@
    } else {
        "https://api.ipify.org/?format=json"@
    }
}

/// The response shape of the endpoint at a place of the list.
pub fn endpoint_shape(place: usize) -> (r: ResponseShape)
    ensures
        r == shape_at(place as int),
{
    if place < 2 {
        ResponseShape::PlainText
    } else {
        ResponseShape::JsonIpField
    }
}

/// The fixed list of endpoints.
pub fn endpoints() -> (r: Vec<Endpoint>)
    ensures
        r@.len() == endpoint_count(),
        forall|i: int|
            0 <= i < r@.len() ==> (#[trigger] r@[i]).url@ == url_at(i) && r@[i].shape == shape_at(i),
{
    vec![
        Endpoint { url: "https://icanhazip.com/", shape: endpoint_shape(0) },
        Endpoint { url: "https://api.ip.sb/ip", shape: endpoint_shape(1) },
        Endpoint { url: "https://api.ipsimple.org/ipv4?format=json", shape: endpoint_shape(2) },
        Endpoint { url: "https://api.ipify.org/?format=json", shape: endpoint_shape(3) },
    ]
}

/// A raw address made fit to return: trimmed, and nothing where only
/// whitespace was there.
pub open spec fn cleaned(raw: Option<Seq<char>>) -> Option<Seq<char>> {
    match raw {
        Some(s) => kept(trimmed(s)),
        None => None,
    }
}

/// A trimmed address, or nothing where it is empty.
pub open spec fn kept(address: Seq<char>) -> Option<Seq<char>> {
    if address.len() > 0 {
        Some(address)
    } else {
        None
    }
}

/// Keeps a trimmed address unless it is empty.
pub fn non_empty(address: String) -> (r: Option<String>)
    ensures
        text_view(r) == kept(address@),
{
    if address.as_str().is_empty() {
        None
    } else {
        Some(address)
    }
}

/// The raw address in a usable body of the given shape.
pub open spec fn raw_address(shape: ResponseShape, body: Seq<char>) -> Option<Seq<char>> {
    match shape {
        ResponseShape::PlainText => Some(body),
        ResponseShape::JsonIpField => match parsed_document(body) {
            Some(doc) => text_at(doc, "ip"@),
            None => None,
        },
    }
}

/// The address that one attempt yields: nothing without an answer, on a
/// status that reports no success, on a body that is empty or not of the
/// expected shape.
pub open spec fn extracted(shape: ResponseShape, reply: Reply) -> Option<Seq<char>> {
    match usable_body(reply) {
        Some(body) => cleaned(raw_address(shape, body)),
        None => None,
    }
}

/// Reads the address out of one endpoint's reply.
pub fn extract_address(shape: ResponseShape, reply: &Reply) -> (r: Option<String>)
    ensures
        text_view(r) == extracted(shape, *reply),
        r is Some ==> r.unwrap()@.len() > 0,
{
    let body = match reply.body() {
        Some(b) => b,
        None => { return None; },
    };
    let raw = match shape {
        ResponseShape::PlainText => Some(String::from_str(body)),
        ResponseShape::JsonIpField => match parse_document(body) {
            Some(doc) => text_field(&doc, "ip"),
            None => None,
        },
    };
    match raw {
        Some(s) => non_empty(trim(s.as_str())),
        None => None,
    }
}

/// What the endpoint at place `i` yields, `replies[i]` being its reply; an
/// endpoint without a reply yields nothing.
pub open spec fn attempt(replies: Seq<Reply>, i: int) -> Option<Seq<char>> {
    if 0 <= i < replies.len() && i < endpoint_count() {
        extracted(shape_at(i), replies[i])
    } else {
        None
    }
}

/// The first address that the endpoints yield when tried in the given order,
/// from place `from` of that order on.
pub open spec fn first_success(order: Seq<usize>, replies: Seq<Reply>, from: int) -> Option<Seq<char>>
    decreases order.len() - from,
{
    if from < 0 || from >= order.len() {
        None
    } else if attempt(replies, order[from] as int) is Some {
        attempt(replies, order[from] as int)
    } else {
        first_success(order, replies, from + 1)
    }
}

/// The endpoints' places in list order.
pub open spec fn list_order() -> Seq<usize> {
    seq![0usize, 1usize, 2usize, 3usize]
}

/// Whether `order` names every endpoint exactly once.
pub open spec fn is_shuffle(order: Seq<usize>) -> bool {
    order.to_multiset() == list_order().to_multiset()
}

/// What `first_success` returns was yielded by an endpoint of the order, and
/// it returns nothing only where every endpoint of the order yields nothing.
pub proof fn lemma_first_success(order: Seq<usize>, replies: Seq<Reply>, from: int)
    requires
        0 <= from <= order.len(),
    ensures
        first_success(order, replies, from) is Some ==> exists|k: int|
            from <= k < order.len() && attempt(replies, #[trigger] order[k] as int)
                == first_success(order, replies, from),
        first_success(order, replies, from) is None <==> forall|k: int|
            from <= k < order.len() ==> attempt(replies, #[trigger] order[k] as int) is None,
    decreases order.len() - from,
{
    if from < order.len() {
        lemma_first_success(order, replies, from + 1);
        if attempt(replies, order[from] as int) is Some {
            assert(attempt(replies, order[from] as int) == first_success(order, replies, from));
        } else {
            if first_success(order, replies, from) is Some {
                let k = choose|k: int|
                    from + 1 <= k < order.len() && attempt(replies, #[trigger] order[k] as int)
                        == first_success(order, replies, from + 1);
                assert(attempt(replies, order[k] as int) == first_success(order, replies, from));
            }
        }
    }
}

/// A shuffle names every endpoint, and nothing but endpoints.
pub proof fn lemma_shuffle_covers(order: Seq<usize>)
    requires
        is_shuffle(order),
    ensures
        forall|i: usize| i < endpoint_count() ==> #[trigger] order.contains(i),
        forall|k: int| 0 <= k < order.len() ==> (#[trigger] order[k]) < endpoint_count(),
{
    let base = list_order();
    order.to_multiset_ensures();
    base.to_multiset_ensures();
    assert forall|i: usize| i < endpoint_count() implies #[trigger] order.contains(i) by {
        assert(base[i as int] == i);
        assert(base.contains(i));
        assert(base.to_multiset().count(i) > 0);
        assert(order.to_multiset().count(i) > 0);
    }
    assert forall|k: int| 0 <= k < order.len() implies (#[trigger] order[k]) < endpoint_count() by {
        assert(order.contains(order[k]));
        assert(order.to_multiset().count(order[k]) > 0);
        assert(base.to_multiset().count(order[k]) > 0);
        assert(base.contains(order[k]));
    }
}

/// Where exactly one endpoint yields an address, the resolver returns that
/// address whatever the order of the attempts.
pub proof fn lemma_single_reachable(order: Seq<usize>, replies: Seq<Reply>, i: int)
    requires
        is_shuffle(order),
        0 <= i < endpoint_count(),
        attempt(replies, i) is Some,
        forall|j: int| 0 <= j < endpoint_count() && j != i ==> attempt(replies, j) is None,
    ensures
        first_success(order, replies, 0) == attempt(replies, i),
{
    lemma_shuffle_covers(order);
    lemma_first_success(order, replies, 0);
    assert(order.contains(i as usize));
    let k = choose|k: int| 0 <= k < order.len() && order[k] == i as usize;
    assert(attempt(replies, order[k] as int) is Some);
}

/// Where no endpoint yields an address, the resolver returns nothing
/// whatever the order of the attempts.
pub proof fn lemma_none_reachable(order: Seq<usize>, replies: Seq<Reply>)
    requires
        is_shuffle(order),
        forall|j: int| 0 <= j < endpoint_count() ==> attempt(replies, j) is None,
    ensures
        first_success(order, replies, 0) is None,
{
    lemma_shuffle_covers(order);
    lemma_first_success(order, replies, 0);
}

/// Calls `rand::seq::SliceRandom::shuffle` with the thread's generator: the
/// items are rearranged in place, and none is added or lost.
#[verifier::external_body]
fn shuffle(order: &mut Vec<usize>)
    ensures
        final(order)@.to_multiset() == old(order)@.to_multiset(),
{
    order.shuffle(&mut rand::thread_rng());
}

/// The order in which to try the endpoints in one call: every endpoint's
/// place once, shuffled.
pub fn shuffled_order() -> (r: Vec<usize>)
    ensures
        is_shuffle(r@),
{
    let mut order: Vec<usize> = vec![0usize, 1usize, 2usize, 3usize];
    assert(order@ =~= list_order());
    shuffle(&mut order);
    order
}

/// Tries the endpoints one after another in the given order, `replies[i]`
/// being the reply of the endpoint at place `i` of the list, and returns the
/// first address found.
pub fn resolve_in_order(order: &Vec<usize>, replies: &Vec<Reply>) -> (r: Option<String>)
    ensures
        text_view(r) == first_success(order@, replies@, 0),
        r is Some ==> r.unwrap()@.len() > 0,
{
    let mut k: usize = 0;
    while k < order.len()
        invariant
            k <= order@.len(),
            first_success(order@, replies@, 0) == first_success(order@, replies@, k as int),
        decreases order@.len() - k,
    {
        let i: usize = order[k];
        if i < replies.len() && i < 4 {
            let found = extract_address(endpoint_shape(i), &replies[i]);
            if found.is_some() {
                return found;
            }
        }
        k += 1;
    }
    None
}

/// Discovers the caller's public address from the endpoints' replies,
/// `replies[i]` being the reply of the endpoint at place `i` of the list.
/// The endpoints are tried in a shuffled order; the result is the first
/// address found, and nothing exactly where no endpoint yields one.
pub fn get_public_ip_addr(replies: &Vec<Reply>) -> (r: Option<String>)
    ensures
        r is Some ==> r.unwrap()@.len() > 0 && exists|i: int|
            0 <= i < endpoint_count() && #[trigger] attempt(replies@, i) == text_view(r),
        r is None <==> forall|i: int|
            0 <= i < endpoint_count() ==> (#[trigger] attempt(replies@, i)) is None,
        forall|i: int|
            0 <= i < endpoint_count() && (#[trigger] attempt(replies@, i)) is Some && (forall|j: int|
                0 <= j < endpoint_count() && j != i ==> (#[trigger] attempt(replies@, j)) is None)
                ==> text_view(r) == attempt(replies@, i),
{
    let order = shuffled_order();
    let r = resolve_in_order(&order, replies);
    proof {
        lemma_shuffle_covers(order@);
        lemma_first_success(order@, replies@, 0);
        if r is Some {
            let k = choose|k: int|
                0 <= k < order@.len() && attempt(replies@, #[trigger] order@[k] as int)
                    == first_success(order@, replies@, 0);
            assert(attempt(replies@, order@[k] as int) == text_view(r));
        }
        if r is None {
            assert forall|i: int| 0 <= i < endpoint_count() implies (#[trigger] attempt(
                replies@,
                i,
            )) is None by {
                assert(order@.contains(i as usize));
                let k = choose|k: int| 0 <= k < order@.len() && order@[k] == i as usize;
                assert(attempt(replies@, order@[k] as int) is None);
            }
        }
        assert forall|i: int|
            0 <= i < endpoint_count() && (#[trigger] attempt(replies@, i)) is Some && (forall|j: int|
                0 <= j < endpoint_count() && j != i ==> (#[trigger] attempt(replies@, j)) is None)
            implies text_view(r) == attempt(replies@, i) by {
            lemma_single_reachable(order@, replies@, i);
        }
    }
    r
}

} // verus!
