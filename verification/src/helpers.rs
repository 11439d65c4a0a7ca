//! Pagination and detection of in-page update requests.

use axum::http::HeaderMap;
use vstd::prelude::*;
use vstd::utf8::encode_utf8;

verus! {

/// The number of pages that `total_items` items fill at `per_page` items a
/// page. A page size of zero counts as one, and no items still make one page.
pub open spec fn page_count(total_items: nat, per_page: nat) -> nat {
    let size: nat = if per_page == 0 { 1 } else { per_page };
    let full: nat = total_items / size;
    let pages: nat = if total_items % size == 0 { full } else { full + 1 };
    if pages == 0 { 1 } else { pages }
}

/// The page count as a listing shows it: [`page_count`], or `u32::MAX` where
/// the count is more than a `u32` can hold.
pub open spec fn shown_pages(total_items: nat, per_page: nat) -> u32 {
    if page_count(total_items, per_page) <= u32::MAX {
        page_count(total_items, per_page) as u32
    } else {
        u32::MAX
    }
}

/// The page count of a listing, see [`page_count`]. A count that a `u32`
/// cannot hold is reported as `u32::MAX`.
pub fn total_pages(total_items: usize, per_page: u32) -> (pages: u32)
    ensures
        pages == shown_pages(total_items as nat, per_page as nat),
        pages >= 1,
{
    let size: u64 = if per_page == 0 { 1 } else { per_page as u64 };
    let items: u64 = total_items as u64;
    let full: u64 = items / size;
    let pages: u64 = if items % size == 0 {
        full
    } else {
        assert(full < u64::MAX) by (nonlinear_arith)
            requires
                size >= 2,
                full == items / size,
                items <= u64::MAX,
        ;
        full + 1
    };
    if pages == 0 {
        1
    } else if pages > u32::MAX as u64 {
        u32::MAX
    } else {
        pages as u32
    }
}

/// The number a page goes by on screen: pages are counted from zero and
/// shown from one.
pub fn display_page(page: u32) -> (shown: u64)
    ensures
        shown == page + 1,
{
    page as u64 + 1
}

/// Every item count that fits a `u32` is shown as its true page count.
pub proof fn lemma_shown_pages_exact(total_items: nat, per_page: nat)
    requires
        total_items <= u32::MAX,
    ensures
        shown_pages(total_items, per_page) == page_count(total_items, per_page),
{
    let size: nat = if per_page == 0 { 1 } else { per_page };
    assert(total_items / size <= total_items) by (nonlinear_arith)
        requires
            size >= 1,
    ;
    if total_items % size != 0 {
        assert(total_items / size < total_items) by (nonlinear_arith)
            requires
                size >= 1,
                total_items % size != 0,
        ;
    }
}

/// No items make one page, whatever the page size.
pub proof fn lemma_no_items_one_page(per_page: nat)
    ensures
        page_count(0, per_page) == 1,
        shown_pages(0, per_page) == 1,
{
}

/// A page size of zero counts as a page size of one.
pub proof fn lemma_zero_page_size_is_one(total_items: nat)
    ensures
        page_count(total_items, 0) == page_count(total_items, 1),
        shown_pages(total_items, 0) == shown_pages(total_items, 1),
{
}

/// There is always at least one page.
pub proof fn lemma_at_least_one_page(total_items: nat, per_page: nat)
    ensures
        page_count(total_items, per_page) >= 1,
        shown_pages(total_items, per_page) >= 1,
{
}

/// For a positive item count and page size the page count is the ceiling of
/// their quotient: the least number of pages that holds every item.
pub proof fn lemma_page_count_is_ceiling(total_items: nat, per_page: nat)
    requires
        total_items > 0,
        per_page > 0,
    ensures
        page_count(total_items, per_page) * per_page >= total_items,
        (page_count(total_items, per_page) - 1) * per_page < total_items,
        total_items <= u32::MAX ==> shown_pages(total_items, per_page) * per_page >= total_items
            && (shown_pages(total_items, per_page) - 1) * per_page < total_items,
{
    if total_items <= u32::MAX {
        lemma_shown_pages_exact(total_items, per_page);
    }
    let q = total_items / per_page;
    let r = total_items % per_page;
    assert(total_items == q * per_page + r && 0 <= r < per_page) by (nonlinear_arith)
        requires
            per_page > 0,
            q == total_items / per_page,
            r == total_items % per_page,
    ;
    assert((q + 1) * per_page == q * per_page + per_page) by (nonlinear_arith);
    assert((q - 1) * per_page == q * per_page - per_page) by (nonlinear_arith);
    if r == 0 {
        assert(q >= 1) by (nonlinear_arith)
            requires
                total_items == q * per_page + r,
                r == 0,
                total_items > 0,
                q >= 0,
        ;
    }
}

/// `axum::http::HeaderMap`, held as an opaque value.
#[verifier::external_type_specification]
#[verifier::external_body]
#[verifier::reject_recursive_types(T)]
pub struct ExHeaderMap<T>(axum::http::HeaderMap<T>);

/// `axum::http::HeaderValue`, held as an opaque value.
#[verifier::external_type_specification]
#[verifier::external_body]
pub struct ExHeaderValue(axum::http::HeaderValue);

/// What a header map holds: for each header name, in lower case as the map
/// stores it, the bytes of the first value held under that name.
pub uninterp spec fn header_values(headers: HeaderMap) -> Map<Seq<char>, Seq<u8>>;

/// A header name as the map stores it: lower-case letters, digits and hyphens.
pub open spec fn is_stored_name(name: Seq<char>) -> bool {
    &&& name.len() > 0
    &&& forall|i: int|
        0 <= i < name.len() ==> {
            let c = #[trigger] name[i];
            ('a' <= c && c <= 'z') || ('0' <= c && c <= '9') || c == '-'
        }
}

/// The bytes that `HeaderValue::to_str` accepts as text: printable ASCII and
/// the tab.
pub open spec fn is_visible_ascii(bytes: Seq<u8>) -> bool {
    forall|i: int|
        0 <= i < bytes.len() ==> {
            let b = #[trigger] bytes[i];
            (32 <= b && b < 127) || b == 9
        }
}

/// Whether the request marks itself as an in-page update.
pub open spec fn is_partial_update(headers: HeaderMap) -> bool {
    header_values(headers).dom().contains("hx-request"@)
}

/// Whether the request names `target` as the region it will replace: the
/// target header is present, is text, and is `target` exactly.
pub open spec fn names_target(headers: HeaderMap, target: Seq<char>) -> bool {
    &&& header_values(headers).dom().contains("hx-target"@)
    &&& is_visible_ascii(header_values(headers)["hx-target"@])
    &&& header_values(headers)["hx-target"@] == encode_utf8(target)
}

/// `HeaderMap::get` with a `&str` key, and `HeaderValue::as_bytes` on what it
/// finds. For a name in the form the map stores, `get` returns the first value
/// held under it, or `None` when the map holds none.
#[verifier::external_body]
fn first_value(headers: &HeaderMap, name: &str) -> (value: Option<Vec<u8>>)
    requires
        is_stored_name(name@),
    ensures
        value is Some <==> header_values(*headers).dom().contains(name@),
        value matches Some(bytes) ==> bytes@ == header_values(*headers)[name@],
{
    headers.get(name).map(|v| v.as_bytes().to_vec())
}

/// True when the request carries the header that marks an in-page update.
pub fn is_htmx_request(headers: &HeaderMap) -> (partial: bool)
    ensures
        partial == is_partial_update(*headers),
{
    proof {
        reveal_strlit("hx-request");
    }
    first_value(headers, "hx-request").is_some()
}

/// True when the request's target header is present and equals `target`
/// exactly. A header value that is not visible ASCII equals no target.
pub fn htmx_target_is(headers: &HeaderMap, target: &str) -> (matches: bool)
    ensures
        matches == names_target(*headers, target@),
{
    proof {
        reveal_strlit("hx-target");
    }
    match first_value(headers, "hx-target") {
        None => false,
        Some(value) => {
            let wanted = target.as_bytes();
            if value.len() != wanted.len() {
                return false;
            }
            let mut i: usize = 0;
            while i < value.len()
                invariant
                    i <= value.len(),
                    value.len() == wanted.len(),
                    header_values(*headers).dom().contains("hx-target"@),
                    value@ == header_values(*headers)["hx-target"@],
                    wanted@ == encode_utf8(target@),
                    is_visible_ascii(value@.take(i as int)),
                    value@.take(i as int) == wanted@.take(i as int),
                decreases value.len() - i,
            {
                let b = value[i];
                if !((32 <= b && b < 127) || b == 9) || b != wanted[i] {
                    assert(value@[i as int] == b);
                    return false;
                }
                assert(value@.take(i + 1) == value@.take(i as int).push(b));
                assert(wanted@.take(i + 1) == wanted@.take(i as int).push(b));
                i += 1;
            }
            assert(value@.take(i as int) == value@);
            assert(wanted@.take(i as int) == wanted@);
            true
        },
    }
}

/// A request without the marker header is no in-page update, and a request
/// without the target header names no target.
pub proof fn lemma_plain_request(headers: HeaderMap, target: Seq<char>)
    ensures
        !header_values(headers).dom().contains("hx-request"@) ==> !is_partial_update(headers),
        !header_values(headers).dom().contains("hx-target"@) ==> !names_target(headers, target),
{
}

/// A request names at most one target: if it names one region it names no
/// other.
pub proof fn lemma_at_most_one_target(headers: HeaderMap, target: Seq<char>, other: Seq<char>)
    requires
        names_target(headers, target),
        other != target,
    ensures
        !names_target(headers, other),
{
    vstd::utf8::encode_utf8_decode_utf8(target);
    vstd::utf8::encode_utf8_decode_utf8(other);
}

} // verus!
