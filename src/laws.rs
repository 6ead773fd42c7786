//! Laws that relate the handlers' operations.
use crate::stargate::{
    empty_answer, message_of, query_view, requested_address, ErrorView, Stargate,
    StargateAccepting, StargateCodeHash, StargateError, StargateFailing, ADDRESS_FIELD,
    CODE_HASH_QUERY_PATH,
};
use crate::store::ContractInfo;
use crate::text::{base64_of, contains};
use vstd::prelude::*;

verus! {

proof fn lemma_contains_at(hay: Seq<char>, needle: Seq<char>, i: int)
    requires
        0 <= i,
        i + needle.len() <= hay.len(),
        hay.subrange(i, i + needle.len()) =~= needle,
    ensures
        contains(hay, needle),
{
}

/// The failing handler rejects every message, and its diagnostic names the
/// type URL and the sender.
pub proof fn lemma_failing_execute_reports(
    h: StargateFailing,
    contracts: Map<Seq<char>, ContractInfo>,
    sender: Seq<char>,
    type_url: Seq<char>,
    value: Seq<u8>,
)
    ensures
        h.execute_result(contracts, sender, type_url, value) is Err,
        contains(message_of(h.execute_result(contracts, sender, type_url, value)->Err_0), type_url),
        contains(message_of(h.execute_result(contracts, sender, type_url, value)->Err_0), sender),
        h.execute_contracts(contracts, sender, type_url, value) == contracts,
{
    let m = message_of(h.execute_result(contracts, sender, type_url, value)->Err_0);
    let head = "Unexpected stargate execute: type_url="@;
    assert(m == head + type_url + ", value="@ + base64_of(value) + " from "@ + sender);
    lemma_contains_at(m, type_url, head.len() as int);
    lemma_contains_at(m, sender, m.len() - sender.len());
}

/// The failing handler rejects every query, and its diagnostic names the
/// path and the payload.
pub proof fn lemma_failing_query_reports(
    h: StargateFailing,
    contracts: Map<Seq<char>, ContractInfo>,
    path: Seq<char>,
    data: Seq<u8>,
)
    ensures
        h.query_result(contracts, path, data) is Err,
        contains(message_of(h.query_result(contracts, path, data)->Err_0), path),
        contains(message_of(h.query_result(contracts, path, data)->Err_0), base64_of(data)),
{
    let m = message_of(h.query_result(contracts, path, data)->Err_0);
    let head = "Unexpected stargate query: path="@;
    assert(m == head + path + ", data="@ + base64_of(data));
    lemma_contains_at(m, path, head.len() as int);
    lemma_contains_at(m, base64_of(data), m.len() - base64_of(data).len());
}

/// The accepting handler takes every message with the empty outcome and
/// leaves the contracts as they were.
pub proof fn lemma_accepting_execute_is_noop(
    h: StargateAccepting,
    contracts: Map<Seq<char>, ContractInfo>,
    sender: Seq<char>,
    type_url: Seq<char>,
    value: Seq<u8>,
)
    ensures
        h.execute_result(contracts, sender, type_url, value) == Ok::<Option<Seq<u8>>, ErrorView>(
            None,
        ),
        h.execute_contracts(contracts, sender, type_url, value) == contracts,
{
}

/// The accepting handler answers every query with the empty answer.
pub proof fn lemma_accepting_query_is_empty(
    h: StargateAccepting,
    contracts: Map<Seq<char>, ContractInfo>,
    path: Seq<char>,
    data: Seq<u8>,
)
    ensures
        h.query_result(contracts, path, data) == Ok::<Seq<u8>, ErrorView>(empty_answer()),
{
}

/// On any path but the code-hash query, the code-hash handler answers as the
/// failing handler does; on every message it fails as the failing handler
/// does.
pub proof fn lemma_code_hash_falls_through(
    h: StargateCodeHash,
    f: StargateFailing,
    contracts: Map<Seq<char>, ContractInfo>,
    path: Seq<char>,
    data: Seq<u8>,
    sender: Seq<char>,
    type_url: Seq<char>,
)
    requires
        path != CODE_HASH_QUERY_PATH@,
    ensures
        h.query_result(contracts, path, data) == f.query_result(contracts, path, data),
        h.execute_result(contracts, sender, type_url, data) == f.execute_result(
            contracts,
            sender,
            type_url,
            data,
        ),
        contains(message_of(h.query_result(contracts, path, data)->Err_0), path),
        contains(message_of(h.query_result(contracts, path, data)->Err_0), base64_of(data)),
{
    lemma_failing_query_reports(f, contracts, path, data);
}

/// On the code-hash query path the code-hash handler answers with the code
/// hash of the contract whose address the payload holds; it fails with a
/// not-found error where no contract is registered under that address, and
/// names the address field where the payload holds no address.
pub proof fn lemma_code_hash_resolves(
    h: StargateCodeHash,
    contracts: Map<Seq<char>, ContractInfo>,
    data: Seq<u8>,
    a: Seq<char>,
)
    ensures
        requested_address(data) == Some(a) && contracts.contains_key(a) ==> h.query_result(
            contracts,
            CODE_HASH_QUERY_PATH@,
            data,
        ) == Ok::<Seq<u8>, ErrorView>(contracts[a].code_hash),
        requested_address(data) == Some(a) && !contracts.contains_key(a) ==> h.query_result(
            contracts,
            CODE_HASH_QUERY_PATH@,
            data,
        ) == Err::<Seq<u8>, ErrorView>(ErrorView::ContractNotFound { address: a }),
        requested_address(data) is None ==> h.query_result(contracts, CODE_HASH_QUERY_PATH@, data)
            == Err::<Seq<u8>, ErrorView>(ErrorView::MissingStringField { field: ADDRESS_FIELD }),
{
}

/// Two queries with the same path and payload on the same contracts give
/// the same answer: a handler keeps no hidden state.
pub proof fn lemma_query_repeatable<H: Stargate>(
    h: &H,
    contracts: Map<Seq<char>, ContractInfo>,
    path: Seq<char>,
    data: Seq<u8>,
    first: Result<Vec<u8>, StargateError>,
    second: Result<Vec<u8>, StargateError>,
)
    requires
        query_view(first) == h.query_result(contracts, path, data),
        query_view(second) == h.query_result(contracts, path, data),
    ensures
        query_view(first) == query_view(second),
{
}

} // verus!
