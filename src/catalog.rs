use crate::record::ServiceRecord;
use vstd::prelude::*;
use vstd::string::*;

verus! {

/// Why a catalog lookup gave no record to update.
#[derive(Clone, Copy, Debug, PartialEq, Eq, Structural)]
pub enum CatalogError {
    /// The lookup matched no service record for this node.
    NoMatchingRecord,
}

/// Picks the record to update out of what the catalog lookup returned: the
/// first one, or an error when the lookup matched none.
pub fn first_record(records: Vec<ServiceRecord>) -> (r: Result<ServiceRecord, CatalogError>)
    ensures
        records@.len() == 0 <==> r == Err::<ServiceRecord, CatalogError>(CatalogError::NoMatchingRecord),
        records@.len() > 0 <==> r == Ok::<ServiceRecord, CatalogError>(records@[0]),
{
    let mut records = records;
    if records.len() == 0 {
        Err(CatalogError::NoMatchingRecord)
    } else {
        Ok(records.remove(0))
    }
}

/// An ASCII letter or digit, or one of `-`, `.`, `_`, `~`: the characters
/// that percent-encoding leaves as they are.
pub open spec fn is_unreserved(c: char) -> bool {
    ('a' <= c && c <= 'z') || ('A' <= c && c <= 'Z') || ('0' <= c && c <= '9') || c == '-' || c
        == '.' || c == '_' || c == '~'
}

/// The percent-encoding of a text, as a URL's query carries it.
pub uninterp spec fn url_encoded(s: Seq<char>) -> Seq<char>;

/// Relies on urlencoding::encode: it percent-encodes each byte of the text's
/// UTF-8 form but for ASCII letters, digits and `-`, `.`, `_`, `~`, so a text
/// made of those alone comes back unchanged.
#[verifier::external_body]
fn url_encode(s: &str) -> (r: String)
    ensures
        r@ == url_encoded(s@),
        (forall|i: int| 0 <= i < s@.len() ==> is_unreserved(#[trigger] s@[i])) ==> r@ == s@,
{
    urlencoding::encode(s).into_owned()
}

/// The catalog's filter expression that selects the service record of the
/// node `node_id`: `ID == "<node_id>"`.
pub open spec fn filter_of(node_id: Seq<char>) -> Seq<char> {
    "ID == \""@ + node_id + "\""@
}

/// The lookup address of the catalog's service records, before its filter.
pub open spec fn lookup_prefix(agent: Seq<char>) -> Seq<char> {
    "http://"@ + agent + "/v1/catalog/service/mysql-orchestrator?filter="@
}

/// The catalog's registration address on the agent `agent`.
pub open spec fn register_address(agent: Seq<char>) -> Seq<char> {
    "http://"@ + agent + "/v1/catalog/register"@
}

/// The filter expression that selects the record of the node `node_id`.
pub fn filter_expression(node_id: &str) -> (r: String)
    ensures
        r@ == filter_of(node_id@),
{
    let mut r = String::from_str("ID == \"");
    r.append(node_id);
    r.append("\"");
    r
}

/// The lookup address on the agent `agent` whose query carries the filter
/// `encoded_filter`, which is already percent-encoded.
pub fn lookup_url_with_filter(agent: &str, encoded_filter: &str) -> (r: String)
    ensures
        r@ == lookup_prefix(agent@) + encoded_filter@,
{
    let mut r = String::from_str("http://");
    r.append(agent);
    r.append("/v1/catalog/service/mysql-orchestrator?filter=");
    r.append(encoded_filter);
    r
}

/// The lookup address on the agent `agent` of the service record of the node
/// `node_id`, its filter expression percent-encoded.
pub fn lookup_url(agent: &str, node_id: &str) -> (r: String)
    ensures
        r@ == lookup_prefix(agent@) + url_encoded(filter_of(node_id@)),
{
    let filter = filter_expression(node_id);
    let encoded = url_encode(filter.as_str());
    lookup_url_with_filter(agent, encoded.as_str())
}

/// The registration address on the agent `agent`.
pub fn register_url(agent: &str) -> (r: String)
    ensures
        r@ == register_address(agent@),
{
    let mut r = String::from_str("http://");
    r.append(agent);
    r.append("/v1/catalog/register");
    r
}

} // verus!
