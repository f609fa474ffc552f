//! The client's configuration, the addresses it asks, and how the pages of
//! a result come together.
//!
//! Sending a request is the caller's part. The client says which address to
//! ask; [`PageCollector`] takes each page as it arrives and says whether
//! another one follows.

use vstd::prelude::*;
use vstd::utf8::{decode_utf8, valid_utf8};
use crate::auth::{resource_from_endpoint, resource_of, url_origin};
use crate::error::ODataError;
use crate::metadata::{entity_schema, not_found_message, parse_entity};
use crate::query::{query_string, ProductType, QueryOptions};
use crate::retry::RetryPolicy;
use crate::text::{chars_of, extend, pairs, string_of, texts};

verus! {

/// A record as the service sent it: a JSON value that this library carries
/// and never opens.
#[verifier::external_type_specification]
#[verifier::external_body]
pub struct ExRecord(serde_json::Value);

/// One page of an entity set.
#[derive(Debug)]
pub struct ODataResponse {
    pub context: Option<String>,
    /// Where the next page is, when there is one.
    pub next_link: Option<String>,
    /// The total count, when it was asked for.
    pub count: Option<i64>,
    pub delta_link: Option<String>,
    /// The records of this page.
    pub value: Vec<serde_json::Value>,
}

/// How an entity is configured.
#[derive(Debug, Clone)]
pub struct EntityInfo {
    pub name: String,
    pub entity_set_name: String,
    pub description: Option<String>,
}

/// The fixed configuration of a client.
#[derive(Debug)]
pub struct ODataClient {
    endpoint: String,
    product: ProductType,
    max_retries: u32,
    retry_delay_ms: u64,
}

/// The mathematical content of an `ODataClient`.
pub struct ClientModel {
    /// The service root; it ends in a slash.
    pub endpoint: Seq<char>,
    pub product: ProductType,
    pub max_retries: u32,
    pub retry_delay_ms: u64,
}

/// `s`, with a slash at its end if it had none.
pub open spec fn with_trailing_slash(s: Seq<char>) -> Seq<char> {
    if s.len() > 0 && s.last() == '/' {
        s
    } else {
        s.push('/')
    }
}

/// The address of the metadata document under a service root.
pub open spec fn metadata_url_of(endpoint: Seq<char>) -> Seq<char> {
    endpoint + "$metadata"@
}

/// The address of a page: the continuation link as it is where one is
/// given, else the entity set under the service root with the query string.
pub open spec fn page_url_of(
    endpoint: Seq<char>,
    entity: Seq<char>,
    next_link: Option<Seq<char>>,
    query: Seq<char>,
) -> Seq<char> {
    match next_link {
        Some(link) => link,
        None => endpoint + entity + query,
    }
}

/// The address of a single record.
pub open spec fn entity_url_of(endpoint: Seq<char>, entity: Seq<char>, key: Seq<char>) -> Seq<
    char,
> {
    endpoint + entity + "("@ + key + ")"@
}

/// The view of an optional link.
pub open spec fn link_view(link: Option<&str>) -> Option<Seq<char>> {
    match link {
        Some(l) => Some(l@),
        None => None,
    }
}

impl View for ODataClient {
    type V = ClientModel;

    closed spec fn view(&self) -> ClientModel {
        ClientModel {
            endpoint: self.endpoint@,
            product: self.product,
            max_retries: self.max_retries,
            retry_delay_ms: self.retry_delay_ms,
        }
    }
}

impl ODataClient {
    /// A client for the service root `endpoint`, which gets a slash at its
    /// end if it has none.
    pub fn new(endpoint: String, product: ProductType, max_retries: u32, retry_delay_ms: u64) -> (c:
        ODataClient)
        ensures
            c@ == (ClientModel {
                endpoint: with_trailing_slash(endpoint@),
                product,
                max_retries,
                retry_delay_ms,
            }),
    {
        let mut root = chars_of(endpoint.as_str());
        let n: usize = root.len();
        if !(n > 0 && root[n - 1] == '/') {
            root.push('/');
        }
        ODataClient { endpoint: string_of(&root), product, max_retries, retry_delay_ms }
    }

    /// The service root.
    pub fn endpoint(&self) -> (r: &str)
        ensures
            r@ == self@.endpoint,
    {
        self.endpoint.as_str()
    }

    /// The product behind the service root.
    pub fn product(&self) -> (r: &ProductType)
        ensures
            *r == self@.product,
    {
        &self.product
    }

    /// The retry budget and first delay of this client.
    pub fn retry_policy(&self) -> (p: RetryPolicy)
        ensures
            p.max_retries == self@.max_retries,
            p.retry_delay_ms == self@.retry_delay_ms,
    {
        RetryPolicy { max_retries: self.max_retries, retry_delay_ms: self.retry_delay_ms }
    }

    /// The resource to ask a token for.
    pub fn resource(&self) -> (r: String)
        ensures
            r@ == resource_of(self@.endpoint, url_origin(self@.endpoint)),
    {
        resource_from_endpoint(self.endpoint.as_str())
    }

    /// The address of the metadata document.
    pub fn metadata_url(&self) -> (r: String)
        ensures
            r@ == metadata_url_of(self@.endpoint),
    {
        let mut out = chars_of(self.endpoint.as_str());
        extend(&mut out, &chars_of("$metadata"));
        string_of(&out)
    }

    /// The address of a page of `entity`. A continuation link is used as it
    /// stands, whatever the options say: the service has put the whole
    /// query into it.
    pub fn page_url(&self, entity: &str, next_link: Option<&str>, options: &QueryOptions) -> (r:
        String)
        ensures
            r@ == page_url_of(
                self@.endpoint,
                entity@,
                link_view(next_link),
                query_string(options@, self@.product),
            ),
    {
        match next_link {
            Some(link) => string_of(&chars_of(link)),
            None => {
                let mut out = chars_of(self.endpoint.as_str());
                extend(&mut out, &chars_of(entity));
                let query = options.to_query_string(&self.product);
                extend(&mut out, &chars_of(query.as_str()));
                string_of(&out)
            },
        }
    }

    /// The address of the record of `entity` with the key `key`.
    pub fn entity_url(&self, entity: &str, key: &str) -> (r: String)
        ensures
            r@ == entity_url_of(self@.endpoint, entity@, key@),
    {
        let mut out = chars_of(self.endpoint.as_str());
        extend(&mut out, &chars_of(entity));
        extend(&mut out, &chars_of("("));
        extend(&mut out, &chars_of(key));
        extend(&mut out, &chars_of(")"));
        string_of(&out)
    }

    /// Extracts the schema of `entity_name` from a metadata document:
    /// properties, navigation properties and key fields, in document order.
    pub fn parse_entity_from_metadata(metadata_xml: &str, entity_name: &str) -> (r: Result<
        (Vec<String>, Vec<String>, Vec<String>),
        ODataError,
    >)
        ensures
            match r {
                Ok(found) => entity_schema(metadata_xml@, entity_name@) == Some(
                    (texts(found.0@), texts(found.1@), texts(found.2@)),
                ),
                Err(e) => entity_schema(metadata_xml@, entity_name@) is None && match e {
                    ODataError::NotFound(m) => m@ == not_found_message(entity_name@),
                    _ => false,
                },
            },
    {
        parse_entity(metadata_xml, entity_name)
    }
}

/// What a request asks the service to answer with.
#[derive(Debug, Clone, Copy, PartialEq, Eq)]
pub enum Accept {
    /// Records, as JSON with every annotation.
    Json,
    /// The metadata document, as XML.
    Xml,
}

/// The headers of a request, in order: the bearer authorization and what
/// is accepted; for JSON also the protocol versions and the wish for
/// annotations.
pub open spec fn headers_of(token: Seq<char>, accept: Accept) -> Seq<(Seq<char>, Seq<char>)> {
    match accept {
        Accept::Json => seq![
            ("Authorization"@, "Bearer "@ + token),
            ("Accept"@, "application/json"@),
            ("OData-MaxVersion"@, "4.0"@),
            ("OData-Version"@, "4.0"@),
            ("Prefer"@, "odata.include-annotations=*"@),
        ],
        Accept::Xml => seq![
            ("Authorization"@, "Bearer "@ + token),
            ("Accept"@, "application/xml"@),
        ],
    }
}

/// A header, from its name and value.
fn header(name: &str, value: &str) -> (r: (String, String))
    ensures
        r.0@ == name@,
        r.1@ == value@,
{
    (string_of(&chars_of(name)), string_of(&chars_of(value)))
}

/// The headers that a request carries.
pub fn request_headers(token: &str, accept: Accept) -> (r: Vec<(String, String)>)
    ensures
        pairs(r@) == headers_of(token@, accept),
{
    let mut bearer = chars_of("Bearer ");
    extend(&mut bearer, &chars_of(token));
    let mut list: Vec<(String, String)> = Vec::new();
    list.push((string_of(&chars_of("Authorization")), string_of(&bearer)));
    match accept {
        Accept::Json => {
            list.push(header("Accept", "application/json"));
            list.push(header("OData-MaxVersion", "4.0"));
            list.push(header("OData-Version", "4.0"));
            list.push(header("Prefer", "odata.include-annotations=*"));
        },
        Accept::Xml => {
            list.push(header("Accept", "application/xml"));
        },
    }
    assert(pairs(list@) =~= headers_of(token@, accept));
    list
}

/// Whether a status is in the success range, 200 to 299.
pub fn is_success(status: u16) -> (r: bool)
    ensures
        r == (200 <= status <= 299),
{
    200 <= status && status <= 299
}

/// The text that lenient decoding makes of a run of bytes: valid UTF-8
/// reads as it is, and what is not valid gives way to replacement
/// characters.
pub uninterp spec fn lossy_text(bytes: Seq<u8>) -> Seq<char>;

/// Calls `String::from_utf8_lossy`. Its result depends on the bytes alone
/// and has the name `lossy_text`; as std documents, bytes that are valid
/// UTF-8 come out as the text they encode.
#[verifier::external_body]
fn decode_lossy(bytes: &[u8]) -> (r: String)
    ensures
        r@ == lossy_text(bytes@),
        valid_utf8(bytes@) ==> r@ == decode_utf8(bytes@),
{
    String::from_utf8_lossy(bytes).into_owned()
}

/// The metadata document in a response: the body, decoded leniently, where
/// the status is a success; `None` for any other status.
pub fn metadata_text(status: u16, body: &[u8]) -> (r: Option<String>)
    ensures
        match r {
            Some(text) => {
                &&& 200 <= status <= 299
                &&& text@ == lossy_text(body@)
                &&& valid_utf8(body@) ==> text@ == decode_utf8(body@)
            },
            None => !(200 <= status <= 299),
        },
{
    if is_success(status) {
        Some(decode_lossy(body))
    } else {
        None
    }
}

/// The error for a response that is refused without retry: it carries the
/// status and the body.
pub fn refused(status: u16, body: String) -> (e: ODataError)
    ensures
        e == ODataError::ServerError(status, body),
{
    ODataError::ServerError(status, body)
}

/// The records gathered from the pages of one entity set.
#[derive(Debug)]
pub struct PageCollector {
    /// All records so far, in the order of arrival.
    pub records: Vec<serde_json::Value>,
    /// The continuation link of the last page, when it had one.
    pub next_link: Option<String>,
    /// The pages taken so far.
    pub pages: usize,
}

impl PageCollector {
    /// Another page is to be fetched: none has arrived yet, or the last one
    /// named a successor.
    pub open spec fn wants_more(&self) -> bool {
        self.pages == 0 || self.next_link is Some
    }

    /// A collector that has seen no page.
    pub fn new() -> (c: PageCollector)
        ensures
            c.records@ == Seq::<serde_json::Value>::empty(),
            c.next_link is None,
            c.pages == 0,
    {
        PageCollector { records: Vec::new(), next_link: None, pages: 0 }
    }

    /// The address of the page to fetch next, or `None` when the last page
    /// has arrived.
    pub fn next_url(&self, client: &ODataClient, entity: &str, options: &QueryOptions) -> (r:
        Option<String>)
        ensures
            match r {
                Some(url) => self.wants_more() && url@ == page_url_of(
                    client@.endpoint,
                    entity@,
                    text_of(self.next_link),
                    query_string(options@, client@.product),
                ),
                None => !self.wants_more(),
            },
    {
        match &self.next_link {
            Some(link) => Some(client.page_url(entity, Some(link.as_str()), options)),
            None => {
                if self.pages == 0 {
                    Some(client.page_url(entity, None, options))
                } else {
                    None
                }
            },
        }
    }

    /// Takes a page: its records go behind those already gathered, and its
    /// continuation link replaces the last one.
    pub fn absorb(&mut self, page: ODataResponse)
        requires
            old(self).pages < usize::MAX,
        ensures
            final(self).records@ == old(self).records@ + page.value@,
            final(self).next_link == page.next_link,
            final(self).pages == old(self).pages + 1,
    {
        let mut page = page;
        self.records.append(&mut page.value);
        self.next_link = page.next_link;
        self.pages = self.pages + 1;
    }

    /// All records gathered, in the order of arrival.
    pub fn into_records(self) -> (r: Vec<serde_json::Value>)
        ensures
            r@ == self.records@,
    {
        self.records
    }
}

/// The view of an optional owned text.
pub open spec fn text_of(text: Option<String>) -> Option<Seq<char>> {
    match text {
        Some(t) => Some(t@),
        None => None,
    }
}

} // verus!
