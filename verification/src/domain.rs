//! Domains, and the operations on them.

use vstd::prelude::*;
use vstd::string::*;
use crate::client::Client;
use crate::exchange::{Call, Operation};
use crate::json::{lemma_plain_text_is_unchanged, lemma_quoted_reads_back, needs_escape, quote, quoted, unquoted};
use crate::request::{Method, Request, RequestView};

verus! {

/// One DNSSEC key of a domain. A field that the server did not send is `None`.
#[derive(Debug, Clone, PartialEq, Eq)]
pub struct DNSSECKeyInfo {
    /// The DNSKEY record.
    pub dnskey: Option<String>,
    /// The DS records.
    pub ds: Option<Vec<String>>,
    /// The key's flags; `flags` on the wire.
    pub keyflags: Option<u16>,
    /// The key's type.
    pub keytype: Option<String>,
    /// Whether the server manages the key.
    pub managed: Option<bool>,
}

/// One hosted zone. A field that the server did not send is `None`, which is
/// not the same as an empty value; a domain with every field `None` is valid.
#[derive(Debug, Clone, PartialEq, Eq)]
pub struct Domain {
    /// When the domain was created.
    pub created: Option<String>,
    /// The domain's DNSSEC keys.
    pub keys: Option<Vec<DNSSECKeyInfo>>,
    /// The minimum TTL of the domain's records.
    pub minimum_ttl: Option<u16>,
    /// The zone's name.
    pub name: Option<String>,
    /// When the domain was last published.
    pub published: Option<String>,
    /// When the domain was last touched.
    pub touched: Option<String>,
    /// The zonefile.
    pub zonefile: Option<String>,
}

/// Domains in the order in which the server sent them.
pub type DomainList = Vec<Domain>;

/// A [`DNSSECKeyInfo`] with its texts as sequences of characters.
pub struct DNSSECKeyInfoView {
    pub dnskey: Option<Seq<char>>,
    pub ds: Option<Seq<Seq<char>>>,
    pub keyflags: Option<u16>,
    pub keytype: Option<Seq<char>>,
    pub managed: Option<bool>,
}

/// A [`Domain`] with its texts and lists as sequences.
pub struct DomainView {
    pub created: Option<Seq<char>>,
    pub keys: Option<Seq<DNSSECKeyInfoView>>,
    pub minimum_ttl: Option<u16>,
    pub name: Option<Seq<char>>,
    pub published: Option<Seq<char>>,
    pub touched: Option<Seq<char>>,
    pub zonefile: Option<Seq<char>>,
}

impl DNSSECKeyInfoView {
    /// The key of which nothing is known.
    pub open spec fn empty() -> DNSSECKeyInfoView {
        DNSSECKeyInfoView { dnskey: None, ds: None, keyflags: None, keytype: None, managed: None }
    }
}

impl DomainView {
    /// The domain of which nothing is known.
    pub open spec fn empty() -> DomainView {
        DomainView {
            created: None,
            keys: None,
            minimum_ttl: None,
            name: None,
            published: None,
            touched: None,
            zonefile: None,
        }
    }
}

impl DeepView for DNSSECKeyInfo {
    type V = DNSSECKeyInfoView;

    open spec fn deep_view(&self) -> DNSSECKeyInfoView {
        DNSSECKeyInfoView {
            dnskey: self.dnskey.deep_view(),
            ds: self.ds.deep_view(),
            keyflags: self.keyflags,
            keytype: self.keytype.deep_view(),
            managed: self.managed,
        }
    }
}

impl View for DNSSECKeyInfo {
    type V = DNSSECKeyInfoView;

    open spec fn view(&self) -> DNSSECKeyInfoView {
        self.deep_view()
    }
}

impl DeepView for Domain {
    type V = DomainView;

    open spec fn deep_view(&self) -> DomainView {
        DomainView {
            created: self.created.deep_view(),
            keys: self.keys.deep_view(),
            minimum_ttl: self.minimum_ttl,
            name: self.name.deep_view(),
            published: self.published.deep_view(),
            touched: self.touched.deep_view(),
            zonefile: self.zonefile.deep_view(),
        }
    }
}

impl View for Domain {
    type V = DomainView;

    open spec fn view(&self) -> DomainView {
        self.deep_view()
    }
}

impl Default for DNSSECKeyInfo {
    /// The key with every field absent.
    fn default() -> (key: DNSSECKeyInfo)
        ensures
            key@ == DNSSECKeyInfoView::empty(),
    {
        DNSSECKeyInfo { dnskey: None, ds: None, keyflags: None, keytype: None, managed: None }
    }
}

impl Default for Domain {
    /// The domain with every field absent.
    fn default() -> (domain: Domain)
        ensures
            domain@ == DomainView::empty(),
    {
        Domain {
            created: None,
            keys: None,
            minimum_ttl: None,
            name: None,
            published: None,
            touched: None,
            zonefile: None,
        }
    }
}

/// The path of the collection of domains.
pub open spec fn domains_path() -> Seq<char> {
    "/domains/"@
}

/// The path of one domain: the name stands in it as it is, unescaped.
pub open spec fn domain_path(domain: Seq<char>) -> Seq<char> {
    "/domains/"@ + domain + "/"@
}

/// The path and query that ask for the domain which owns a record name.
pub open spec fn owning_domain_path(qname: Seq<char>) -> Seq<char> {
    "/domains/?owns_qname="@ + qname
}

/// The path of a domain's zonefile.
pub open spec fn zonefile_path(domain: Seq<char>) -> Seq<char> {
    "/domains/"@ + domain + "/zonefile/"@
}

/// The body that asks for a new domain: a JSON object with the one member
/// `name`, whose value is the name as a JSON string. For a name without a
/// double quote, a backslash or a control character that is the name between
/// quotes, as in `{"name": "example.com"}`.
pub open spec fn create_domain_body(domain: Seq<char>) -> Seq<char> {
    "{\"name\": "@ + quoted(domain) + "}"@
}

/// The body that asks for a new domain holds the name so that it reads back:
/// between the fixed beginning `{"name": ` and the closing brace stands one
/// JSON string, and that string reads as the name, whatever the name holds.
/// No name ends the string early or adds a member to the object.
pub proof fn lemma_create_domain_body_holds_the_name(domain: Seq<char>)
    ensures
        create_domain_body(domain) == "{\"name\": "@ + quoted(domain) + "}"@,
        unquoted(quoted(domain)) == Some(domain),
{
    lemma_quoted_reads_back(domain);
}

/// For a name without a double quote, a backslash or a character below
/// U+0020 the body is the name between quotes, as it is.
pub proof fn lemma_create_domain_body_of_plain_name(domain: Seq<char>)
    requires
        forall|i: int| 0 <= i < domain.len() ==> !needs_escape(#[trigger] domain[i]),
    ensures
        create_domain_body(domain) == "{\"name\": \""@ + domain + "\"}"@,
{
    lemma_plain_text_is_unchanged(domain);
    reveal_strlit("{\"name\": ");
    reveal_strlit("}");
    reveal_strlit("{\"name\": \"");
    reveal_strlit("\"}");
    assert(create_domain_body(domain) =~= "{\"name\": \""@ + domain + "\"}"@);
}

/// The operations on domains, bound to the client that they were taken from.
pub struct DomainClient<'a> {
    pub(crate) client: &'a Client,
}

impl<'a> Client {
    /// The operations on domains at this endpoint.
    pub fn domain(&'a self) -> (domains: DomainClient<'a>)
        ensures
            domains.endpoint() == *self,
    {
        DomainClient { client: self }
    }
}

impl<'a> DomainClient<'a> {
    /// The client that the operations are bound to.
    pub closed spec fn endpoint(&self) -> Client {
        *self.client
    }

    /// The client that the operations are bound to.
    pub fn client(&self) -> (client: &'a Client)
        ensures
            *client == self.endpoint(),
    {
        self.client
    }

    /// Creates the domain `domain`: POST to the collection of domains, with
    /// the name in a JSON body. Whatever the name holds, the body is JSON
    /// and its member `name` reads back as the name.
    ///
    /// On 200 the body is the new domain; on 400 the server refused the name.
    pub fn create_domain(&self, domain: String) -> (call: Call)
        ensures
            call.operation == Operation::CreateDomain,
            call.request@ == (RequestView {
                method: Method::Post,
                path: domains_path(),
                body: Some(create_domain_body(domain@)),
            }),
    {
        let mut body = String::from_str("{\"name\": ");
        let name = quote(domain.as_str());
        body.append(name.as_str());
        body.append("}");
        Call {
            operation: Operation::CreateDomain,
            request: Request {
                method: Method::Post,
                path: String::from_str("/domains/"),
                body: Some(body),
            },
        }
    }

    /// Lists the account's domains: GET on the collection of domains.
    ///
    /// On 200 the body is the list, in the server's order.
    pub fn get_domains(&self) -> (call: Call)
        ensures
            call.operation == Operation::GetDomains,
            call.request@ == (RequestView {
                method: Method::Get,
                path: domains_path(),
                body: None,
            }),
    {
        Call {
            operation: Operation::GetDomains,
            request: Request { method: Method::Get, path: String::from_str("/domains/"), body: None },
        }
    }

    /// Fetches the domain `domain`: GET on the domain's path.
    ///
    /// On 200 the body is the domain; on 404 there is no such domain.
    pub fn get_domain(&self, domain: &str) -> (call: Call)
        ensures
            call.operation == Operation::GetDomain,
            call.request@ == (RequestView {
                method: Method::Get,
                path: domain_path(domain@),
                body: None,
            }),
    {
        let mut path = String::from_str("/domains/");
        path.append(domain);
        path.append("/");
        Call {
            operation: Operation::GetDomain,
            request: Request { method: Method::Get, path, body: None },
        }
    }

    /// Deletes the domain `domain`: DELETE on the domain's path.
    ///
    /// On 204 the response text is returned as it is.
    pub fn delete_domain(&self, domain: &str) -> (call: Call)
        ensures
            call.operation == Operation::DeleteDomain,
            call.request@ == (RequestView {
                method: Method::Delete,
                path: domain_path(domain@),
                body: None,
            }),
    {
        let mut path = String::from_str("/domains/");
        path.append(domain);
        path.append("/");
        Call {
            operation: Operation::DeleteDomain,
            request: Request { method: Method::Delete, path, body: None },
        }
    }

    /// Fetches the domain that owns the record name `qname`: GET on the
    /// collection of domains, with the name as a query.
    ///
    /// On 200 the body is the domain; on 404 no domain owns the name.
    pub fn get_owning_domain(&self, qname: &str) -> (call: Call)
        ensures
            call.operation == Operation::GetOwningDomain,
            call.request@ == (RequestView {
                method: Method::Get,
                path: owning_domain_path(qname@),
                body: None,
            }),
    {
        let mut path = String::from_str("/domains/?owns_qname=");
        path.append(qname);
        Call {
            operation: Operation::GetOwningDomain,
            request: Request { method: Method::Get, path, body: None },
        }
    }

    /// Fetches the zonefile of the domain `domain`: GET on the zonefile's path.
    ///
    /// On 200 the response text is the zonefile, returned as it is.
    pub fn get_zonefile(&self, domain: &str) -> (call: Call)
        ensures
            call.operation == Operation::GetZonefile,
            call.request@ == (RequestView {
                method: Method::Get,
                path: zonefile_path(domain@),
                body: None,
            }),
    {
        let mut path = String::from_str("/domains/");
        path.append(domain);
        path.append("/zonefile/");
        Call {
            operation: Operation::GetZonefile,
            request: Request { method: Method::Get, path, body: None },
        }
    }
}

} // verus!
