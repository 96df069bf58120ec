use vstd::prelude::*;
use vstd::string::StringExecFns;

use crate::exchange::{is_success, ApiError, ApiRequest, Method, Reply};
use crate::json::Json;
use crate::region::Region;

verus! {

/// The compute service's base URL for a tenant in a region.
pub open spec fn compute_base(region: Region, tenant_id: Seq<char>) -> Seq<char> {
    "https://compute."@ + region.code() + ".conoha.io/v2/"@ + tenant_id
}

/// The body that asks for an ISO image download: `{"iso-image": {"url": url}}`.
pub open spec fn is_download_body(j: Json, url: Seq<char>) -> bool {
    &&& j matches Json::Object(m)
    &&& m@.len() == 1
    &&& m@[0].0@ == "iso-image"@
    &&& m@[0].1 matches Json::Object(inner)
    &&& inner@.len() == 1
    &&& inner@[0].0@ == "url"@
    &&& inner@[0].1.text() == Some(url)
}

/// The text of the string member `key` of `j`.
pub open spec fn string_member(j: Json, key: Seq<char>) -> Option<Seq<char>> {
    match j.member(key) {
        Some(v) => v.text(),
        None => None,
    }
}

/// The elements of the array stored under `key` in a listing's body.
pub open spec fn listed(body: Option<Json>, key: Seq<char>) -> Option<Seq<Json>> {
    match body {
        Some(j) => match j.member(key) {
            Some(Json::Array(a)) => Some(a@),
            _ => None,
        },
        None => None,
    }
}

/// A link of a server record, as plain values.
pub struct LinkView {
    pub href: Seq<char>,
    pub rel: Seq<char>,
}

/// A server record, as plain values.
pub struct ServerView {
    pub id: Seq<char>,
    pub name: Seq<char>,
    pub links: Seq<LinkView>,
}

/// An ISO image record, as plain values.
pub struct IsoImageView {
    pub name: Seq<char>,
    pub url: Seq<char>,
    pub path: Seq<char>,
    pub ctime: Seq<char>,
    pub size: u64,
}

/// The link that `j` describes: an object with string members `href` and `rel`.
pub open spec fn link_of(j: Json) -> Option<LinkView> {
    if string_member(j, "href"@) is Some && string_member(j, "rel"@) is Some {
        Some(
            LinkView {
                href: string_member(j, "href"@)->Some_0,
                rel: string_member(j, "rel"@)->Some_0,
            },
        )
    } else {
        None
    }
}

/// The links that `j` describes: an array whose every element is a link.
pub open spec fn links_of(j: Json) -> Option<Seq<LinkView>> {
    match j {
        Json::Array(a) => if forall|i: int| 0 <= i < a@.len() ==> (#[trigger] link_of(a@[i])) is Some {
            Some(Seq::new(a@.len(), |i: int| link_of(a@[i])->Some_0))
        } else {
            None
        },
        _ => None,
    }
}

/// The server that `j` describes: an object with string members `id` and
/// `name` and a member `links` that holds links.
pub open spec fn server_of(j: Json) -> Option<ServerView> {
    match (string_member(j, "id"@), string_member(j, "name"@), j.member("links"@)) {
        (Some(id), Some(name), Some(l)) => match links_of(l) {
            Some(links) => Some(ServerView { id, name, links }),
            None => None,
        },
        _ => None,
    }
}

/// The size member of an ISO record: an unsigned 64-bit integer.
pub open spec fn size_of(j: Json) -> Option<u64> {
    match j.member("size"@) {
        Some(Json::Number(Some(n))) => Some(n),
        _ => None,
    }
}

/// The ISO image that `j` describes: an object with string members `name`,
/// `url`, `path` and `ctime` and an unsigned integer member `size`.
pub open spec fn iso_of(j: Json) -> Option<IsoImageView> {
    match (
        string_member(j, "name"@),
        string_member(j, "url"@),
        string_member(j, "path"@),
        string_member(j, "ctime"@),
        size_of(j),
    ) {
        (Some(name), Some(url), Some(path), Some(ctime), Some(size)) => Some(
            IsoImageView { name, url, path, ctime, size },
        ),
        _ => None,
    }
}

/// A link of a server record.
#[derive(Debug)]
pub struct Link {
    href: String,
    rel: String,
}

/// A virtual machine instance, as the compute service lists it.
#[derive(Debug)]
pub struct Server {
    id: String,
    links: Vec<Link>,
    name: String,
}

/// An ISO image, as the compute service lists it.
#[derive(Debug)]
pub struct IsoImage {
    url: String,
    path: String,
    ctime: String,
    name: String,
    size: u64,
}

impl View for Link {
    type V = LinkView;

    closed spec fn view(&self) -> LinkView {
        LinkView { href: self.href@, rel: self.rel@ }
    }
}

impl View for Server {
    type V = ServerView;

    closed spec fn view(&self) -> ServerView {
        ServerView {
            id: self.id@,
            name: self.name@,
            links: Seq::new(self.links@.len(), |i: int| self.links@[i]@),
        }
    }
}

impl View for IsoImage {
    type V = IsoImageView;

    closed spec fn view(&self) -> IsoImageView {
        IsoImageView {
            name: self.name@,
            url: self.url@,
            path: self.path@,
            ctime: self.ctime@,
            size: self.size,
        }
    }
}

impl IsoImage {
    pub fn name(&self) -> (r: &str)
        ensures
            r@ == self@.name,
    {
        self.name.as_str()
    }

    pub fn url(&self) -> (r: &str)
        ensures
            r@ == self@.url,
    {
        self.url.as_str()
    }

    /// Where the image is stored on the service's side.
    pub fn path(&self) -> (r: &str)
        ensures
            r@ == self@.path,
    {
        self.path.as_str()
    }

    pub fn ctime(&self) -> (r: &str)
        ensures
            r@ == self@.ctime,
    {
        self.ctime.as_str()
    }

    pub fn size(&self) -> (r: u64)
        ensures
            r == self@.size,
    {
        self.size
    }
}

impl Link {
    pub fn href(&self) -> (r: &str)
        ensures
            r@ == self@.href,
    {
        self.href.as_str()
    }

    pub fn rel(&self) -> (r: &str)
        ensures
            r@ == self@.rel,
    {
        self.rel.as_str()
    }
}

impl Server {
    pub fn id(&self) -> (r: &str)
        ensures
            r@ == self@.id,
    {
        self.id.as_str()
    }

    pub fn name(&self) -> (r: &str)
        ensures
            r@ == self@.name,
    {
        self.name.as_str()
    }

    pub fn links(&self) -> (r: &[Link])
        ensures
            r@.len() == self@.links.len(),
            forall|i: int| 0 <= i < r@.len() ==> (#[trigger] r@[i])@ == self@.links[i],
    {
        self.links.as_slice()
    }
}

/// The text of the string member `key` of `j`, copied.
fn string_in(j: &Json, key: &str) -> (r: Option<String>)
    ensures
        r matches Some(s) ==> string_member(*j, key@) == Some(s@),
        r is None ==> string_member(*j, key@) is None,
{
    match j.get(key) {
        Some(v) => v.to_text(),
        None => None,
    }
}

/// Decodes one link record.
pub fn decode_link(j: &Json) -> (r: Option<Link>)
    ensures
        r matches Some(l) ==> link_of(*j) == Some(l@),
        r is None ==> link_of(*j) is None,
{
    let href = string_in(j, "href");
    let rel = string_in(j, "rel");
    match (href, rel) {
        (Some(href), Some(rel)) => Some(Link { href, rel }),
        _ => None,
    }
}

/// Decodes an array of link records.
pub fn decode_links(j: &Json) -> (r: Option<Vec<Link>>)
    ensures
        r matches Some(v) ==> links_of(*j) == Some(Seq::new(v@.len(), |i: int| v@[i]@)),
        r is None ==> links_of(*j) is None,
{
    match j {
        Json::Array(a) => {
            let mut out: Vec<Link> = Vec::new();
            let mut i: usize = 0;
            while i < a.len()
                invariant
                    0 <= i <= a@.len(),
                    *j == Json::Array(*a),
                    out@.len() == i,
                    forall|k: int| 0 <= k < i ==> link_of(a@[k]) == Some((#[trigger] out@[k])@),
                decreases a@.len() - i,
            {
                match decode_link(&a[i]) {
                    Some(l) => out.push(l),
                    None => return None,
                }
                i = i + 1;
            }
            assert forall|k: int| 0 <= k < a@.len() implies (#[trigger] link_of(a@[k])) is Some by {
                assert(link_of(a@[k]) == Some(out@[k]@));
            }
            assert(Seq::new(a@.len(), |k: int| link_of(a@[k])->Some_0) =~= Seq::new(
                out@.len(),
                |k: int| out@[k]@,
            ));
            Some(out)
        },
        _ => None,
    }
}

/// Decodes one server record.
pub fn decode_server(j: &Json) -> (r: Option<Server>)
    ensures
        r matches Some(s) ==> server_of(*j) == Some(s@),
        r is None ==> server_of(*j) is None,
{
    let id = string_in(j, "id");
    let name = string_in(j, "name");
    let links = match j.get("links") {
        Some(l) => decode_links(l),
        None => None,
    };
    match (id, name, links) {
        (Some(id), Some(name), Some(links)) => {
            let s = Server { id, links, name };
            assert(s@.links =~= Seq::new(s.links@.len(), |i: int| s.links@[i]@));
            Some(s)
        },
        _ => None,
    }
}

/// Decodes one ISO image record.
pub fn decode_iso(j: &Json) -> (r: Option<IsoImage>)
    ensures
        r matches Some(s) ==> iso_of(*j) == Some(s@),
        r is None ==> iso_of(*j) is None,
{
    let name = string_in(j, "name");
    let url = string_in(j, "url");
    let path = string_in(j, "path");
    let ctime = string_in(j, "ctime");
    let size = match j.get("size") {
        Some(Json::Number(Some(n))) => Some(*n),
        _ => None,
    };
    match (name, url, path, ctime, size) {
        (Some(name), Some(url), Some(path), Some(ctime), Some(size)) => Some(
            IsoImage { url, path, ctime, name, size },
        ),
        _ => None,
    }
}

/// Decodes each record of a listing, in order.
pub fn decode_servers(items: &Vec<Json>) -> (r: Result<Vec<Server>, ApiError>)
    ensures
        if forall|i: int| 0 <= i < items@.len() ==> (#[trigger] server_of(items@[i])) is Some {
            r matches Ok(v) && v@.len() == items@.len() && forall|i: int|
                0 <= i < items@.len() ==> server_of(items@[i]) == Some((#[trigger] v@[i])@)
        } else {
            r == Err::<Vec<Server>, ApiError>(ApiError::PartialDecodeError)
        },
{
    let mut out: Vec<Server> = Vec::new();
    let mut i: usize = 0;
    while i < items.len()
        invariant
            0 <= i <= items@.len(),
            out@.len() == i,
            forall|k: int| 0 <= k < i ==> server_of(items@[k]) == Some((#[trigger] out@[k])@),
        decreases items@.len() - i,
    {
        match decode_server(&items[i]) {
            Some(s) => out.push(s),
            None => return Err(ApiError::PartialDecodeError),
        }
        i = i + 1;
    }
    assert forall|k: int| 0 <= k < items@.len() implies (#[trigger] server_of(items@[k])) is Some by {
        assert(server_of(items@[k]) == Some(out@[k]@));
    }
    Ok(out)
}

/// Decodes each record of a listing, in order.
pub fn decode_isos(items: &Vec<Json>) -> (r: Result<Vec<IsoImage>, ApiError>)
    ensures
        if forall|i: int| 0 <= i < items@.len() ==> (#[trigger] iso_of(items@[i])) is Some {
            r matches Ok(v) && v@.len() == items@.len() && forall|i: int|
                0 <= i < items@.len() ==> iso_of(items@[i]) == Some((#[trigger] v@[i])@)
        } else {
            r == Err::<Vec<IsoImage>, ApiError>(ApiError::PartialDecodeError)
        },
{
    let mut out: Vec<IsoImage> = Vec::new();
    let mut i: usize = 0;
    while i < items.len()
        invariant
            0 <= i <= items@.len(),
            out@.len() == i,
            forall|k: int| 0 <= k < i ==> iso_of(items@[k]) == Some((#[trigger] out@[k])@),
        decreases items@.len() - i,
    {
        match decode_iso(&items[i]) {
            Some(s) => out.push(s),
            None => return Err(ApiError::PartialDecodeError),
        }
        i = i + 1;
    }
    assert forall|k: int| 0 <= k < items@.len() implies (#[trigger] iso_of(items@[k])) is Some by {
        assert(iso_of(items@[k]) == Some(out@[k]@));
    }
    Ok(out)
}

/// A client of the compute service, bound to one tenant, region and token.
pub struct Compute {
    endpoint: String,
    token: String,
}

impl Compute {
    pub closed spec fn spec_endpoint(&self) -> Seq<char> {
        self.endpoint@
    }

    pub closed spec fn spec_token(&self) -> Seq<char> {
        self.token@
    }

    /// The client talks to `region`'s compute service for `tenant_id`, with `token`.
    pub open spec fn bound_to(&self, region: Region, tenant_id: Seq<char>, token: Seq<char>) -> bool {
        self.spec_endpoint() == compute_base(region, tenant_id) && self.spec_token() == token
    }

    pub fn new(tenant_id: &str, region: Region, token: &str) -> (r: Compute)
        ensures
            r.bound_to(region, tenant_id@, token@),
    {
        let mut endpoint = "https://compute.".to_string();
        endpoint.append(region.to_url());
        endpoint.append(".conoha.io/v2/");
        endpoint.append(tenant_id);
        Compute { endpoint, token: token.to_string() }
    }

    /// The compute service's base URL for this tenant.
    pub fn endpoint(&self) -> (r: String)
        ensures
            r@ == self.spec_endpoint(),
    {
        self.endpoint.clone()
    }

    /// The URL of a resource path under the base URL.
    pub fn url(&self, prefix: &str) -> (r: String)
        ensures
            r@ == self.spec_endpoint() + prefix@,
    {
        let mut u = self.endpoint.clone();
        u.append(prefix);
        u
    }

    fn request(&self, method: Method, path: &str, body: Option<Json>) -> (r: ApiRequest)
        ensures
            r.method == method,
            r.url@ == self.spec_endpoint() + path@,
            r.token matches Some(t) && t@ == self.spec_token(),
            r.body == body,
    {
        ApiRequest { method, url: self.url(path), token: Some(self.token.clone()), body }
    }

    /// The request that lists the tenant's servers.
    pub fn vm_list_request(&self) -> (r: ApiRequest)
        ensures
            r.method == Method::Get,
            r.url@ == self.spec_endpoint() + "/servers"@,
            r.token matches Some(t) && t@ == self.spec_token(),
            r.body is None,
    {
        self.request(Method::Get, "/servers", None)
    }

    /// The servers in the reply to `vm_list_request`, in the order given.
    pub fn vm_list(&self, reply: Reply) -> (r: Result<Vec<Server>, ApiError>)
        ensures
            reply is Unreachable ==> r == Err::<Vec<Server>, ApiError>(ApiError::TransportError),
            reply matches Reply::Answered { body, .. } ==> match listed(body, "servers"@) {
                None => r == Err::<Vec<Server>, ApiError>(ApiError::DecodeError),
                Some(items) => if forall|i: int| 0 <= i < items.len() ==> (#[trigger] server_of(items[i])) is Some {
                    r matches Ok(v) && v@.len() == items.len() && forall|i: int|
                        0 <= i < items.len() ==> server_of(items[i]) == Some((#[trigger] v@[i])@)
                } else {
                    r == Err::<Vec<Server>, ApiError>(ApiError::PartialDecodeError)
                },
            },
    {
        match reply {
            Reply::Unreachable => Err(ApiError::TransportError),
            Reply::Answered { body, .. } => {
                let items = match &body {
                    Some(j) => match j.get("servers") {
                        Some(Json::Array(a)) => a,
                        _ => return Err(ApiError::DecodeError),
                    },
                    None => return Err(ApiError::DecodeError),
                };
                decode_servers(items)
            },
        }
    }

    /// The request that asks the service to fetch the ISO image at `url`:
    /// a POST of `{"iso-image": {"url": url}}`.
    pub fn download_iso_request(&self, url: &str) -> (r: ApiRequest)
        ensures
            r.method == Method::Post,
            r.url@ == self.spec_endpoint() + "/iso-images"@,
            r.token matches Some(t) && t@ == self.spec_token(),
            r.body matches Some(b) && is_download_body(b, url@),
    {
        let inner = Json::Object(vec![("url".to_string(), Json::Str(url.to_string()))]);
        let body = Json::Object(vec![("iso-image".to_string(), inner)]);
        self.request(Method::Post, "/iso-images", Some(body))
    }

    /// Whether the service accepted the request of `download_iso_request`.
    pub fn download_iso(&self, reply: &Reply) -> (r: Result<(), ApiError>)
        ensures
            *reply is Unreachable ==> r == Err::<(), ApiError>(ApiError::TransportError),
            *reply matches Reply::Answered { status, .. } ==> if is_success(status) {
                r is Ok
            } else {
                r == Err::<(), ApiError>(ApiError::RequestRejected)
            },
    {
        match reply {
            Reply::Unreachable => Err(ApiError::TransportError),
            Reply::Answered { status, .. } => if 200 <= *status && *status <= 299 {
                Ok(())
            } else {
                Err(ApiError::RequestRejected)
            },
        }
    }

    /// The request that lists the tenant's ISO images.
    pub fn list_iso_request(&self) -> (r: ApiRequest)
        ensures
            r.method == Method::Get,
            r.url@ == self.spec_endpoint() + "/iso-images"@,
            r.token matches Some(t) && t@ == self.spec_token(),
            r.body is None,
    {
        self.request(Method::Get, "/iso-images", None)
    }

    /// The ISO images in the reply to `list_iso_request`, in the order given.
    pub fn list_iso(&self, reply: Reply) -> (r: Result<Vec<IsoImage>, ApiError>)
        ensures
            reply is Unreachable ==> r == Err::<Vec<IsoImage>, ApiError>(ApiError::TransportError),
            reply matches Reply::Answered { body, .. } ==> match listed(body, "iso-images"@) {
                None => r == Err::<Vec<IsoImage>, ApiError>(ApiError::DecodeError),
                Some(items) => if forall|i: int| 0 <= i < items.len() ==> (#[trigger] iso_of(items[i])) is Some {
                    r matches Ok(v) && v@.len() == items.len() && forall|i: int|
                        0 <= i < items.len() ==> iso_of(items[i]) == Some((#[trigger] v@[i])@)
                } else {
                    r == Err::<Vec<IsoImage>, ApiError>(ApiError::PartialDecodeError)
                },
            },
    {
        match reply {
            Reply::Unreachable => Err(ApiError::TransportError),
            Reply::Answered { body, .. } => {
                let items = match &body {
                    Some(j) => match j.get("iso-images") {
                        Some(Json::Array(a)) => a,
                        _ => return Err(ApiError::DecodeError),
                    },
                    None => return Err(ApiError::DecodeError),
                };
                decode_isos(items)
            },
        }
    }
}

} // verus!
