use conoha::compute::{decode_iso, decode_server, Compute};
use conoha::exchange::{ApiError, Method, Reply};
use conoha::json::Json;
use conoha::region::Region;

fn object(members: Vec<(&str, Json)>) -> Json {
    Json::Object(members.into_iter().map(|(k, v)| (k.to_string(), v)).collect())
}

fn text(s: &str) -> Json {
    Json::Str(s.to_string())
}

fn client() -> Compute {
    Compute::new("T1", Region::Sjc1, "tok")
}

fn server(id: &str, name: &str, links: Vec<(&str, &str)>) -> Json {
    let links = links
        .into_iter()
        .map(|(href, rel)| object(vec![("href", text(href)), ("rel", text(rel))]))
        .collect();
    object(vec![("id", text(id)), ("links", Json::Array(links)), ("name", text(name))])
}

fn answer(body: Json) -> Reply {
    Reply::Answered { status: 200, body: Some(body) }
}

fn ubuntu() -> Json {
    object(vec![
        ("name", text("ubuntu.iso")),
        ("url", text("http://x/ubuntu.iso")),
        ("path", text("/iso/ubuntu.iso")),
        ("ctime", text("2020-01-01")),
        ("size", Json::Number(Some(123456))),
    ])
}

#[test]
fn compute_endpoint() {
    assert_eq!(client().endpoint(), "https://compute.sjc1.conoha.io/v2/T1");
    assert_eq!(client().url("/servers"), "https://compute.sjc1.conoha.io/v2/T1/servers");
    let c = Compute::new("abc", Region::Tyo1, "tok");
    assert_eq!(c.endpoint(), "https://compute.tyo1.conoha.io/v2/abc");
}

#[test]
fn requests_carry_token() {
    let r = client().vm_list_request();
    assert_eq!(r.method, Method::Get);
    assert_eq!(r.url, "https://compute.sjc1.conoha.io/v2/T1/servers");
    assert_eq!(r.token, Some("tok".to_string()));
    assert!(r.body.is_none());
    let r = client().list_iso_request();
    assert_eq!(r.method, Method::Get);
    assert_eq!(r.url, "https://compute.sjc1.conoha.io/v2/T1/iso-images");
    assert_eq!(r.token, Some("tok".to_string()));
}

#[test]
fn download_request_body() {
    let r = client().download_iso_request("http://x/a.iso");
    assert_eq!(r.method, Method::Post);
    assert_eq!(r.url, "https://compute.sjc1.conoha.io/v2/T1/iso-images");
    assert_eq!(r.token, Some("tok".to_string()));
    let body = r.body.expect("a body");
    let inner = body.get("iso-image").expect("iso-image");
    assert_eq!(inner.get("url").and_then(|u| u.to_text()), Some("http://x/a.iso".to_string()));
}

#[test]
fn vm_list_keeps_order_and_fields() {
    let body = object(vec![(
        "servers",
        Json::Array(vec![
            server("id-1", "first", vec![("http://a/1", "self"), ("http://b/1", "bookmark")]),
            server("id-2", "second", vec![]),
        ]),
    )]);
    let servers = client().vm_list(answer(body)).expect("decoded");
    assert_eq!(servers.len(), 2);
    assert_eq!(servers[0].id(), "id-1");
    assert_eq!(servers[0].name(), "first");
    assert_eq!(servers[0].links().len(), 2);
    assert_eq!(servers[0].links()[0].href(), "http://a/1");
    assert_eq!(servers[0].links()[0].rel(), "self");
    assert_eq!(servers[0].links()[1].href(), "http://b/1");
    assert_eq!(servers[0].links()[1].rel(), "bookmark");
    assert_eq!(servers[1].id(), "id-2");
    assert_eq!(servers[1].name(), "second");
    assert!(servers[1].links().is_empty());
}

#[test]
fn vm_list_errors() {
    let c = client();
    assert!(matches!(c.vm_list(Reply::Unreachable), Err(ApiError::TransportError)));
    assert!(matches!(c.vm_list(Reply::Answered { status: 200, body: None }), Err(ApiError::DecodeError)));
    assert!(matches!(c.vm_list(answer(object(vec![]))), Err(ApiError::DecodeError)));
    assert!(matches!(c.vm_list(answer(object(vec![("servers", text("x"))]))), Err(ApiError::DecodeError)));
    let bad = object(vec![("servers", Json::Array(vec![server("a", "b", vec![]), object(vec![("id", text("c"))])]))]);
    assert!(matches!(c.vm_list(answer(bad)), Err(ApiError::PartialDecodeError)));
    let empty = object(vec![("servers", Json::Array(vec![]))]);
    assert_eq!(c.vm_list(answer(empty)).expect("decoded").len(), 0);
}

#[test]
fn server_with_bad_link_is_rejected() {
    let j = object(vec![
        ("id", text("a")),
        ("name", text("b")),
        ("links", Json::Array(vec![object(vec![("href", text("h"))])])),
    ]);
    assert!(decode_server(&j).is_none());
    assert!(decode_server(&server("a", "b", vec![("h", "r")])).is_some());
}

#[test]
fn list_iso_keeps_fields() {
    let body = object(vec![("iso-images", Json::Array(vec![ubuntu()]))]);
    let isos = client().list_iso(answer(body)).expect("decoded");
    assert_eq!(isos.len(), 1);
    assert_eq!(isos[0].name(), "ubuntu.iso");
    assert_eq!(isos[0].url(), "http://x/ubuntu.iso");
    assert_eq!(isos[0].path(), "/iso/ubuntu.iso");
    assert_eq!(isos[0].ctime(), "2020-01-01");
    assert_eq!(isos[0].size(), 123456u64);
}

#[test]
fn list_iso_errors() {
    let c = client();
    assert!(matches!(c.list_iso(Reply::Unreachable), Err(ApiError::TransportError)));
    assert!(matches!(c.list_iso(answer(object(vec![("servers", Json::Array(vec![]))]))), Err(ApiError::DecodeError)));
    let negative = object(vec![
        ("name", text("n")),
        ("url", text("u")),
        ("path", text("p")),
        ("ctime", text("c")),
        ("size", Json::Number(None)),
    ]);
    assert!(decode_iso(&negative).is_none());
    let body = object(vec![("iso-images", Json::Array(vec![ubuntu(), negative]))]);
    assert!(matches!(c.list_iso(answer(body)), Err(ApiError::PartialDecodeError)));
}

#[test]
fn download_iso_status() {
    let c = client();
    assert_eq!(c.download_iso(&Reply::Answered { status: 400, body: None }), Err(ApiError::RequestRejected));
    assert_eq!(c.download_iso(&Reply::Answered { status: 202, body: None }), Ok(()));
    assert_eq!(c.download_iso(&Reply::Answered { status: 299, body: None }), Ok(()));
    assert_eq!(c.download_iso(&Reply::Answered { status: 300, body: None }), Err(ApiError::RequestRejected));
    assert_eq!(c.download_iso(&Reply::Unreachable), Err(ApiError::TransportError));
}
