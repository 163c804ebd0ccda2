use domain_client::exchange::{Call, Operation};
use domain_client::request::{Method, Request};
use domain_client::Client;

fn client() -> Client {
    Client::new(String::from("https://dns.example/api/v1"))
}

fn expect(call: Call, operation: Operation, method: Method, path: &str, body: Option<&str>) {
    assert_eq!(call.operation, operation);
    assert_eq!(
        call.request,
        Request { method, path: path.to_string(), body: body.map(|text| text.to_string()) }
    );
}

#[test]
fn create_domain_posts_the_name_to_the_collection() {
    let client = client();
    let call = client.domain().create_domain(String::from("example.com"));
    expect(
        call,
        Operation::CreateDomain,
        Method::Post,
        "/domains/",
        Some("{\"name\": \"example.com\"}"),
    );
}

#[test]
fn create_domain_body_escapes_what_json_cannot_hold() {
    let client = client();
    let call = client.domain().create_domain(String::from("a\"b"));
    assert_eq!(call.request.body.as_deref(), Some("{\"name\": \"a\\\"b\"}"));
    let call = client.domain().create_domain(String::from("a\\b"));
    assert_eq!(call.request.body.as_deref(), Some("{\"name\": \"a\\\\b\"}"));
    let call = client.domain().create_domain(String::from("a\nb\u{1}"));
    assert_eq!(call.request.body.as_deref(), Some("{\"name\": \"a\\nb\\u0001\"}"));
    let call = client.domain().create_domain(String::from("x\", \"zonefile\": \"y"));
    assert_eq!(
        call.request.body.as_deref(),
        Some("{\"name\": \"x\\\", \\\"zonefile\\\": \\\"y\"}")
    );
}

#[test]
fn create_domain_body_keeps_other_characters_as_they_are() {
    let client = client();
    let call = client.domain().create_domain(String::from("a b/\u{fc}.\u{1f600}\u{7f}"));
    assert_eq!(
        call.request.body.as_deref(),
        Some("{\"name\": \"a b/\u{fc}.\u{1f600}\u{7f}\"}")
    );
    let call = client.domain().create_domain(String::new());
    assert_eq!(call.request.body.as_deref(), Some("{\"name\": \"\"}"));
}

fn names() -> Vec<String> {
    let mut names = vec![
        String::new(),
        String::from("example.com"),
        String::from("a\"b"),
        String::from("\""),
        String::from("\\"),
        String::from("\\\""),
        String::from("\\u0041"),
        String::from("x\", \"zonefile\": \"y"),
        String::from("\"}"),
        String::from("tab\there\r\nand\u{8}\u{c}"),
        String::from("\u{0}\u{1f}\u{20}\u{7f}\u{80}"),
        String::from("\u{fc}\u{2028}\u{d7ff}\u{e000}\u{ffff}\u{10000}\u{1f600}\u{10ffff}"),
    ];
    for code in 0u32..0x100 {
        let c = char::from_u32(code).unwrap();
        names.push(c.to_string());
        names.push(format!("a{}b", c));
    }
    names
}

#[test]
fn create_domain_body_is_json_that_reads_back_as_the_name() {
    let client = client();
    for name in names() {
        let call = client.domain().create_domain(name.clone());
        let body = call.request.body.unwrap();
        let value: serde_json::Value = serde_json::from_str(&body).unwrap();
        let object = value.as_object().unwrap();
        assert_eq!(object.len(), 1, "{:?}", name);
        assert_eq!(object.get("name").and_then(serde_json::Value::as_str), Some(name.as_str()));
    }
}

#[test]
fn create_domain_body_is_the_name_as_a_json_string_in_an_object() {
    let client = client();
    for name in names() {
        let call = client.domain().create_domain(name.clone());
        let expected = format!("{{\"name\": {}}}", serde_json::to_string(&name).unwrap());
        assert_eq!(call.request.body, Some(expected));
    }
}

#[test]
fn get_domains_gets_the_collection() {
    let client = client();
    let call = client.domain().get_domains();
    expect(call, Operation::GetDomains, Method::Get, "/domains/", None);
}

#[test]
fn get_domain_gets_the_path_of_the_domain() {
    let client = client();
    let call = client.domain().get_domain("example.com");
    expect(call, Operation::GetDomain, Method::Get, "/domains/example.com/", None);
}

#[test]
fn delete_domain_deletes_the_path_of_the_domain() {
    let client = client();
    let call = client.domain().delete_domain("example.com");
    expect(call, Operation::DeleteDomain, Method::Delete, "/domains/example.com/", None);
}

#[test]
fn get_owning_domain_asks_with_a_query() {
    let client = client();
    let call = client.domain().get_owning_domain("www.example.com");
    expect(
        call,
        Operation::GetOwningDomain,
        Method::Get,
        "/domains/?owns_qname=www.example.com",
        None,
    );
}

#[test]
fn get_zonefile_gets_the_zonefile_below_the_domain() {
    let client = client();
    let call = client.domain().get_zonefile("example.com");
    expect(call, Operation::GetZonefile, Method::Get, "/domains/example.com/zonefile/", None);
}

#[test]
fn paths_take_the_name_unescaped() {
    let client = client();
    assert_eq!(client.domain().get_domain("a b/ü?").request.path, "/domains/a b/ü?/");
    assert_eq!(client.domain().get_domain("").request.path, "/domains//");
    assert_eq!(client.domain().delete_domain("").request.path, "/domains//");
    assert_eq!(
        client.domain().get_owning_domain("x&y=z").request.path,
        "/domains/?owns_qname=x&y=z"
    );
    assert_eq!(client.domain().get_owning_domain("").request.path, "/domains/?owns_qname=");
    assert_eq!(client.domain().get_zonefile("").request.path, "/domains//zonefile/");
}

#[test]
fn url_puts_the_path_behind_the_base() {
    let client = client();
    assert_eq!(client.base_url(), "https://dns.example/api/v1");
    assert_eq!(client.url("/domains/"), "https://dns.example/api/v1/domains/");
    let call = client.domain().get_zonefile("example.com");
    assert_eq!(
        client.url(&call.request.path),
        "https://dns.example/api/v1/domains/example.com/zonefile/"
    );
    assert_eq!(client.url(""), "https://dns.example/api/v1");
    assert_eq!(Client::new(String::new()).url("/domains/"), "/domains/");
}

#[test]
fn domain_operations_stay_bound_to_their_client() {
    let client = client();
    let domains = client.domain();
    assert!(std::ptr::eq(domains.client(), &client));
    assert_eq!(domains.client().base_url(), "https://dns.example/api/v1");
}
