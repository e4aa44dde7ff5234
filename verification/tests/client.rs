use apca::Error;
use apca::client::Client;
use apca::http::Method;
use apca::mock::DigitFeed;
use apca::mock::GetFlag;
use apca::mock::GetNotFound;

fn client() -> Client {
    Client::new(
        "https://api.example.com".to_string(),
        b"my-key-id".to_vec(),
        b"my-secret".to_vec(),
    )
    .unwrap()
}

#[test]
fn rejects_an_unparsable_base() {
    let r = Client::new("not a url".to_string(), Vec::new(), Vec::new());
    assert!(matches!(r, Err(Error::InvalidBaseUrl)));
}

#[test]
fn rejects_a_base_that_cannot_carry_a_path() {
    let r = Client::new("data:text/plain,stuff".to_string(), Vec::new(), Vec::new());
    assert!(matches!(r, Err(Error::InvalidBaseUrl)));
}

#[test]
fn request_splices_path_onto_base() {
    let req = client().request::<GetNotFound>(&());
    assert_eq!(req.url, "https://api.example.com/v1/foobarbaz");
    assert!(matches!(req.method, Method::Get));
    assert!(req.body.is_none());
}

#[test]
fn request_replaces_an_existing_path() {
    let c = Client::new(
        "https://api.example.com/old".to_string(),
        b"k".to_vec(),
        b"s".to_vec(),
    )
    .unwrap();
    let req = c.request::<GetFlag>(&());
    assert_eq!(req.url, "https://api.example.com/mock/flag");
}

#[test]
fn request_carries_exactly_the_two_credential_headers() {
    let req = client().request::<GetFlag>(&());
    assert_eq!(req.headers.len(), 2);
    assert_eq!(req.headers[0].name, "APCA-API-KEY-ID");
    assert_eq!(req.headers[0].value, b"my-key-id".to_vec());
    assert_eq!(req.headers[1].name, "APCA-API-SECRET-KEY");
    assert_eq!(req.headers[1].value, b"my-secret".to_vec());
}

#[test]
fn equal_inputs_build_equal_requests() {
    let c = client();
    let first = c.request::<GetNotFound>(&());
    let second = c.request::<GetNotFound>(&());
    assert_eq!(first.url, second.url);
    assert_eq!(first.headers.len(), second.headers.len());
    for (a, b) in first.headers.iter().zip(second.headers.iter()) {
        assert_eq!(a.name, b.name);
        assert_eq!(a.value, b.value);
    }
}

#[test]
fn subscribe_setup_names_the_feed_and_signs_the_handshake() {
    let setup = client().subscribe_setup::<DigitFeed>();
    assert_eq!(setup.url, "https://api.example.com/mock/digits");
    assert_eq!(setup.handshake, b"my-key-idmy-secret".to_vec());
}
