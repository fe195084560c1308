use ipfs_client::api::{
    add, add_with_boundary, get, json_body, key_list, ls, name_publish, object_patch_link, resolve,
    text_body, BodyUse, Dispatch, Key, Method, Request, ADD_TIMEOUT_SECS,
};
use ipfs_client::digest::{sha256_to_cid, ContentHash};
use ipfs_client::error::Error;
use ipfs_client::location::TEXT_LIMIT;
use ipfs_client::multipart::{multipart_begin, Stage};
use ipfs_client::path::{parse_ipfs_path, Prefix};

const LOCAL: Option<&str> = Some("/ip4/127.0.0.1/tcp/5001");

fn hash_of(unit: &str) -> ContentHash {
    sha256_to_cid(&unit.repeat(256)).unwrap()
}

fn get_request(url: String, body_use: BodyUse) -> Request {
    Request {
        method: Method::Get,
        url,
        content_type: None,
        timeout_secs: None,
        body_use,
    }
}

#[test]
fn get_from_local_daemon() {
    let cid = hash_of("00");
    let request = get(&cid, LOCAL).unwrap();
    let url = format!("http://127.0.0.1:5001/api/v0/get?arg=%2Fipfs%2F{}", "1".repeat(256));
    assert_eq!(request, get_request(url, BodyUse::Stream));
}

#[test]
fn get_from_public_gateway() {
    let cid = hash_of("ab");
    let url = format!("https://ipfs.io/{}", cid.to_string());
    assert_eq!(get(&cid, None), Ok(get_request(url.clone(), BodyUse::Stream)));
    assert_eq!(get(&cid, Some("/ip4/127.0.0.1")), Ok(get_request(url, BodyUse::Stream)));
}

#[test]
fn get_stops_at_failure_status() {
    let request = get(&hash_of("00"), LOCAL).unwrap();
    assert_eq!(request.on_dispatch(Dispatch::Answered(404)), Err(Error::IpfsApiResponseError(404)));
    assert_eq!(request.on_dispatch(Dispatch::Answered(500)), Err(Error::IpfsApiResponseError(500)));
    assert_eq!(request.on_dispatch(Dispatch::Answered(199)), Err(Error::IpfsApiResponseError(199)));
    assert_eq!(request.on_dispatch(Dispatch::Answered(300)), Err(Error::IpfsApiResponseError(300)));
    assert_eq!(request.on_dispatch(Dispatch::Answered(0)), Err(Error::IpfsApiResponseError(0)));
}

#[test]
fn get_streams_on_success_status() {
    let request = get(&hash_of("00"), LOCAL).unwrap();
    assert_eq!(request.on_dispatch(Dispatch::Answered(200)), Ok(BodyUse::Stream));
    assert_eq!(request.on_dispatch(Dispatch::Answered(204)), Ok(BodyUse::Stream));
    assert_eq!(request.on_dispatch(Dispatch::Answered(299)), Ok(BodyUse::Stream));
}

#[test]
fn request_that_was_not_sent_fails() {
    let request = get(&hash_of("00"), LOCAL).unwrap();
    assert_eq!(request.on_dispatch(Dispatch::Failed), Err(Error::IpfsApiSendRequestError));
    let upload = add(None, LOCAL).unwrap();
    assert_eq!(upload.request.on_dispatch(Dispatch::Failed), Err(Error::IpfsApiSendRequestError));
}

#[test]
fn resolve_at_local_daemon() {
    let path = parse_ipfs_path(Prefix { path: "QmHash/docs/a b".to_string() }, "ipns").unwrap();
    let request = resolve(&path, LOCAL).unwrap();
    assert_eq!(
        request,
        get_request(
            "http://127.0.0.1:5001/api/v0/resolve?arg=%2Fipns%2FQmHash%2Fdocs%2Fa+b".to_string(),
            BodyUse::Json
        )
    );
}

#[test]
fn resolve_at_public_gateway() {
    let path = parse_ipfs_path(Prefix { path: "QmHash/docs".to_string() }, "ipfs").unwrap();
    assert_eq!(
        resolve(&path, None),
        Ok(get_request("https://ipfs.io/ipfs/QmHash/docs".to_string(), BodyUse::Json))
    );
}

#[test]
fn ls_at_local_daemon() {
    assert_eq!(
        ls("/ipfs/QmDir", LOCAL),
        Ok(get_request(
            "http://127.0.0.1:5001/api/v0/ls?arg=%2Fipfs%2FQmDir".to_string(),
            BodyUse::Json
        ))
    );
}

#[test]
fn ls_needs_the_local_daemon() {
    assert_eq!(ls("/ipfs/QmDir", None), Err(Error::LocalApiUnavailableError));
    assert_eq!(ls("/ipfs/QmDir", Some("/ip4/127.0.0.1")), Err(Error::LocalApiUnavailableError));
}

#[test]
fn object_patch_link_orders_its_arguments() {
    let modify = hash_of("00");
    let name = hash_of("01");
    let add_hash = hash_of("02");
    let request = object_patch_link(&modify, &name, &add_hash, true, LOCAL).unwrap();
    let url = format!(
        "http://127.0.0.1:5001/api/v0/object/patch/add-link?arg={}&arg={}&arg={}&create=true",
        modify.to_string(),
        name.to_string(),
        add_hash.to_string()
    );
    assert_eq!(request, get_request(url, BodyUse::Json));
    let request = object_patch_link(&modify, &name, &add_hash, false, LOCAL).unwrap();
    assert!(request.url.ends_with("&create=false"));
}

#[test]
fn object_patch_link_needs_the_local_daemon() {
    let hash = hash_of("00");
    assert_eq!(
        object_patch_link(&hash, &hash, &hash, true, None),
        Err(Error::LocalApiUnavailableError)
    );
}

#[test]
fn name_publish_at_local_daemon() {
    let cid = hash_of("00");
    let key = Key { name: "my key".to_string(), id: "QmKey".to_string() };
    let url = format!(
        "http://127.0.0.1:5001/api/v0/name/publish?arg=%2Fipfs%2F{}&key=my+key",
        "1".repeat(256)
    );
    assert_eq!(name_publish(&cid, &key, LOCAL), Ok(get_request(url, BodyUse::Text)));
}

#[test]
fn name_publish_at_public_gateway() {
    let cid = hash_of("00");
    let key = Key { name: "self".to_string(), id: "QmKey".to_string() };
    let url = format!("https://ipfs.io/{}", "1".repeat(256));
    assert_eq!(name_publish(&cid, &key, None), Ok(get_request(url, BodyUse::Text)));
}

#[test]
fn name_publish_reads_text_on_success_only() {
    let cid = hash_of("00");
    let key = Key { name: "self".to_string(), id: "QmKey".to_string() };
    let request = name_publish(&cid, &key, LOCAL).unwrap();
    assert_eq!(request.on_dispatch(Dispatch::Answered(200)), Ok(BodyUse::Text));
    assert_eq!(request.on_dispatch(Dispatch::Answered(403)), Err(Error::IpfsApiResponseError(403)));
}

#[test]
fn key_list_at_local_daemon() {
    assert_eq!(
        key_list(LOCAL),
        Ok(get_request("http://127.0.0.1:5001/api/v0/key/list".to_string(), BodyUse::Json))
    );
}

#[test]
fn key_list_needs_the_local_daemon() {
    assert_eq!(key_list(None), Err(Error::LocalApiUnavailableError));
}

#[test]
fn add_plans_a_multipart_post() {
    let mut upload = add(Some(7), LOCAL).unwrap();
    let boundary = upload.encoder.boundary().to_string();
    assert_eq!(boundary.len(), 42);
    assert!(boundary.starts_with("------------------------"));
    assert!(boundary[24..].chars().all(|c| c.is_ascii_alphanumeric()));
    assert_eq!(
        upload.request,
        Request {
            method: Method::Post,
            url: "http://127.0.0.1:5001/api/v0/add".to_string(),
            content_type: Some(format!("multipart/form-data; boundary={}", boundary)),
            timeout_secs: Some(600),
            body_use: BodyUse::Json,
        }
    );
    assert_eq!(ADD_TIMEOUT_SECS, 600);
    assert_eq!(upload.encoder.stage(), Stage::Start);
    assert_eq!(upload.encoder.begin(), Some(multipart_begin(Some(7), &boundary).into_bytes()));
}

#[test]
fn add_with_given_boundary() {
    let upload = add_with_boundary(None, LOCAL, "B").unwrap();
    assert_eq!(upload.request.content_type, Some("multipart/form-data; boundary=B".to_string()));
    assert_eq!(upload.request.url, "http://127.0.0.1:5001/api/v0/add");
    assert_eq!(upload.encoder.boundary(), "B");
}

#[test]
fn add_needs_the_local_daemon() {
    assert!(matches!(add(None, None), Err(Error::LocalApiUnavailableError)));
    assert!(matches!(add(Some(1), Some("/tcp/5001")), Err(Error::LocalApiUnavailableError)));
    assert!(matches!(add_with_boundary(None, None, "B"), Err(Error::LocalApiUnavailableError)));
}

#[test]
fn add_stops_at_failure_status() {
    let upload = add(None, LOCAL).unwrap();
    assert_eq!(upload.request.on_dispatch(Dispatch::Answered(200)), Ok(BodyUse::Json));
    assert_eq!(upload.request.on_dispatch(Dispatch::Answered(299)), Ok(BodyUse::Json));
    assert_eq!(
        upload.request.on_dispatch(Dispatch::Answered(500)),
        Err(Error::IpfsApiResponseError(500))
    );
    assert_eq!(
        upload.request.on_dispatch(Dispatch::Answered(404)),
        Err(Error::IpfsApiResponseError(404))
    );
    let upload = add_with_boundary(Some(3), LOCAL, "B").unwrap();
    assert_eq!(
        upload.request.on_dispatch(Dispatch::Answered(300)),
        Err(Error::IpfsApiResponseError(300))
    );
}

#[test]
fn text_of_body_with_invalid_bytes() {
    assert_eq!(text_body(Some(b"ok \xff\xfe end".to_vec())), Ok("ok \u{fffd}\u{fffd} end".to_string()));
    assert_eq!(text_body(Some(vec![0x80])), Ok("\u{fffd}".to_string()));
    assert_eq!(text_body(Some(vec![0xe2, 0x82])), Ok("\u{fffd}".to_string()));
}

#[test]
fn text_of_body_with_valid_bytes() {
    assert_eq!(text_body(Some("Published to Qm: /ipfs/Qm€".as_bytes().to_vec())), Ok("Published to Qm: /ipfs/Qm€".to_string()));
    assert_eq!(text_body(Some(vec![])), Ok(String::new()));
}

#[test]
fn body_that_could_not_be_read() {
    assert_eq!(text_body(None), Err(Error::IpfsApiPayloadError));
}

#[test]
fn body_that_is_not_the_expected_json() {
    assert_eq!(json_body::<u32>(None), Err(Error::IpfsApiJsonPayloadError));
    assert_eq!(json_body(Some(5u32)), Ok(5));
}

#[test]
fn status_of_an_error() {
    assert_eq!(Error::IpfsApiResponseError(404).status(), Some(404));
    assert_eq!(Error::HashError.status(), None);
    assert_eq!(Error::EntropyUnavailableError.status(), None);
}

#[test]
fn timeout_is_set_by_the_caller() {
    let request = key_list(LOCAL).unwrap();
    assert_eq!(request.timeout_secs, None);
    let request = request.with_timeout(30);
    assert_eq!(
        request,
        Request {
            method: Method::Get,
            url: "http://127.0.0.1:5001/api/v0/key/list".to_string(),
            content_type: None,
            timeout_secs: Some(30),
                body_use: BodyUse::Json,
        }
    );
}

#[test]
fn every_operation_stops_at_failure_status() {
    let hash = hash_of("00");
    let key = Key { name: "self".to_string(), id: "QmKey".to_string() };
    let path = parse_ipfs_path(Prefix { path: "QmHash".to_string() }, "ipfs").unwrap();
    let requests = vec![
        get(&hash, LOCAL).unwrap(),
        resolve(&path, LOCAL).unwrap(),
        ls("/ipfs/QmDir", LOCAL).unwrap(),
        object_patch_link(&hash, &hash, &hash, true, LOCAL).unwrap(),
        name_publish(&hash, &key, LOCAL).unwrap(),
        key_list(LOCAL).unwrap(),
        add(None, LOCAL).unwrap().request,
    ];
    for request in requests {
        assert_eq!(request.on_dispatch(Dispatch::Answered(503)), Err(Error::IpfsApiResponseError(503)));
        assert_eq!(request.on_dispatch(Dispatch::Answered(201)), Ok(request.body_use));
    }
}

#[test]
fn argument_beyond_the_limit_gives_a_url_error() {
    let long = "a".repeat(TEXT_LIMIT + 1);
    assert_eq!(ls(&long, LOCAL), Err(Error::IpfsApiUrlError));
    let key = Key { name: long.clone(), id: "QmKey".to_string() };
    assert_eq!(name_publish(&hash_of("00"), &key, LOCAL), Err(Error::IpfsApiUrlError));
    assert_eq!(ls(&long, None), Err(Error::LocalApiUnavailableError));
}

#[test]
fn argument_at_the_limit_is_taken() {
    let long = "a".repeat(TEXT_LIMIT);
    let request = ls(&long, LOCAL).unwrap();
    assert_eq!(request.url.len(), "http://127.0.0.1:5001/api/v0/ls?arg=".len() + TEXT_LIMIT);
}
