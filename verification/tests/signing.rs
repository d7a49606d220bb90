use object_store::azure::{
    MicrosoftAzure, MicrosoftAzureBuilder, DEFAULT_MAX_CONCURRENCY, DEFAULT_MIN_PART_SIZE,
};
use object_store::path::Path;
use object_store::signer::{
    format_u64, hex_string, sign_at, sign_request, AzureCredential, AzureCredentialProvider,
    Method,
};
use object_store::Error;

fn store() -> MicrosoftAzure {
    MicrosoftAzureBuilder::new()
        .with_account("my-account")
        .with_container_name("my-container")
        .with_access_key("my-access-key")
        .build()
        .unwrap()
}

#[test]
fn format_u64_renders_decimal() {
    assert_eq!(format_u64(0), "0");
    assert_eq!(format_u64(7), "7");
    assert_eq!(format_u64(1060), "1060");
    assert_eq!(format_u64(u64::MAX), "18446744073709551615");
}

#[test]
fn hex_string_renders_lower_case_pairs() {
    assert_eq!(hex_string(&vec![]), "");
    assert_eq!(hex_string(&vec![0x00, 0xff, 0xab, 0x01, 0x5f]), "00ffab015f");
}

#[test]
fn sign_at_exact_url() {
    let credential = AzureCredential {
        secret: vec![0xab, 0x01, 0x5f],
    };
    let req = sign_at(
        &"acct".to_string(),
        &"box".to_string(),
        &Path::from("dir/file.txt"),
        Method::Get,
        1060,
        &credential,
    );
    assert_eq!(
        req.url,
        "https://acct.blob.core.windows.net/box/dir/file.txt?se=1060&sp=GET&sig=ab015f"
    );
    assert_eq!(req.expiry, 1060);
    assert_eq!(req.method, Method::Get);
}

#[test]
fn sign_request_converts_relative_expiry_once() {
    let credential = AzureCredential { secret: vec![0x00] };
    let req = sign_request(
        &"a".to_string(),
        &"c".to_string(),
        &Path::from("p"),
        Method::Put,
        1000,
        60,
        &credential,
    )
    .unwrap();
    assert_eq!(req.expiry, 1060);
    assert!(req.url.ends_with("?se=1060&sp=PUT&sig=00"));
    match sign_request(
        &"a".to_string(),
        &"c".to_string(),
        &Path::from("p"),
        Method::Put,
        u64::MAX,
        1,
        &credential,
    ) {
        Err(Error::Signing(_)) => {}
        _ => panic!("an unrepresentable expiry must fail signing"),
    }
}

#[test]
fn signed_url_counts_one_fetch() {
    let mut store = store();
    assert_eq!(store.credentials().fetches, 0);
    let req = store
        .signed_url(Method::Put, &Path::from("some-folder/some-file.txt"), 3600)
        .unwrap();
    assert_eq!(store.credentials().fetches, 1);
    assert!(req.expiry >= 3600);
    assert!(req
        .url
        .starts_with("https://my-account.blob.core.windows.net/my-container/some-folder/some-file.txt?se="));
    assert!(req.url.contains("&sp=PUT&sig="));
}

#[test]
fn signed_urls_one_credential_fetch_in_order() {
    let mut store = store();
    let paths = vec![
        Path::from("a/one"),
        Path::from("b/two"),
        Path::from("c/three"),
    ];
    let urls = store.signed_urls(Method::Get, &paths, 3600).unwrap();
    // credential acquisition happened exactly once for the whole batch
    assert_eq!(store.credentials().fetches, 1);
    // as many URLs as paths, in input order, sharing one expiry
    assert_eq!(urls.len(), 3);
    assert!(urls[0].url.contains("/a/one?"));
    assert!(urls[1].url.contains("/b/two?"));
    assert!(urls[2].url.contains("/c/three?"));
    assert!(urls.windows(2).all(|w| w[0].expiry == w[1].expiry));
    for u in &urls {
        assert!(u.url.starts_with("https://my-account.blob.core.windows.net/my-container/"));
        assert_eq!(u.method, Method::Get);
    }
}

#[test]
fn zero_relative_expiry_always_signs() {
    // With a configured secret, a zero relative expiry cannot overflow the
    // clock reading: success is owed, for the single and the batch call.
    let mut store = store();
    let req = store
        .signed_url(Method::Get, &Path::from("f"), 0)
        .expect("a zero relative expiry must sign");
    assert!(req.url.contains("&sig="));
    let urls = store
        .signed_urls(Method::Get, &vec![Path::from("f"), Path::from("g")], 0)
        .expect("a zero relative expiry must sign the batch");
    assert_eq!(urls.len(), 2);
    assert_eq!(store.credentials().fetches, 2);
}

#[test]
fn credential_failure_is_atomic() {
    let mut store = MicrosoftAzure {
        account: "a".to_string(),
        container: "c".to_string(),
        credentials: AzureCredentialProvider::new(None),
    };
    match store.signed_urls(Method::Get, &vec![Path::from("x")], 60) {
        Err(Error::Credential(_)) => {}
        _ => panic!("a credential failure must abort the whole batch"),
    }
    assert_eq!(store.credentials().fetches, 1);
    match store.signed_url(Method::Get, &Path::from("x"), 60) {
        Err(Error::Credential(_)) => {}
        _ => panic!("a credential failure must fail the single signing too"),
    }
}

#[test]
fn display_string_shows_account_and_container() {
    let store = store();
    assert_eq!(
        store.display_string(),
        "MicrosoftAzure { account: my-account, container: my-container }"
    );
}

#[test]
fn multipart_entry_points() {
    let store = store();
    let location = Path::from("big/object");
    let (id, writer) = store.put_multipart(&location);
    assert_eq!(id, "");
    assert_eq!(writer.min_part_size, DEFAULT_MIN_PART_SIZE);
    assert_eq!(writer.max_concurrency, DEFAULT_MAX_CONCURRENCY);
    assert_eq!(store.create_multipart(&location).unwrap(), "");
    assert!(store.abort_multipart(&location, &String::new()).is_ok());
}

#[test]
fn path_equality_is_structural() {
    assert_eq!(Path::from("a/b"), Path::from("a/b"));
    assert_ne!(Path::from("a/b"), Path::from("a/c"));
    assert_eq!(Path::from("file.txt").as_str(), "file.txt");
}
