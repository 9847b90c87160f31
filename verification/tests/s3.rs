use cargo_registry::s3::{authorization, Bucket, Method};

const SECRET: &str = "wJalrXUtnFEMI/K7MDENG/bPxRfiCYEXAMPLEKEY";

fn johnsmith() -> Bucket {
    Bucket::new(
        "johnsmith".to_string(),
        "SECRET-REDACTED".to_string(),
        SECRET.to_string(),
        "https",
    )
}

#[test]
fn host_is_virtual_hosted_name() {
    assert_eq!(johnsmith().host(), "johnsmith.s3.amazonaws.com");
}

#[test]
fn auth_matches_the_documented_example() {
    let auth = johnsmith()
        .auth("GET", "Tue, 27 Mar 2007 19:36:42 +0000", "photos/puppy.jpg", "", "")
        .unwrap();
    assert_eq!(auth, "AWS SECRET-REDACTED:bWq2s1WEIj+Ydj0vQ697zp+IXMU=");
}

#[test]
fn put_request_is_signed_and_addressed() {
    let req = johnsmith()
        .put("/photos/puppy.jpg", "image/jpeg", "Tue, 27 Mar 2007 21:15:45 +0000")
        .unwrap();
    assert_eq!(req.method, Method::Put);
    assert_eq!(req.url, "https://johnsmith.s3.amazonaws.com/photos/puppy.jpg");
    assert_eq!(req.host, "johnsmith.s3.amazonaws.com");
    assert_eq!(req.date, "Tue, 27 Mar 2007 21:15:45 +0000");
    assert_eq!(req.authorization, "AWS SECRET-REDACTED:MyyxeRY7whkBe+bq8fHCL/2kKUg=");
    assert_eq!(req.content_type, Some("image/jpeg".to_string()));
}

#[test]
fn delete_request_is_signed_and_addressed() {
    let req = johnsmith()
        .delete("photos/puppy.jpg", "Tue, 27 Mar 2007 21:20:26 +0000")
        .unwrap();
    assert_eq!(req.method, Method::Delete);
    assert_eq!(req.url, "https://johnsmith.s3.amazonaws.com/photos/puppy.jpg");
    assert_eq!(req.authorization, "AWS SECRET-REDACTED:lx3byBScXR6KzyMaifNkardMwNk=");
    assert_eq!(req.content_type, None);
}

#[test]
fn leading_slash_gives_the_same_request() {
    let b = johnsmith();
    let with = b.put("/a/b.txt", "text/plain", "d").unwrap();
    let without = b.put("a/b.txt", "text/plain", "d").unwrap();
    assert_eq!(with.url, without.url);
    assert_eq!(with.authorization, without.authorization);
    let with = b.delete("/a/b.txt", "d").unwrap();
    let without = b.delete("a/b.txt", "d").unwrap();
    assert_eq!(with.url, without.url);
    assert_eq!(with.authorization, without.authorization);
}

#[test]
fn only_one_leading_slash_is_removed() {
    let req = johnsmith().delete("//x", "d").unwrap();
    assert_eq!(req.url, "https://johnsmith.s3.amazonaws.com//x");
}

#[test]
fn empty_path_addresses_the_bucket() {
    let b = Bucket::new("b".to_string(), "k".to_string(), "secret".to_string(), "http");
    let req = b.put("", "text/plain", "d").unwrap();
    assert_eq!(req.url, "http://b.s3.amazonaws.com/");
    assert_eq!(req.authorization, "AWS k:Laz02q0rI56oNj+yZue7yXvLJ8w=");
}

#[test]
fn authorization_pads_base64() {
    assert_eq!(authorization("k", b""), "AWS k:");
    assert_eq!(authorization("k", b"M"), "AWS k:TQ==");
    assert_eq!(authorization("k", b"Ma"), "AWS k:TWE=");
    assert_eq!(authorization("k", b"Man"), "AWS k:TWFu");
    assert_eq!(authorization("k", &[0xfb, 0xff]), "AWS k:+/8=");
}

#[test]
fn signed_request_carries_the_given_authorization() {
    let req = johnsmith().signed_request(
        Method::Put,
        "/photos/puppy.jpg",
        Some("image/jpeg"),
        "d",
        "AWS k:sig".to_string(),
    );
    assert_eq!(req.method, Method::Put);
    assert_eq!(req.url, "https://johnsmith.s3.amazonaws.com/photos/puppy.jpg");
    assert_eq!(req.host, "johnsmith.s3.amazonaws.com");
    assert_eq!(req.date, "d");
    assert_eq!(req.authorization, "AWS k:sig");
    assert_eq!(req.content_type, Some("image/jpeg".to_string()));
    let del = johnsmith().signed_request(Method::Delete, "x", None, "d", "a".to_string());
    assert_eq!(del.url, "https://johnsmith.s3.amazonaws.com/x");
    assert_eq!(del.content_type, None);
}

#[test]
fn signature_ignores_protocol() {
    let http = Bucket::new("johnsmith".to_string(), "SECRET-REDACTED".to_string(), SECRET.to_string(), "http");
    let a = http.auth("PUT", "d", "p", "", "text/plain").unwrap();
    let b = johnsmith().auth("PUT", "d", "p", "", "text/plain").unwrap();
    assert_eq!(a, b);
    assert_eq!(a, johnsmith().auth("PUT", "d", "p", "", "text/plain").unwrap());
}

#[test]
fn put_and_delete_share_address() {
    let b = johnsmith();
    let put = b.put("/a/b", "text/plain", "d").unwrap();
    let del = b.delete("a/b", "d").unwrap();
    assert_eq!(put.url, del.url);
    assert_eq!(put.host, del.host);
    assert_eq!(put.date, del.date);
}

#[test]
fn signature_is_28_base64_characters() {
    let b = johnsmith();
    let h = b.auth("DELETE", "d", "x", "", "").unwrap();
    assert_eq!(h.len(), "SECRET-REDACTED".len() + 33);
    assert!(h.ends_with('='));
    let req = b.put("x", "text/plain", "d").unwrap();
    assert_eq!(req.authorization.len(), "SECRET-REDACTED".len() + 33);
    assert!(req.authorization.ends_with('='));
}
