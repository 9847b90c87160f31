use rustc_serialize::base64::ToBase64;
use vstd::prelude::*;
use vstd::utf8::encode_utf8;

verus! {

/// The abstract contents of a [`Bucket`]: its name, its credentials and the
/// protocol used to reach it.
pub struct BucketView {
    pub name: Seq<char>,
    pub access_key: Seq<char>,
    pub secret_key: Seq<char>,
    pub proto: Seq<char>,
}

/// An Amazon S3 bucket together with the credentials that sign requests to it.
pub struct Bucket {
    name: String,
    access_key: String,
    secret_key: String,
    proto: String,
}

impl View for Bucket {
    type V = BucketView;

    closed spec fn view(&self) -> BucketView {
        BucketView {
            name: self.name@,
            access_key: self.access_key@,
            secret_key: self.secret_key@,
            proto: self.proto@,
        }
    }
}

/// The host name under which S3 serves the bucket called `name`.
pub open spec fn host_for(name: Seq<char>) -> Seq<char> {
    name + ".s3.amazonaws.com"@
}

/// The character that standard base64 (RFC 4648, `+` and `/` as the last two
/// symbols) uses for the six-bit value `v`.
pub open spec fn base64_char(v: int) -> char {
    if v < 26 {
        (65 + v) as char
    } else if v < 52 {
        (97 + (v - 26)) as char
    } else if v < 62 {
        (48 + (v - 52)) as char
    } else if v == 62 {
        '+'
    } else {
        '/'
    }
}

/// Standard base64 with `=` padding and no line breaks: each group of three
/// bytes becomes four characters, and a last group of one or two bytes is
/// padded to four characters with `=`.
pub open spec fn base64_standard(b: Seq<u8>) -> Seq<char>
    decreases b.len(),
{
    if b.len() == 0 {
        seq![]
    } else if b.len() == 1 {
        seq![base64_char(b[0] as int / 4), base64_char((b[0] as int % 4) * 16), '=', '=']
    } else if b.len() == 2 {
        seq![
            base64_char(b[0] as int / 4),
            base64_char((b[0] as int % 4) * 16 + b[1] as int / 16),
            base64_char((b[1] as int % 16) * 4),
            '=',
        ]
    } else {
        seq![
            base64_char(b[0] as int / 4),
            base64_char((b[0] as int % 4) * 16 + b[1] as int / 16),
            base64_char((b[1] as int % 16) * 4 + b[2] as int / 64),
            base64_char(b[2] as int % 64),
        ] + base64_standard(b.skip(3))
    }
}

/// The HMAC-SHA1 tag (RFC 2104) of `message` under `key`, as OpenSSL computes it.
pub uninterp spec fn hmac_sha1(key: Seq<u8>, message: Seq<u8>) -> Seq<u8>;

#[verifier::external_type_specification]
#[verifier::external_body]
pub struct ExErrorStack(openssl::error::ErrorStack);

/// Calls OpenSSL's HMAC through `openssl::pkey::PKey::hmac` and
/// `openssl::sign::Signer` with the SHA1 digest. Claimed: a successful call
/// returns the HMAC-SHA1 tag of `message` under `key`, which is 20 bytes long,
/// the output length of SHA1 (RFC 2104 gives HMAC the length of its hash's
/// output). `PKey::hmac` asserts
/// that the key is no longer than `c_int::MAX`, hence the `requires`. When
/// OpenSSL reports a failure, nothing is claimed beyond the error it gives.
#[verifier::external_body]
fn hmac_sha1_sign(key: &[u8], message: &[u8]) -> (mac: Result<Vec<u8>, openssl::error::ErrorStack>)
    requires
        key@.len() <= i32::MAX,
    ensures
        mac matches Ok(m) ==> m@ == hmac_sha1(key@, message@) && m@.len() == 20,
{
    let pkey = openssl::pkey::PKey::hmac(key)?;
    let mut signer = openssl::sign::Signer::new(openssl::hash::MessageDigest::sha1(), &pkey)?;
    signer.sign_oneshot_to_vec(message)
}

/// Calls `rustc_serialize::base64::ToBase64::to_base64` with the `STANDARD`
/// configuration (standard alphabet, `=` padding, no line length). Claimed: the
/// result is the standard base64 text of `bytes`.
#[verifier::external_body]
fn base64_encode(bytes: &[u8]) -> (text: String)
    ensures
        text@ == base64_standard(bytes@),
{
    bytes.to_base64(rustc_serialize::base64::STANDARD)
}

/// Why a request to S3 could not be prepared.
#[derive(Debug)]
pub enum S3Error {
    /// OpenSSL failed while computing the request signature.
    Signing(openssl::error::ErrorStack),
}

/// The HTTP methods the bucket issues.
#[derive(Clone, Copy, Debug, PartialEq, Eq)]
pub enum Method {
    Put,
    Delete,
}

/// The abstract contents of an [`S3Request`].
pub struct S3RequestView {
    pub method: Method,
    pub url: Seq<char>,
    pub host: Seq<char>,
    pub date: Seq<char>,
    pub authorization: Seq<char>,
    pub content_type: Option<Seq<char>>,
}

/// An S3 request ready to be sent: its method, URL and the values of its
/// `Host`, `Date`, `Authorization` and (for uploads) `Content-Type` headers.
pub struct S3Request {
    pub method: Method,
    pub url: String,
    pub host: String,
    pub date: String,
    pub authorization: String,
    pub content_type: Option<String>,
}

impl View for S3Request {
    type V = S3RequestView;

    open spec fn view(&self) -> S3RequestView {
        S3RequestView {
            method: self.method,
            url: self.url@,
            host: self.host@,
            date: self.date@,
            authorization: self.authorization@,
            content_type: match self.content_type {
                Some(t) => Some(t@),
                None => None,
            },
        }
    }
}

/// `path` with one leading `/` removed, if it has one.
pub open spec fn without_leading_slash(path: Seq<char>) -> Seq<char> {
    if path.len() > 0 && path[0] == '/' {
        path.skip(1)
    } else {
        path
    }
}

/// The text that S3's signature version 2 signs: verb, content MD5, content
/// type and date, each on a line of its own, then the resource
/// `/{bucket}/{path}` (no canonicalized `x-amz-` headers).
pub open spec fn string_to_sign(
    verb: Seq<char>,
    md5: Seq<char>,
    content_type: Seq<char>,
    date: Seq<char>,
    bucket: Seq<char>,
    path: Seq<char>,
) -> Seq<char> {
    verb + "\n"@ + md5 + "\n"@ + content_type + "\n"@ + date + "\n"@ + "/"@ + bucket + "/"@ + path
}

/// The value of the `Authorization` header for an access key and the
/// HMAC-SHA1 tag of the signed text.
pub open spec fn authorization_for(access_key: Seq<char>, mac: Seq<u8>) -> Seq<char> {
    "AWS "@ + access_key + ":"@ + base64_standard(mac)
}

/// The `Authorization` header that the bucket's credentials give to a request.
pub open spec fn signed_authorization(
    b: BucketView,
    verb: Seq<char>,
    date: Seq<char>,
    path: Seq<char>,
    md5: Seq<char>,
    content_type: Seq<char>,
) -> Seq<char> {
    authorization_for(
        b.access_key,
        hmac_sha1(
            encode_utf8(b.secret_key),
            encode_utf8(string_to_sign(verb, md5, content_type, date, b.name, path)),
        ),
    )
}

/// Whether OpenSSL accepts the bucket's secret key as an HMAC key.
pub open spec fn signable(b: BucketView) -> bool {
    encode_utf8(b.secret_key).len() <= i32::MAX
}

/// The request for `method` on `path`, carrying the `Authorization` header
/// `authorization`: addressed to the bucket's host at the path without a
/// leading `/`.
pub open spec fn addressed_request(
    b: BucketView,
    method: Method,
    path: Seq<char>,
    content_type: Option<Seq<char>>,
    date: Seq<char>,
    authorization: Seq<char>,
) -> S3RequestView {
    S3RequestView {
        method,
        url: b.proto + "://"@ + host_for(b.name) + "/"@ + without_leading_slash(path),
        host: host_for(b.name),
        date,
        authorization,
        content_type,
    }
}

/// The verb that S3 signs for `method`.
pub open spec fn verb_of(method: Method) -> Seq<char> {
    match method {
        Method::Put => "PUT"@,
        Method::Delete => "DELETE"@,
    }
}

/// The request that the bucket sends for `method` on `path`, signed with its
/// credentials.
pub open spec fn request_for(
    b: BucketView,
    method: Method,
    path: Seq<char>,
    content_type: Option<Seq<char>>,
    date: Seq<char>,
) -> S3RequestView {
    let ty = match content_type {
        Some(t) => t,
        None => ""@,
    };
    addressed_request(
        b,
        method,
        path,
        content_type,
        date,
        signed_authorization(b, verb_of(method), date, without_leading_slash(path), ""@, ty),
    )
}

/// A path and the same path with a `/` put in front of it give the same
/// request: the bucket addresses and signs both as the path without it.
pub proof fn lemma_leading_slash_ignored(
    b: BucketView,
    method: Method,
    path: Seq<char>,
    content_type: Option<Seq<char>>,
    date: Seq<char>,
)
    requires
        path.len() == 0 || path[0] != '/',
    ensures
        request_for(b, method, "/"@ + path, content_type, date) == request_for(
            b,
            method,
            path,
            content_type,
            date,
        ),
{
    reveal_strlit("/");
    assert(without_leading_slash("/"@ + path) =~= path);
}

/// The signature depends on the bucket's name and credentials and not on the
/// protocol used to reach it.
pub proof fn lemma_signature_ignores_protocol(
    b1: BucketView,
    b2: BucketView,
    verb: Seq<char>,
    date: Seq<char>,
    path: Seq<char>,
    md5: Seq<char>,
    content_type: Seq<char>,
)
    requires
        b1.name == b2.name,
        b1.access_key == b2.access_key,
        b1.secret_key == b2.secret_key,
    ensures
        signed_authorization(b1, verb, date, path, md5, content_type) == signed_authorization(
            b2,
            verb,
            date,
            path,
            md5,
            content_type,
        ),
{
}

/// The signed text is the verb, the content MD5, the content type and the
/// date, each followed by a line break, then `/`, the bucket, `/` and the path.
pub proof fn lemma_string_to_sign_lines(
    verb: Seq<char>,
    md5: Seq<char>,
    content_type: Seq<char>,
    date: Seq<char>,
    bucket: Seq<char>,
    path: Seq<char>,
)
    ensures
        string_to_sign(verb, md5, content_type, date, bucket, path) == verb + seq!['\n'] + md5
            + seq!['\n'] + content_type + seq!['\n'] + date + seq!['\n', '/'] + bucket + seq!['/']
            + path,
{
    reveal_strlit("\n");
    reveal_strlit("/");
    assert(string_to_sign(verb, md5, content_type, date, bucket, path) =~= verb + seq!['\n'] + md5
        + seq!['\n'] + content_type + seq!['\n'] + date + seq!['\n', '/'] + bucket + seq!['/']
        + path);
}

/// The content MD5 is part of what is signed: with everything else the same,
/// two MD5 values give the same signed text only when they are equal.
pub proof fn lemma_string_to_sign_md5(
    verb: Seq<char>,
    md5_1: Seq<char>,
    md5_2: Seq<char>,
    content_type: Seq<char>,
    date: Seq<char>,
    bucket: Seq<char>,
    path: Seq<char>,
)
    requires
        string_to_sign(verb, md5_1, content_type, date, bucket, path) == string_to_sign(
            verb,
            md5_2,
            content_type,
            date,
            bucket,
            path,
        ),
    ensures
        md5_1 == md5_2,
{
    lemma_string_to_sign_lines(verb, md5_1, content_type, date, bucket, path);
    lemma_string_to_sign_lines(verb, md5_2, content_type, date, bucket, path);
    let rest = seq!['\n'] + content_type + seq!['\n'] + date + seq!['\n', '/'] + bucket + seq![
        '/',
    ] + path;
    let t1 = verb + seq!['\n'] + md5_1 + rest;
    let t2 = verb + seq!['\n'] + md5_2 + rest;
    assert(t1 =~= string_to_sign(verb, md5_1, content_type, date, bucket, path));
    assert(t2 =~= string_to_sign(verb, md5_2, content_type, date, bucket, path));
    assert(md5_1.len() == md5_2.len());
    let start: int = verb.len() as int + 1;
    let end: int = start + md5_1.len() as int;
    assert(md5_1 =~= t1.subrange(start, end));
    assert(md5_2 =~= t2.subrange(start, end));
}

/// The `Authorization` header is `AWS `, the access key, `:` and the base64 of
/// the HMAC-SHA1 tag, under the secret key, of the text whose lines are the
/// verb, the content MD5, the content type and the date, followed by
/// `/{bucket}/{path}`.
pub proof fn lemma_signed_authorization(
    b: BucketView,
    verb: Seq<char>,
    date: Seq<char>,
    path: Seq<char>,
    md5: Seq<char>,
    content_type: Seq<char>,
)
    ensures
        signed_authorization(b, verb, date, path, md5, content_type) == seq!['A', 'W', 'S', ' ']
            + b.access_key + seq![':'] + base64_standard(
            hmac_sha1(
                encode_utf8(b.secret_key),
                encode_utf8(
                    verb + seq!['\n'] + md5 + seq!['\n'] + content_type + seq!['\n'] + date + seq![
                        '\n',
                        '/',
                    ] + b.name + seq!['/'] + path,
                ),
            ),
        ),
{
    reveal_strlit("AWS ");
    reveal_strlit(":");
    lemma_string_to_sign_lines(verb, md5, content_type, date, b.name, path);
    assert(signed_authorization(b, verb, date, path, md5, content_type) =~= seq!['A', 'W', 'S', ' ']
        + b.access_key + seq![':'] + base64_standard(
        hmac_sha1(
            encode_utf8(b.secret_key),
            encode_utf8(string_to_sign(verb, md5, content_type, date, b.name, path)),
        ),
    ));
}

/// One leading `/` is taken off a path, and nothing else changes: the path is
/// the result, or `/` followed by the result when the path begins with `/`.
pub proof fn lemma_without_leading_slash(path: Seq<char>)
    ensures
        (path.len() > 0 && path[0] == '/') ==> seq!['/'] + without_leading_slash(path) == path,
        !(path.len() > 0 && path[0] == '/') ==> without_leading_slash(path) == path,
{
    if path.len() > 0 && path[0] == '/' {
        assert(seq!['/'] + without_leading_slash(path) =~= path);
    }
}

/// A request addresses the object key it signs: its URL is the protocol,
/// `://`, the bucket's S3 host, `/` and the key; the key is the path as given
/// less one leading `/`; and the `Authorization` header signs the resource
/// `/{bucket}/{key}` with that same key.
pub proof fn lemma_request_addresses_signed_key(
    b: BucketView,
    method: Method,
    path: Seq<char>,
    content_type: Option<Seq<char>>,
    date: Seq<char>,
)
    ensures
        ({
            let r = request_for(b, method, path, content_type, date);
            let prefix = b.proto + seq![':', '/', '/'] + b.name + ".s3.amazonaws.com"@ + seq!['/'];
            let key = r.url.skip(prefix.len() as int);
            let verb = match method {
                Method::Put => seq!['P', 'U', 'T'],
                Method::Delete => seq!['D', 'E', 'L', 'E', 'T', 'E'],
            };
            let ty = match content_type {
                Some(t) => t,
                None => Seq::<char>::empty(),
            };
            &&& r.url == prefix + key
            &&& (path.len() > 0 && path[0] == '/') ==> seq!['/'] + key == path
            &&& !(path.len() > 0 && path[0] == '/') ==> key == path
            &&& r.host == b.name + ".s3.amazonaws.com"@
            &&& r.authorization == seq!['A', 'W', 'S', ' '] + b.access_key + seq![':']
                + base64_standard(
                hmac_sha1(
                    encode_utf8(b.secret_key),
                    encode_utf8(
                        verb + seq!['\n', '\n'] + ty + seq!['\n'] + date + seq!['\n', '/'] + b.name
                            + seq!['/'] + key,
                    ),
                ),
            )
        }),
{
    reveal_strlit("://");
    reveal_strlit("/");
    reveal_strlit("\n");
    reveal_strlit("");
    reveal_strlit("AWS ");
    reveal_strlit(":");
    reveal_strlit("PUT");
    reveal_strlit("DELETE");
    let r = request_for(b, method, path, content_type, date);
    let p = without_leading_slash(path);
    let prefix = b.proto + seq![':', '/', '/'] + b.name + ".s3.amazonaws.com"@ + seq!['/'];
    assert(r.url =~= prefix + p);
    assert(r.url.skip(prefix.len() as int) =~= p);
    lemma_without_leading_slash(path);
    let ty = match content_type {
        Some(t) => t,
        None => Seq::<char>::empty(),
    };
    lemma_string_to_sign_lines(verb_of(method), ""@, ty, date, b.name, p);
    let verb = match method {
        Method::Put => seq!['P', 'U', 'T'],
        Method::Delete => seq!['D', 'E', 'L', 'E', 'T', 'E'],
    };
    assert(verb_of(method) =~= verb);
    assert(string_to_sign(verb_of(method), ""@, ty, date, b.name, p) =~= verb + seq!['\n', '\n']
        + ty + seq!['\n'] + date + seq!['\n', '/'] + b.name + seq!['/'] + p);
    assert(r.authorization =~= seq!['A', 'W', 'S', ' '] + b.access_key + seq![':'] + base64_standard(
        hmac_sha1(
            encode_utf8(b.secret_key),
            encode_utf8(
                verb + seq!['\n', '\n'] + ty + seq!['\n'] + date + seq!['\n', '/'] + b.name + seq!['/']
                    + p,
            ),
        ),
    ));
}

/// An upload and a deletion of the same path at the same date go to the same
/// URL and host and carry the same date.
pub proof fn lemma_put_delete_same_address(
    b: BucketView,
    path: Seq<char>,
    content_type: Seq<char>,
    date: Seq<char>,
)
    ensures
        request_for(b, Method::Put, path, Some(content_type), date).url == request_for(
            b,
            Method::Delete,
            path,
            None,
            date,
        ).url,
        request_for(b, Method::Put, path, Some(content_type), date).host == request_for(
            b,
            Method::Delete,
            path,
            None,
            date,
        ).host,
        request_for(b, Method::Put, path, Some(content_type), date).date == request_for(
            b,
            Method::Delete,
            path,
            None,
            date,
        ).date,
{
}

/// Standard base64 writes four characters for each started group of three
/// bytes, and ends in `=` where the last group is short.
pub proof fn lemma_base64_shape(b: Seq<u8>)
    ensures
        base64_standard(b).len() == 4 * ((b.len() + 2) / 3),
        b.len() % 3 != 0 ==> base64_standard(b).last() == '=',
    decreases b.len(),
{
    if b.len() >= 3 {
        let rest = b.skip(3);
        lemma_base64_shape(rest);
        assert(rest.len() == b.len() - 3);
    }
}

/// The header that a 20-byte HMAC-SHA1 tag gives: `AWS `, the access key, `:`
/// and 28 base64 characters, the last of them `=`.
pub open spec fn sha1_header_shape(header: Seq<char>, access_key: Seq<char>) -> bool {
    &&& header.len() == access_key.len() + 33
    &&& header.last() == '='
}

/// A 20-byte tag makes a header of the SHA1 shape.
pub proof fn lemma_sha1_header_shape(access_key: Seq<char>, mac: Seq<u8>)
    requires
        mac.len() == 20,
    ensures
        sha1_header_shape(authorization_for(access_key, mac), access_key),
{
    reveal_strlit("AWS ");
    reveal_strlit(":");
    lemma_base64_shape(mac);
    let h = authorization_for(access_key, mac);
    assert(h.last() == base64_standard(mac).last());
}

/// The value of the `Authorization` header for `access_key` and the tag `mac`.
pub fn authorization(access_key: &str, mac: &[u8]) -> (header: String)
    ensures
        header@ == authorization_for(access_key@, mac@),
{
    let mut header = String::from_str("AWS ");
    header.append(access_key);
    header.append(":");
    let signature = base64_encode(mac);
    header.append(signature.as_str());
    header
}

fn strip_leading_slash(path: &str) -> (p: &str)
    ensures
        p@ == without_leading_slash(path@),
{
    let n = path.unicode_len();
    if n > 0 && path.get_char(0) == '/' {
        path.substring_char(1, n)
    } else {
        path
    }
}

impl Bucket {
    pub fn new(name: String, access_key: String, secret_key: String, proto: &str) -> (b: Bucket)
        ensures
            b@ == (BucketView {
                name: name@,
                access_key: access_key@,
                secret_key: secret_key@,
                proto: proto@,
            }),
    {
        Bucket { name, access_key, secret_key, proto: proto.to_owned() }
    }

    /// The virtual-hosted name of the bucket.
    pub fn host(&self) -> (h: String)
        ensures
            h@ == host_for(self@.name),
    {
        let mut h = self.name.clone();
        h.append(".s3.amazonaws.com");
        h
    }

    /// Whether the secret key is short enough for OpenSSL to take as an HMAC
    /// key, which `auth`, `put` and `delete` need.
    pub fn is_signable(&self) -> (b: bool)
        ensures
            b == signable(self@),
    {
        self.secret_key.as_str().as_bytes().len() <= 2147483647
    }

    /// Signs a request with the bucket's credentials: the `Authorization`
    /// header value `AWS {access_key}:{signature}`.
    pub fn auth(&self, verb: &str, date: &str, path: &str, md5: &str, content_type: &str) -> (r:
        Result<String, S3Error>)
        requires
            signable(self@),
        ensures
            r matches Ok(h) ==> h@ == signed_authorization(
                self@,
                verb@,
                date@,
                path@,
                md5@,
                content_type@,
            ) && sha1_header_shape(h@, self@.access_key),
    {
        let mut text = String::from_str(verb);
        text.append("\n");
        text.append(md5);
        text.append("\n");
        text.append(content_type);
        text.append("\n");
        text.append(date);
        text.append("\n");
        text.append("/");
        text.append(self.name.as_str());
        text.append("/");
        text.append(path);
        match hmac_sha1_sign(self.secret_key.as_str().as_bytes(), text.as_str().as_bytes()) {
            Ok(mac) => {
                proof {
                    lemma_sha1_header_shape(self.access_key@, mac@);
                }
                Ok(authorization(self.access_key.as_str(), mac.as_slice()))
            },
            Err(e) => Err(S3Error::Signing(e)),
        }
    }

    /// The request for `method` on `path`, given the value of its
    /// `Authorization` header.
    pub fn signed_request(
        &self,
        method: Method,
        path: &str,
        content_type: Option<&str>,
        date: &str,
        authorization: String,
    ) -> (req: S3Request)
        ensures
            req@ == addressed_request(
                self@,
                method,
                path@,
                match content_type {
                    Some(t) => Some(t@),
                    None => None,
                },
                date@,
                authorization@,
            ),
    {
        let path = strip_leading_slash(path);
        let host = self.host();
        let mut url = self.proto.clone();
        url.append("://");
        url.append(host.as_str());
        url.append("/");
        url.append(path);
        S3Request {
            method,
            url,
            host,
            date: String::from_str(date),
            authorization,
            content_type: match content_type {
                Some(t) => Some(String::from_str(t)),
                None => None,
            },
        }
    }

    fn request(&self, method: Method, path: &str, content_type: Option<&str>, date: &str) -> (r:
        Result<S3Request, S3Error>)
        requires
            signable(self@),
        ensures
            r matches Ok(req) ==> req@ == request_for(
                self@,
                method,
                path@,
                match content_type {
                    Some(t) => Some(t@),
                    None => None,
                },
                date@,
            ) && sha1_header_shape(req.authorization@, self@.access_key),
    {
        let stripped = strip_leading_slash(path);
        let verb = match method {
            Method::Put => "PUT",
            Method::Delete => "DELETE",
        };
        let ty = match content_type {
            Some(t) => t,
            None => "",
        };
        match self.auth(verb, date, stripped, "", ty) {
            Ok(authorization) => Ok(self.signed_request(method, path, content_type, date, authorization)),
            Err(e) => Err(e),
        }
    }

    /// The upload of an object to `path` with the given content type, signed
    /// for the HTTP `date`. A leading `/` of `path` is ignored.
    pub fn put(&self, path: &str, content_type: &str, date: &str) -> (r: Result<S3Request, S3Error>)
        requires
            signable(self@),
        ensures
            r matches Ok(req) ==> req@ == request_for(
                self@,
                Method::Put,
                path@,
                Some(content_type@),
                date@,
            ) && sha1_header_shape(req.authorization@, self@.access_key),
    {
        self.request(Method::Put, path, Some(content_type), date)
    }

    /// The deletion of the object at `path`, signed for the HTTP `date`. A
    /// leading `/` of `path` is ignored.
    pub fn delete(&self, path: &str, date: &str) -> (r: Result<S3Request, S3Error>)
        requires
            signable(self@),
        ensures
            r matches Ok(req) ==> req@ == request_for(self@, Method::Delete, path@, None, date@)
                && sha1_header_shape(req.authorization@, self@.access_key),
    {
        self.request(Method::Delete, path, None, date)
    }
}

} // verus!
