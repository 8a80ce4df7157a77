//! The upload client's logic: endpoint URL construction, MIME inference,
//! the multipart request description, and processing of the service's
//! answer. Reading the file and carrying the request over HTTP are the
//! caller's business; the caller hands back the HTTP status and body text.

use vstd::prelude::*;
use vstd::string::*;

use crate::errors::AppError;
use crate::paths::after_last_slash;
use crate::UploadResponse;

verus! {

/// s with every trailing `/` removed.
pub open spec fn strip_trailing_slashes(s: Seq<char>) -> Seq<char>
    decreases s.len(),
{
    if s.len() > 0 && s.last() == '/' {
        strip_trailing_slashes(s.drop_last())
    } else {
        s
    }
}

proof fn lemma_strip_trailing_slashes_take(s: Seq<char>, i: int)
    requires
        0 <= i <= s.len(),
        forall|j: int| i <= j < s.len() ==> s[j] == '/',
        i > 0 ==> s[i - 1] != '/',
    ensures
        strip_trailing_slashes(s) == s.take(i),
    decreases s.len(),
{
    if i == s.len() {
        assert(s.take(i) =~= s);
    } else {
        assert(s.last() == '/');
        lemma_strip_trailing_slashes_take(s.drop_last(), i);
        assert(s.drop_last().take(i) =~= s.take(i));
    }
}

/// The upload endpoint for an API base URL: the base with trailing slashes
/// stripped, with `/api/files` appended.
pub fn upload_endpoint(api_url: &str) -> (r: String)
    ensures
        r@ == strip_trailing_slashes(api_url@) + "/api/files"@,
{
    let n = api_url.unicode_len();
    let mut i: usize = n;
    while i > 0 && api_url.get_char(i - 1) == '/'
        invariant
            i <= n,
            n == api_url@.len(),
            forall|j: int| i <= j < n ==> api_url@[j] == '/',
        decreases i,
    {
        i = i - 1;
    }
    proof {
        lemma_strip_trailing_slashes_take(api_url@, i as int);
        assert(api_url@.take(i as int) =~= api_url@.subrange(0, i as int));
    }
    let mut r = api_url.substring_char(0, i).to_owned();
    r.append("/api/files");
    r
}

/// The value of the Authorization header: `Bearer ` plus the token.
pub fn bearer_header_value(upload_token: &str) -> (r: String)
    ensures
        r@ == "Bearer "@ + upload_token@,
{
    let mut r = "Bearer ".to_owned();
    r.append(upload_token);
    r
}

/// The MIME type the table gives for a path's extension, if any.
pub uninterp spec fn mime_raw_of(path: Seq<char>) -> Option<Seq<char>>;

/// Relies on mime_guess::from_path and MimeGuess::first_raw: the first
/// guessed MIME type, a table lookup on the path's extension and so a
/// function of the path alone.
#[verifier::external_body]
fn guess_mime(path: &str) -> (r: Option<String>)
    ensures
        r is Some <==> mime_raw_of(path@) is Some,
        r matches Some(m) ==> m@ == mime_raw_of(path@)->Some_0,
{
    mime_guess::from_path(path).first_raw().map(|m| m.to_owned())
}

/// The MIME type inferred for a path: the table's answer for its extension,
/// or `application/octet-stream` when the table has none.
pub open spec fn mime_chars(path: Seq<char>) -> Seq<char> {
    match mime_raw_of(path) {
        Some(m) => m,
        None => "application/octet-stream"@,
    }
}

/// The MIME type to tag an uploaded file with.
pub fn mime_for_path(path: &str) -> (r: String)
    ensures
        r@ == mime_chars(path@),
{
    match guess_mime(path) {
        Some(m) => m,
        None => "application/octet-stream".to_owned(),
    }
}

/// Everything the HTTP layer needs to POST one file: the endpoint, the
/// Authorization header value, and the multipart fields. The file's bytes
/// are read beside it by the caller.
#[derive(Debug, Clone, PartialEq, Eq)]
pub struct UploadRequest {
    pub endpoint: String,
    pub auth_header: String,
    pub file_name: String,
    pub mime_type: String,
    pub visibility: String,
    pub password: Option<String>,
}

/// The request description for uploading the file at `file_path` to the
/// service at `api_url`: endpoint `<api_url, trailing slashes stripped>`
/// `/api/files`, bearer authorization, the file field named after the
/// path's base name and tagged with the inferred MIME type, the visibility
/// field, and the password field only when one is given. A path without a
/// base name is rejected with `IoError`.
pub fn build_upload_request(
    file_path: &str,
    api_url: &str,
    upload_token: &str,
    visibility: String,
    password: Option<String>,
) -> (r: Result<UploadRequest, AppError>)
    ensures
        ({
            let tail = after_last_slash(file_path@);
            if tail.len() == 0 || tail == "."@ || tail == ".."@ {
                r matches Err(e) && e matches AppError::IoError { detail } && detail@
                    == "Invalid file path"@
            } else {
                r matches Ok(q) && {
                    &&& q.endpoint@ == strip_trailing_slashes(api_url@) + "/api/files"@
                    &&& q.auth_header@ == "Bearer "@ + upload_token@
                    &&& q.file_name@ == tail
                    &&& q.mime_type@ == mime_chars(file_path@)
                    &&& q.visibility == visibility
                    &&& q.password == password
                }
            }
        }),
{
    let file_name = match crate::paths::file_name_of(file_path) {
        Some(b) => b,
        None => {
            return Err(AppError::IoError { detail: "Invalid file path".to_owned() });
        },
    };
    Ok(
        UploadRequest {
            endpoint: upload_endpoint(api_url),
            auth_header: bearer_header_value(upload_token),
            file_name,
            mime_type: mime_for_path(file_path),
            visibility,
            password,
        },
    )
}

/// Whether a string parses as JSON: a function of the string alone.
pub uninterp spec fn json_wf(s: Seq<char>) -> bool;

/// The `url` field of the body's top-level `data` object, when the body is
/// JSON carrying one as a string: a function of the body text alone.
pub uninterp spec fn data_url_of(s: Seq<char>) -> Option<Seq<char>>;

/// The `name` field of the body's `data` object, as `data_url_of`.
pub uninterp spec fn data_name_of(s: Seq<char>) -> Option<Seq<char>>;

/// The `size` field of the body's `data` object, when it is a number that
/// is a non-negative integer: a function of the body text alone.
pub uninterp spec fn data_size_of(s: Seq<char>) -> Option<u64>;

/// The `type` field of the body's `data` object, as `data_url_of`.
pub uninterp spec fn data_type_of(s: Seq<char>) -> Option<Seq<char>>;

/// The body's `data` envelope carries all four expected fields.
pub open spec fn envelope_complete(s: Seq<char>) -> bool {
    &&& data_url_of(s) is Some
    &&& data_name_of(s) is Some
    &&& data_size_of(s) is Some
    &&& data_type_of(s) is Some
}

/// Relies on serde_json::from_str::<serde_json::Value>: whether the text
/// parses as JSON, a function of the text alone.
#[verifier::external_body]
fn json_parses(body: &str) -> (r: bool)
    ensures
        r == json_wf(body@),
{
    serde_json::from_str::<serde_json::Value>(body).is_ok()
}

/// Relies on serde_json::from_str, Value::get, Value::as_str and
/// Value::as_u64: the url, name, size and type fields of the body's
/// top-level `data` object, each present exactly when the body is JSON
/// carrying `data` with that field at the expected JSON type, and each a
/// function of the body text alone.
#[verifier::external_body]
fn extract_data_fields(body: &str) -> (r: (
    Option<String>,
    Option<String>,
    Option<u64>,
    Option<String>,
))
    ensures
        r.0 is Some <==> data_url_of(body@) is Some,
        r.0 matches Some(v) ==> v@ == data_url_of(body@)->Some_0,
        r.1 is Some <==> data_name_of(body@) is Some,
        r.1 matches Some(v) ==> v@ == data_name_of(body@)->Some_0,
        r.2 == data_size_of(body@),
        r.3 is Some <==> data_type_of(body@) is Some,
        r.3 matches Some(v) ==> v@ == data_type_of(body@)->Some_0,
{
    let root: Option<serde_json::Value> = serde_json::from_str(body).ok();
    let data = root.as_ref().and_then(|v| v.get("data"));
    (
        data.and_then(|d| d.get("url")).and_then(|v| v.as_str()).map(|s| s.to_owned()),
        data.and_then(|d| d.get("name")).and_then(|v| v.as_str()).map(|s| s.to_owned()),
        data.and_then(|d| d.get("size")).and_then(|v| v.as_u64()),
        data.and_then(|d| d.get("type")).and_then(|v| v.as_str()).map(|s| s.to_owned()),
    )
}

/// The upload metadata assembled from the envelope's fields: all four
/// present gives exactly those fields; any missing gives
/// `MalformedResponse`.
pub fn response_from_fields(
    url: Option<String>,
    name: Option<String>,
    size: Option<u64>,
    file_type: Option<String>,
) -> (r: Result<UploadResponse, AppError>)
    ensures
        (url is Some && name is Some && size is Some && file_type is Some) ==> (r matches Ok(u) && {
            &&& u.url == url->Some_0
            &&& u.name == name->Some_0
            &&& u.size == size->Some_0
            &&& u.file_type == file_type->Some_0
        }),
        !(url is Some && name is Some && size is Some && file_type is Some) <==> r == Err::<
            UploadResponse,
            AppError,
        >(AppError::MalformedResponse),
{
    match (url, name, size, file_type) {
        (Some(url), Some(name), Some(size), Some(file_type)) => Ok(
            UploadResponse { url, name, size, file_type },
        ),
        _ => Err(AppError::MalformedResponse),
    }
}

/// What the upload client makes of the service's answer. A non-success
/// status is rejected as `UploadRejected` carrying the status and the body
/// text. A success status must carry a JSON object with a `data` field
/// holding the `url`, `name`, `size` and `type` of the uploaded file:
/// exactly then the result is `Ok` with exactly those fields; anything
/// else is `MalformedResponse`.
pub fn process_upload_response(status: u16, body: &str) -> (r: Result<UploadResponse, AppError>)
    ensures
        !(200 <= status < 300) ==> (r matches Err(e) && e matches AppError::UploadRejected {
            status: st,
            body: b,
        } && st == status && b@ == body@),
        (200 <= status < 300) ==> (r is Ok || r == Err::<UploadResponse, AppError>(
            AppError::MalformedResponse,
        )),
        (200 <= status < 300 && json_wf(body@) && envelope_complete(body@)) ==> (r matches Ok(u)
            && {
            &&& u.url@ == data_url_of(body@)->Some_0
            &&& u.name@ == data_name_of(body@)->Some_0
            &&& Some(u.size) == data_size_of(body@)
            &&& u.file_type@ == data_type_of(body@)->Some_0
        }),
        (200 <= status < 300 && !(json_wf(body@) && envelope_complete(body@))) ==> r == Err::<
            UploadResponse,
            AppError,
        >(AppError::MalformedResponse),
{
    if status < 200 || status >= 300 {
        return Err(AppError::UploadRejected { status, body: body.to_owned() });
    }
    if !json_parses(body) {
        return Err(AppError::MalformedResponse);
    }
    let (url, name, size, file_type) = extract_data_fields(body);
    response_from_fields(url, name, size, file_type)
}

} // verus!
