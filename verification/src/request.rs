//! The requests of the service, as plain descriptions of what to send.

use vstd::prelude::*;
use vstd::string::*;
use crate::client::{Client, ClientView};
use crate::errors::{ErrorView, FrameQueryError};
use crate::json::{fields_of, lemma_fields_of, Json, JsonValue};
use crate::models::{Job, JobView};
use crate::text::{
    chars_of, decimal, decimal_string, find_first, first_of, last_segment, last_segment_from,
    last_segment_start, lemma_first_of, lemma_last_segment, str_eq, string_from_chars,
};
use crate::transport::is_success_status;

verus! {

/// The method of a request.
#[derive(Clone, Copy, Debug, PartialEq, Eq, Structural)]
pub enum Method {
    Get,
    Post,
    Put,
    Delete,
    Patch,
}

/// The method that a name stands for; a name that is none of the five stands
/// for `Get`.
pub open spec fn method_named(name: Seq<char>) -> Method {
    if name == "POST"@ {
        Method::Post
    } else if name == "PUT"@ {
        Method::Put
    } else if name == "DELETE"@ {
        Method::Delete
    } else if name == "PATCH"@ {
        Method::Patch
    } else {
        Method::Get
    }
}

impl Method {
    /// The method that a name stands for.
    pub fn from_name(name: &str) -> (method: Method)
        ensures
            method == method_named(name@),
    {
        if str_eq(name, "POST") {
            Method::Post
        } else if str_eq(name, "PUT") {
            Method::Put
        } else if str_eq(name, "DELETE") {
            Method::Delete
        } else if str_eq(name, "PATCH") {
            Method::Patch
        } else {
            Method::Get
        }
    }
}

/// One request to the service.
#[derive(Debug, PartialEq)]
pub struct Request {
    pub method: Method,
    /// The full address.
    pub url: String,
    /// The value of the `Authorization` header.
    pub authorization: String,
    /// The JSON body, where the request has one; it is sent with the content
    /// type `application/json`.
    pub body: Option<JsonValue>,
}

/// The mathematical model of a [`Request`].
pub struct RequestView {
    pub method: Method,
    pub url: Seq<char>,
    pub authorization: Seq<char>,
    pub body: Option<Json>,
}

impl View for Request {
    type V = RequestView;

    open spec fn view(&self) -> RequestView {
        RequestView {
            method: self.method,
            url: self.url@,
            authorization: self.authorization@,
            body: match self.body {
                Some(v) => Some(v@),
                None => None,
            },
        }
    }
}

/// The name a file gets where none can be told.
pub open spec fn default_file_name() -> Seq<char> {
    "video.mp4"@
}

/// The name a file gets where none can be told, as a string.
pub fn fallback_file_name() -> (name: String)
    ensures
        name@ == default_file_name(),
{
    String::from_str("video.mp4")
}

/// An address up to its first `?` or `#`: without query and fragment.
pub open spec fn without_query(url: Seq<char>) -> Seq<char> {
    url.subrange(0, first_of(url, '?', '#'))
}

/// Whether `s` names a host: its first slash is doubled, and stands at the
/// start or behind a colon.
pub open spec fn has_authority(s: Seq<char>) -> bool {
    let slash = first_of(s, '/', '/');
    slash + 1 < s.len() && s[slash + 1] == '/' && (slash == 0 || s[slash - 1] == ':')
}

/// The path of an address: what follows scheme and authority, up to the first
/// `?` or `#`. Behind an authority the path starts at the next slash, and is
/// empty where none follows; an address without authority is a path as it
/// stands.
pub open spec fn path_of(url: Seq<char>) -> Seq<char> {
    let s = without_query(url);
    if has_authority(s) {
        let rest = s.subrange(first_of(s, '/', '/') + 2, s.len() as int);
        rest.subrange(first_of(rest, '/', '/'), rest.len() as int)
    } else {
        s
    }
}

/// The file name that an address stands for: the last segment of its path,
/// where that is not empty and holds a dot, else the default name.
pub open spec fn file_name_of(url: Seq<char>) -> Seq<char> {
    let segment = last_segment(path_of(url));
    if segment.len() > 0 && segment.contains('.') {
        segment
    } else {
        default_file_name()
    }
}

/// The file name of an address is never empty, holds a dot, and holds no
/// slash, no `?` and no `#`: nothing of the host, the query or the fragment
/// gets into it.
pub proof fn lemma_file_name_is_plain(url: Seq<char>)
    ensures
        file_name_of(url).len() > 0,
        file_name_of(url).contains('.'),
        !file_name_of(url).contains('/'),
        !file_name_of(url).contains('?'),
        !file_name_of(url).contains('#'),
{
    let name = file_name_of(url);
    let path = path_of(url);
    let segment = last_segment(path);
    if segment.len() > 0 && segment.contains('.') {
        let s = without_query(url);
        lemma_first_of(url, '?', '#');
        lemma_last_segment(path);
        if has_authority(s) {
            lemma_first_of(s, '/', '/');
            let rest = s.subrange(first_of(s, '/', '/') + 2, s.len() as int);
            lemma_first_of(rest, '/', '/');
        }
        assert forall|k: int| 0 <= k < path.len() implies path[k] != '?' && path[k] != '#' by {}
        assert forall|k: int| 0 <= k < segment.len() implies segment[k] != '?' && segment[k]
            != '#' by {
            assert(segment[k] == path[last_segment_start(path) + k]);
        }
    } else {
        reveal_strlit("video.mp4");
        assert(name.len() == 9);
        assert(name[5] == '.');
    }
}

/// The file name that an address stands for.
pub fn file_name_from_url(url: &str) -> (name: String)
    ensures
        name@ == file_name_of(url@),
{
    let chars = chars_of(url);
    let end = find_first(&chars, 0, chars.len(), '?', '#');
    let slash = find_first(&chars, 0, end, '/', '/');
    let ghost s = without_query(url@);
    proof {
        assert(chars@.subrange(0, chars@.len() as int) =~= chars@);
        assert(s == chars@.subrange(0, end as int));
    }
    let path_start = if end - slash >= 2 && chars[slash + 1] == '/' && (slash == 0 || chars[slash
        - 1] == ':') {
        let found = find_first(&chars, slash + 2, end, '/', '/');
        proof {
            let rest = s.subrange(slash + 2, s.len() as int);
            assert(rest =~= chars@.subrange(slash + 2, end as int));
            assert(rest.subrange(first_of(rest, '/', '/'), rest.len() as int) =~= chars@.subrange(
                found as int,
                end as int,
            ));
        }
        found
    } else {
        0
    };
    assert(path_of(url@) == chars@.subrange(path_start as int, end as int));
    let start = last_segment_from(&chars, path_start, end);
    let ghost segment = last_segment(path_of(url@));
    assert(segment =~= chars@.subrange(start as int, end as int));
    let mut has_dot = false;
    let mut i: usize = start;
    while i < end
        invariant
            start <= i <= end <= chars@.len(),
            has_dot == chars@.subrange(start as int, i as int).contains('.'),
        decreases end - i,
    {
        proof {
            let before = chars@.subrange(start as int, i as int);
            let after = chars@.subrange(start as int, i + 1);
            assert(after =~= before.push(chars@[i as int]));
            if before.contains('.') {
                let k = choose|k: int| 0 <= k < before.len() && before[k] == '.';
                assert(after[k] == '.');
            }
            if chars@[i as int] == '.' {
                assert(after[i - start] == '.');
            }
        }
        if chars[i] == '.' {
            has_dot = true;
        }
        i += 1;
    }
    if start < end && has_dot {
        string_from_chars(&chars, start, end)
    } else {
        fallback_file_name()
    }
}

/// The parts of the query of a listing, in the order limit, cursor, status,
/// each only where it is given.
pub open spec fn query_parts(
    limit: Option<u32>,
    cursor: Option<Seq<char>>,
    status: Option<Seq<char>>,
) -> Seq<Seq<char>> {
    let a = match limit {
        Some(l) => seq!["limit="@ + decimal(l as nat)],
        None => Seq::empty(),
    };
    let b = match cursor {
        Some(c) => seq!["cursor="@ + c],
        None => Seq::empty(),
    };
    let c = match status {
        Some(s) => seq!["status="@ + s],
        None => Seq::empty(),
    };
    a + b + c
}

/// The parts with `&` between them.
pub open spec fn joined(parts: Seq<Seq<char>>) -> Seq<char>
    decreases parts.len(),
{
    if parts.len() == 0 {
        Seq::empty()
    } else if parts.len() == 1 {
        parts[0]
    } else {
        joined(parts.drop_last()) + "&"@ + parts.last()
    }
}

/// The path of a listing of jobs: `/jobs`, and behind a `?` the query, where
/// there is one.
pub open spec fn list_jobs_path_of(
    limit: Option<u32>,
    cursor: Option<Seq<char>>,
    status: Option<Seq<char>>,
) -> Seq<char> {
    let parts = query_parts(limit, cursor, status);
    if parts.len() == 0 {
        "/jobs"@
    } else {
        "/jobs?"@ + joined(parts)
    }
}

/// The model of an optional string slice.
pub open spec fn opt_view(s: Option<&str>) -> Option<Seq<char>> {
    match s {
        Some(s) => Some(s@),
        None => None,
    }
}

/// The path of a listing of jobs.
pub fn list_jobs_path(limit: Option<u32>, cursor: Option<&str>, status: Option<&str>) -> (path:
    String)
    ensures
        path@ == list_jobs_path_of(limit, opt_view(cursor), opt_view(status)),
{
    let mut path = String::from_str("/jobs");
    let ghost mut parts: Seq<Seq<char>> = Seq::empty();
    let mut any = false;
    if let Some(l) = limit {
        path.append("?");
        path.append("limit=");
        let digits = decimal_string(l);
        path.append(digits.as_str());
        any = true;
        proof {
            parts = parts.push("limit="@ + decimal(l as nat));
            lemma_literals();
            assert(path@ =~= "/jobs?"@ + joined(parts));
        }
    }
    if let Some(c) = cursor {
        let ghost before = parts;
        if any {
            path.append("&");
        } else {
            path.append("?");
        }
        path.append("cursor=");
        path.append(c);
        any = true;
        proof {
            parts = parts.push("cursor="@ + c@);
            lemma_literals();
            assert(parts.drop_last() =~= before);
            assert(path@ =~= "/jobs?"@ + joined(parts));
        }
    }
    if let Some(s) = status {
        let ghost before = parts;
        if any {
            path.append("&");
        } else {
            path.append("?");
        }
        path.append("status=");
        path.append(s);
        any = true;
        proof {
            parts = parts.push("status="@ + s@);
            lemma_literals();
            assert(parts.drop_last() =~= before);
            assert(path@ =~= "/jobs?"@ + joined(parts));
        }
    }
    proof {
        assert(parts =~= query_parts(limit, opt_view(cursor), opt_view(status)));
    }
    path
}

/// The request that a client makes of a method name, a path and a body: the
/// address is the client's followed by the path, and the authorization is the
/// word `Bearer`, a space, and the client's key.
pub open spec fn request_of(
    client: ClientView,
    method: Seq<char>,
    path: Seq<char>,
    body: Option<Json>,
) -> RequestView {
    RequestView {
        method: method_named(method),
        url: client.base_url + path,
        authorization: "Bearer "@ + client.api_key,
        body,
    }
}

/// The body of the creation of a job for an upload.
pub open spec fn create_job_body(file_name: Seq<char>) -> Json {
    Json::Object(seq![("fileName"@, Json::Text(file_name))])
}

/// The body of the submission of an address.
pub open spec fn submit_url_body(url: Seq<char>) -> Json {
    Json::Object(seq![("url"@, Json::Text(url)), ("fileName"@, Json::Text(file_name_of(url)))])
}

/// The status that a job has right after its creation.
pub open spec fn initial_status() -> Seq<char> {
    "PENDING_ORCHESTRATION"@
}

/// The job that stands for an upload just made: pending, under the id the
/// service gave and the file's own name, with a payload of id and status only.
pub open spec fn uploaded_job_of(job_id: Seq<char>, file_name: Seq<char>) -> JobView {
    JobView {
        id: job_id,
        status: initial_status(),
        filename: file_name,
        created_at: Seq::empty(),
        eta_seconds: None,
        raw: Json::Object(
            seq![("jobId"@, Json::Text(job_id)), ("status"@, Json::Text(initial_status()))],
        ),
    }
}

/// The error for a transfer of the bytes that the destination refused.
pub open spec fn transfer_refusal(status: u16, text: Seq<char>) -> ErrorView {
    ErrorView::Api {
        status_code: status,
        message: "upload to signed URL failed: "@ + text,
        body: None,
    }
}

impl Client {
    /// Plans a request: `method` by its name, `path` below the client's
    /// address, and the JSON body where there is one.
    pub fn request(&self, method: &str, path: &str, body: Option<JsonValue>) -> (request: Request)
        ensures
            request@ == request_of(
                self@,
                method@,
                path@,
                match body {
                    Some(v) => Some(v@),
                    None => None,
                },
            ),
    {
        let mut url = String::from_str(self.base_url());
        url.append(path);
        let mut authorization = String::from_str("Bearer ");
        authorization.append(self.api_key());
        Request { method: Method::from_name(method), url, authorization, body }
    }

    /// The request that fetches one job.
    pub fn get_job_request(&self, job_id: &str) -> (request: Request)
        ensures
            request@ == request_of(self@, "GET"@, "/jobs/"@ + job_id@, None),
    {
        let mut path = String::from_str("/jobs/");
        path.append(job_id);
        self.request("GET", path.as_str(), None)
    }

    /// The request that lists jobs, with the filters that are given.
    pub fn list_jobs_request(
        &self,
        limit: Option<u32>,
        cursor: Option<&str>,
        status: Option<&str>,
    ) -> (request: Request)
        ensures
            request@ == request_of(
                self@,
                "GET"@,
                list_jobs_path_of(limit, opt_view(cursor), opt_view(status)),
                None,
            ),
    {
        let path = list_jobs_path(limit, cursor, status);
        self.request("GET", path.as_str(), None)
    }

    /// The request that fetches the account's quota.
    pub fn get_quota_request(&self) -> (request: Request)
        ensures
            request@ == request_of(self@, "GET"@, "/quota"@, None),
    {
        self.request("GET", "/quota", None)
    }

    /// The request that creates a job for the upload of a file of this name.
    pub fn create_job_request(&self, file_name: &str) -> (request: Request)
        ensures
            request@ == request_of(self@, "POST"@, "/jobs"@, Some(create_job_body(file_name@))),
    {
        let mut fields: Vec<(String, JsonValue)> = Vec::new();
        fields.push((String::from_str("fileName"), JsonValue::String(String::from_str(file_name))));
        proof {
            lemma_fields_of(fields@);
            assert(fields_of(fields@) =~= seq![("fileName"@, Json::Text(file_name@))]);
        }
        self.request("POST", "/jobs", Some(JsonValue::Object(fields)))
    }

    /// The request that submits an address for the service to fetch the video
    /// from, under the file name that the address stands for.
    pub fn submit_url_request(&self, url: &str) -> (request: Request)
        ensures
            request@ == request_of(self@, "POST"@, "/jobs/from-url"@, Some(submit_url_body(url@))),
    {
        let mut fields: Vec<(String, JsonValue)> = Vec::new();
        fields.push((String::from_str("url"), JsonValue::String(String::from_str(url))));
        fields.push((String::from_str("fileName"), JsonValue::String(file_name_from_url(url))));
        proof {
            lemma_fields_of(fields@);
            assert(fields_of(fields@) =~= seq![
                ("url"@, Json::Text(url@)),
                ("fileName"@, Json::Text(file_name_of(url@))),
            ]);
        }
        self.request("POST", "/jobs/from-url", Some(JsonValue::Object(fields)))
    }
}

/// The job that stands for an upload just made.
pub fn uploaded_job(job_id: &str, file_name: &str) -> (job: Job)
    ensures
        job@ == uploaded_job_of(job_id@, file_name@),
{
    let mut fields: Vec<(String, JsonValue)> = Vec::new();
    fields.push((String::from_str("jobId"), JsonValue::String(String::from_str(job_id))));
    fields.push(
        (String::from_str("status"), JsonValue::String(String::from_str("PENDING_ORCHESTRATION"))),
    );
    proof {
        lemma_fields_of(fields@);
        assert(fields_of(fields@) =~= seq![
            ("jobId"@, Json::Text(job_id@)),
            ("status"@, Json::Text(initial_status())),
        ]);
    }
    Job {
        id: String::from_str(job_id),
        status: String::from_str("PENDING_ORCHESTRATION"),
        filename: String::from_str(file_name),
        created_at: String::new(),
        eta_seconds: None,
        raw: JsonValue::Object(fields),
    }
}

/// What the transfer of the bytes came to: nothing to report after a success
/// status, else the error that carries the status and the answer's text. Such
/// an error ends the call; the transfer is not tried again.
pub fn transfer_outcome(status: u16, text: &str) -> (r: Result<(), FrameQueryError>)
    ensures
        match r {
            Ok(_) => is_success_status(status),
            Err(e) => !is_success_status(status) && e@ == transfer_refusal(status, text@),
        },
{
    if 200 <= status && status < 300 {
        Ok(())
    } else {
        let mut message = String::from_str("upload to signed URL failed: ");
        message.append(text);
        Err(FrameQueryError::Api { status_code: status, message, body: None })
    }
}

/// `/jobs?` is `/jobs` followed by `?`.
proof fn lemma_literals()
    ensures
        "/jobs"@ + "?"@ == "/jobs?"@,
{
    reveal_strlit("/jobs");
    reveal_strlit("?");
    reveal_strlit("/jobs?");
    assert("/jobs"@ + "?"@ =~= "/jobs?"@);
}

} // verus!
