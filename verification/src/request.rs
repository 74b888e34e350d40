//! The outbound insert request and the functions that build it.

use crate::encoding::{base64_standard, encode_standard};
use crate::settings::{resolve, Settings, SettingsView};
use crate::text::{contains, lemma_contains_middle, lemma_contains_widen, optional_text, pairs};
use vstd::prelude::*;
use vstd::string::StringExecFns;

verus! {

/// The method of an HTTP request.
#[derive(Clone, Copy, Debug, PartialEq, Eq, Structural)]
pub enum HttpMethod {
    Get,
    Put,
    Post,
    Patch,
    Delete,
}

/// A request as plain values.
pub struct RequestView {
    pub method: HttpMethod,
    pub url: Seq<char>,
    pub headers: Seq<(Seq<char>, Seq<char>)>,
    pub body: Seq<char>,
    pub forward_client_headers: bool,
}

/// The description of one HTTP request, ready to be sent by the host.
#[derive(Clone, Debug, PartialEq, Eq)]
pub struct EdgeeRequest {
    pub method: HttpMethod,
    pub url: String,
    /// Header names and values, in the order in which they were added.
    pub headers: Vec<(String, String)>,
    pub body: String,
    /// Whether the host should pass on the headers of the client's request.
    pub forward_client_headers: bool,
}

impl View for EdgeeRequest {
    type V = RequestView;

    open spec fn view(&self) -> RequestView {
        RequestView {
            method: self.method,
            url: self.url@,
            headers: pairs(self.headers@),
            body: self.body@,
            forward_client_headers: self.forward_client_headers,
        }
    }
}

/// The target URL: the endpoint, then a query that inserts rows of JSON
/// objects into `database.table`. The three texts are spliced in unchanged.
pub open spec fn insert_url(
    endpoint: Seq<char>,
    database: Seq<char>,
    table: Seq<char>,
) -> Seq<char> {
    endpoint + "?query=INSERT INTO "@ + database + "."@ + table + " FORMAT JSONEachRow"@
}

/// The text that HTTP Basic authentication encodes: user, colon, password.
pub open spec fn credentials(username: Seq<char>, password: Seq<char>) -> Seq<char> {
    username + ":"@ + password
}

/// The value of the `Authorization` header for HTTP Basic authentication.
pub open spec fn basic_authorization(username: Seq<char>, password: Seq<char>) -> Seq<char> {
    "Basic "@ + base64_standard(credentials(username, password))
}

/// The request that inserts `body` at the destination that `settings` name.
pub open spec fn request_for(settings: SettingsView, body: Seq<char>) -> RequestView {
    RequestView {
        method: HttpMethod::Post,
        url: insert_url(settings.endpoint, settings.database, settings.table),
        headers: seq![
            ("Content-Type"@, "application/json"@),
            ("Authorization"@, basic_authorization(settings.username, settings.password)),
        ],
        body,
        forward_client_headers: false,
    }
}

/// The body that stands for a serialized event: the text itself, or nothing
/// where the event could not be serialized.
pub open spec fn body_text(serialized: Option<Seq<char>>) -> Seq<char> {
    match serialized {
        Some(text) => text,
        None => Seq::empty(),
    }
}

/// What the adapter answers to raw settings and a serialized event: the
/// insert request, or the message of the settings' validation error.
pub open spec fn outcome(
    entries: Seq<(Seq<char>, Seq<char>)>,
    serialized: Option<Seq<char>>,
) -> Result<RequestView, Seq<char>> {
    match resolve(entries) {
        Ok(settings) => Ok(request_for(settings, body_text(serialized))),
        Err(error) => Err(error.message_text()),
    }
}

/// An answer of the adapter as plain values.
pub open spec fn answer_view(
    answer: Result<EdgeeRequest, String>,
) -> Result<RequestView, Seq<char>> {
    match answer {
        Ok(request) => Ok(request@),
        Err(message) => Err(message@),
    }
}

/// Builds the insert request for an event that is already serialized.
///
/// `body` becomes the request's body as it is. The headers are `Content-Type`
/// and then `Authorization`.
pub fn build_request(body: String, settings: &Settings) -> (request: EdgeeRequest)
    ensures
        request@ == request_for(settings@, body@),
        request.method == HttpMethod::Post,
        !request.forward_client_headers,
{
    let mut url = settings.endpoint.clone();
    url.append("?query=INSERT INTO ");
    url.append(settings.database.as_str());
    url.append(".");
    url.append(settings.table.as_str());
    url.append(" FORMAT JSONEachRow");

    let mut login = settings.username.clone();
    login.append(":");
    login.append(settings.password.as_str());
    let encoded = encode_standard(login.as_str());
    let authorization = String::from_str("Basic ").concat(encoded.as_str());

    let mut headers: Vec<(String, String)> = Vec::new();
    headers.push((String::from_str("Content-Type"), String::from_str("application/json")));
    headers.push((String::from_str("Authorization"), authorization));

    let request = EdgeeRequest {
        method: HttpMethod::Post,
        url,
        headers,
        body,
        forward_client_headers: false,
    };
    proof {
        assert(request@.headers =~= request_for(settings@, body@).headers);
    }
    request
}

/// Resolves the settings and builds the insert request for one event.
///
/// `serialized` is the event as JSON text, or `None` where it could not be
/// serialized: the request then has an empty body. Settings that do not
/// resolve give the validation error's message.
pub fn send_to_clickhouse(
    serialized: Option<String>,
    settings_dict: Vec<(String, String)>,
) -> (answer: Result<EdgeeRequest, String>)
    ensures
        answer_view(answer) == outcome(pairs(settings_dict@), optional_text(serialized)),
        answer matches Ok(request) ==> request.method == HttpMethod::Post
            && !request.forward_client_headers,
{
    let settings = match Settings::new(settings_dict) {
        Ok(settings) => settings,
        Err(error) => return Err(error.message()),
    };
    let body = match serialized {
        Some(text) => text,
        None => String::new(),
    };
    Ok(build_request(body, &settings))
}

/// The adapter's entry points, one for each kind of event. All three answer
/// alike: the kind of the event decides nothing.
pub struct Component;

impl Component {
    /// Answers a page view.
    pub fn page(
        serialized: Option<String>,
        settings: Vec<(String, String)>,
    ) -> (answer: Result<EdgeeRequest, String>)
        ensures
            answer_view(answer) == outcome(pairs(settings@), optional_text(serialized)),
            answer matches Ok(request) ==> request.method == HttpMethod::Post
                && !request.forward_client_headers,
    {
        send_to_clickhouse(serialized, settings)
    }

    /// Answers a tracked action.
    pub fn track(
        serialized: Option<String>,
        settings: Vec<(String, String)>,
    ) -> (answer: Result<EdgeeRequest, String>)
        ensures
            answer_view(answer) == outcome(pairs(settings@), optional_text(serialized)),
            answer matches Ok(request) ==> request.method == HttpMethod::Post
                && !request.forward_client_headers,
    {
        send_to_clickhouse(serialized, settings)
    }

    /// Answers a user identification.
    pub fn user(
        serialized: Option<String>,
        settings: Vec<(String, String)>,
    ) -> (answer: Result<EdgeeRequest, String>)
        ensures
            answer_view(answer) == outcome(pairs(settings@), optional_text(serialized)),
            answer matches Ok(request) ==> request.method == HttpMethod::Post
                && !request.forward_client_headers,
    {
        send_to_clickhouse(serialized, settings)
    }
}

/// Every request is a POST that does not forward the client's headers.
pub proof fn lemma_method_and_forwarding(settings: SettingsView, body: Seq<char>)
    ensures
        request_for(settings, body).method == HttpMethod::Post,
        !request_for(settings, body).forward_client_headers,
{
}

/// The URL of every request contains the database and the table joined by a
/// dot, and the marker that opens the query.
pub proof fn lemma_url_names_target(settings: SettingsView, body: Seq<char>)
    ensures
        contains(request_for(settings, body).url, settings.database + "."@ + settings.table),
        contains(request_for(settings, body).url, "?query="@),
{
    let url = request_for(settings, body).url;
    let opening = "?query=INSERT INTO "@;
    let closing = " FORMAT JSONEachRow"@;
    let target = settings.database + "."@ + settings.table;
    lemma_contains_middle(settings.endpoint + opening, target, closing);
    assert(url =~= settings.endpoint + opening + target + closing);

    reveal_strlit("?query=INSERT INTO ");
    reveal_strlit("?query=");
    let start: int = 0;
    assert(opening.subrange(start, start + "?query="@.len()) =~= "?query="@);
    lemma_contains_widen(settings.endpoint, opening, target + closing, "?query="@);
    assert(url =~= settings.endpoint + opening + (target + closing));
}

/// The `Authorization` header is the second one; its value is `Basic `
/// followed by the base64 encoding of the user, a colon and the password.
pub proof fn lemma_authorization_is_basic(settings: SettingsView, body: Seq<char>)
    ensures
        request_for(settings, body).headers.len() == 2,
        request_for(settings, body).headers[1].0 == "Authorization"@,
        request_for(settings, body).headers[1].1 == "Basic "@ + base64_standard(
            settings.username + ":"@ + settings.password,
        ),
        "Basic "@.is_prefix_of(request_for(settings, body).headers[1].1),
{
}

/// The body is empty only where the serialized event is empty or absent.
pub proof fn lemma_body_is_serialized_text(settings: SettingsView, text: Seq<char>)
    ensures
        request_for(settings, body_text(Some(text))).body == text,
        text.len() > 0 ==> request_for(settings, body_text(Some(text))).body.len() > 0,
{
}

} // verus!
