//! The data entries of the remote service and the client that prepares the
//! requests for them and normalizes what comes back.

use chrono::TimeZone;
use vstd::prelude::*;
use vstd::string::StrSliceExecFns;
use vstd::string::StringExecFns;

use crate::clock::{now_millis, DAY_MILLIS};
use crate::content::{decode, decoded_content};
use crate::decimal::{decimal_text, i64_text};
use crate::endpoint::Endpoint;

verus! {

/// Single entry of the remote time series.
#[derive(Debug, PartialEq, Eq)]
pub struct Data {
    /// Epoch time of the entry, in milliseconds.
    pub time: i64,
    /// Content type of the entry.
    pub content_type: String,
    /// Content of the entry: the raw content as the service sent it, or its
    /// normalized form once decoded.
    pub content: String,
}

/// What an entry holds, as plain mathematical values.
pub struct DataView {
    /// The time of the entry, in milliseconds since the Unix epoch.
    pub time: i64,
    /// The content type of the entry.
    pub content_type: Seq<char>,
    /// The content of the entry.
    pub content: Seq<char>,
}

impl View for Data {
    type V = DataView;

    open spec fn view(&self) -> DataView {
        DataView { time: self.time, content_type: self.content_type@, content: self.content@ }
    }
}

impl DataView {
    /// The line that shows the entry, given the text of its date: the time,
    /// the date, the content type and the content, with bars in between.
    pub open spec fn line(self, date: Seq<char>) -> Seq<char> {
        decimal_text(self.time as int) + " | "@ + date + " | "@ + self.content_type + " | "@ + self.content
    }
}

/// The text that chrono writes for the date and time, in UTC, that lie
/// `millis` milliseconds after the Unix epoch: `None` where chrono has no
/// date that far from it.
pub uninterp spec fn utc_date_text(millis: int) -> Option<Seq<char>>;

/// Calls `timestamp_millis_opt` of chrono on `Utc` and writes the date and
/// time that it finds with their `Display`. The contract gives that text a
/// name and claims nothing else about it; where chrono has no such date the
/// result is `None`.
#[verifier::external_body]
fn utc_date(millis: i64) -> (text: Option<String>)
    ensures
        match text {
            Some(date) => utc_date_text(millis as int) == Some(date@),
            None => utc_date_text(millis as int) is None,
        },
{
    match chrono::Utc.timestamp_millis_opt(millis) {
        chrono::MappedLocalTime::Single(date) => Some(date.to_string()),
        _ => None,
    }
}

impl Data {
    /// Writes the line that shows the entry around the text of its date.
    fn line_with(&self, date: &str) -> (line: String)
        ensures
            line@ == self@.line(date@),
    {
        let mut line = i64_text(self.time);
        line.append(" | ");
        line.append(date);
        line.append(" | ");
        line.append(self.content_type.as_str());
        line.append(" | ");
        line.append(self.content.as_str());
        line
    }

    /// The line that shows the entry: its time, the date and time that the
    /// time stands for, its content type and its content. The time has to
    /// be one that has a date.
    pub fn to_string(&self) -> (line: String)
        requires
            utc_date_text(self@.time as int) is Some,
        ensures
            line@ == self@.line(utc_date_text(self@.time as int).unwrap()),
    {
        match utc_date(self.time) {
            Some(date) => self.line_with(date.as_str()),
            None => unreached(),
        }
    }

    /// The line that shows the entry, or `None` where its time has no date.
    pub fn try_to_string(&self) -> (line: Option<String>)
        ensures
            match line {
                Some(text) => utc_date_text(self@.time as int) is Some && text@ == self@.line(
                    utc_date_text(self@.time as int).unwrap(),
                ),
                None => utc_date_text(self@.time as int) is None,
            },
    {
        match utc_date(self.time) {
            Some(_) => Some(self.to_string()),
            None => None,
        }
    }
}

impl Clone for Data {
    fn clone(&self) -> (copy: Self)
        ensures
            copy == *self,
    {
        Data { time: self.time, content_type: self.content_type.clone(), content: self.content.clone() }
    }
}

/// The views of a run of entries, in order.
pub open spec fn entries_view(entries: Seq<Data>) -> Seq<DataView> {
    Seq::new(entries.len(), |i: int| entries[i]@)
}

/// An entry after decoding: time and content type stay, the content is
/// normalized.
pub open spec fn decoded_entry(entry: DataView) -> DataView {
    DataView { time: entry.time, content_type: entry.content_type, content: decoded_content(entry.content) }
}

/// A run of entries after decoding: as many entries, in the same order, each
/// one decoded.
pub open spec fn decoded_entries(entries: Seq<DataView>) -> Seq<DataView> {
    Seq::new(entries.len(), |i: int| decoded_entry(entries[i]))
}

/// Whether the times of `entries` never rise from one entry to the next.
pub open spec fn newest_first(entries: Seq<DataView>) -> bool {
    forall|i: int, j: int| 0 <= i <= j < entries.len() ==> entries[i].time >= entries[j].time
}

/// The limit of a request that names none.
pub const DEFAULT_LIMIT: u32 = 100;

/// The text of an optional string, as plain mathematical values.
pub open spec fn option_text(text: Option<String>) -> Option<Seq<char>> {
    match text {
        Some(text) => Some(text@),
        None => None,
    }
}

/// What is sent to open a session: where to post it, and the credentials.
pub struct AuthRequest {
    /// The address that the credentials are posted to.
    pub url: String,
    /// The identifier of the authentication key.
    pub auth_key_id: String,
    /// The secret of the authentication key.
    pub auth_key: String,
}

/// What the service answers when it opens a session.
pub struct AuthResponse {
    /// The API key of the session.
    pub api_key: String,
    /// The token of the session.
    pub token: String,
    /// The user name, where the service gives one.
    pub user_name: Option<String>,
    /// The operator ID, where the service gives one.
    pub operator_id: Option<String>,
}

/// What is sent to fetch the entries of a device: the address, the headers
/// that carry the session, and the query that gives the time range, the
/// order and the largest number of entries.
pub struct DataRequest {
    /// The address that the entries are fetched from.
    pub url: String,
    /// The headers of the request, each a name and a value.
    pub headers: Vec<(String, String)>,
    /// The parameters of the query, each a name and a value.
    pub query: Vec<(String, String)>,
}

/// What is sent to delete one entry of a device: the address and the
/// headers that carry the session.
pub struct DeleteRequest {
    /// The address of the entry.
    pub url: String,
    /// The headers of the request, each a name and a value.
    pub headers: Vec<(String, String)>,
}

/// The query for the entries of a device where the caller may leave the
/// start, the end and the limit open: a missing start is the time a day
/// before now, a missing end is the time now, a missing limit is the default.
pub open spec fn filled_query(from: Option<i64>, to: Option<i64>, limit: Option<u32>, day_before: i64, now: i64) -> Seq<
    (Seq<char>, Seq<char>),
> {
    range_query(from.unwrap_or(day_before), to.unwrap_or(now), limit.unwrap_or(DEFAULT_LIMIT))
}

/// A list of names and values, as plain mathematical values.
pub open spec fn pairs_view(pairs: Seq<(String, String)>) -> Seq<(Seq<char>, Seq<char>)> {
    Seq::new(pairs.len(), |i: int| (pairs[i].0@, pairs[i].1@))
}

/// The query for the entries of a time range: the start and the end in
/// milliseconds, the order, which is always newest first, and the largest
/// number of entries.
pub open spec fn range_query(from: i64, to: i64, limit: u32) -> Seq<(Seq<char>, Seq<char>)> {
    seq![
        ("from"@, decimal_text(from as int)),
        ("to"@, decimal_text(to as int)),
        ("sort"@, "desc"@),
        ("limit"@, decimal_text(limit as int)),
    ]
}

/// A client, as plain mathematical values.
pub struct ClientModel {
    /// The identifier of the authentication key.
    pub auth_key_id: Seq<char>,
    /// The secret of the authentication key.
    pub auth_key_secret: Seq<char>,
    /// The endpoint that the client talks to.
    pub endpoint: Endpoint,
    /// The API key of the session; empty before there is one.
    pub api_key: Seq<char>,
    /// The token of the session; empty before there is one.
    pub token: Seq<char>,
    /// The user name of the session, where the service gave one.
    pub user_name: Option<Seq<char>>,
    /// The operator ID of the session, where the service gave one.
    pub operator_id: Option<Seq<char>>,
}

impl ClientModel {
    /// The address that credentials are posted to.
    pub open spec fn auth_url(self) -> Seq<char> {
        self.endpoint.url() + "/v1/auth"@
    }

    /// The address of the entries of the device `imsi`.
    pub open spec fn data_url(self, imsi: Seq<char>) -> Seq<char> {
        self.endpoint.url() + "/v1/data/Subscriber/"@ + imsi
    }

    /// The address of the entry of the device `imsi` at the time `time`.
    pub open spec fn entry_url(self, imsi: Seq<char>, time: int) -> Seq<char> {
        self.data_url(imsi) + "/"@ + decimal_text(time)
    }

    /// The headers of a request that is made within the session: who asks,
    /// the API key, the token and the language of the answers.
    pub open spec fn session_headers(self) -> Seq<(Seq<char>, Seq<char>)> {
        seq![
            ("User-Agent"@, "libshsqlite"@),
            ("X-Soracom-Api-Key"@, self.api_key),
            ("X-Soracom-Token"@, self.token),
            ("X-Soracom-Lang"@, "en"@),
        ]
    }

    /// The client once the service has opened a session for it: the
    /// credentials and the endpoint stay, the session is the answer's.
    pub open spec fn authenticated(self, api_key: Seq<char>, token: Seq<char>, user_name: Option<Seq<char>>, operator_id: Option<Seq<char>>) -> ClientModel {
        ClientModel { api_key, token, user_name, operator_id, ..self }
    }
}

/// Client of the remote data service: the credentials it was made with, the
/// endpoint it talks to and, once authenticated, the session it was given.
pub struct SoracomHarvestClient {
    auth_key_id: String,
    auth_key_secret: String,
    /// Endpoint for this client.
    pub endpoint: Endpoint,
    api_key: String,
    token: String,
    /// User name of the authenticated session.
    pub user_name: Option<String>,
    /// Operator ID of the authenticated session.
    pub operator_id: Option<String>,
}

impl View for SoracomHarvestClient {
    type V = ClientModel;

    closed spec fn view(&self) -> ClientModel {
        ClientModel {
            auth_key_id: self.auth_key_id@,
            auth_key_secret: self.auth_key_secret@,
            endpoint: self.endpoint,
            api_key: self.api_key@,
            token: self.token@,
            user_name: option_text(self.user_name),
            operator_id: option_text(self.operator_id),
        }
    }
}

/// The text that the standard library's `Debug` writes for an optional
/// string.
pub uninterp spec fn debug_text(value: Option<Seq<char>>) -> Seq<char>;

/// Formats an optional string with `{:?}`, the `Debug` of the standard
/// library. The contract gives that text a name and claims nothing else
/// about it.
#[verifier::external_body]
fn debug_of(value: &Option<String>) -> (text: String)
    ensures
        text@ == debug_text(option_text(*value)),
{
    format!("{:?}", value)
}

/// The first `count` characters of `text`, or all of it where it has fewer.
pub open spec fn head(text: Seq<char>, count: int) -> Seq<char> {
    if text.len() <= count {
        text
    } else {
        text.take(count)
    }
}

/// Cuts `text` down to its first `count` characters.
fn head_of(text: &str, count: usize) -> (cut: &str)
    ensures
        cut@ == head(text@, count as int),
{
    let len = text.unicode_len();
    if len <= count {
        assert(text@.subrange(0, len as int) =~= text@);
        text.substring_char(0, len)
    } else {
        text.substring_char(0, count)
    }
}

impl ClientModel {
    /// The lines that show a client: its endpoint, the start of its API key
    /// and of its token, and the user name and operator ID as `Debug` writes
    /// them.
    pub open spec fn description(self) -> Seq<char> {
        "- Endpoint: "@ + self.endpoint.url() + "\n- API key: "@ + head(self.api_key, 20) + "...\n- Token: "@
            + head(self.token, 20) + "...\n- User name: "@ + debug_text(self.user_name) + "\n- Operator ID: "@
            + debug_text(self.operator_id)
    }
}

/// Joins two texts.
fn joined(head: &str, tail: &str) -> (text: String)
    ensures
        text@ == head@ + tail@,
{
    let mut text = String::from_str(head);
    text.append(tail);
    text
}

/// Makes a pair of a name and a value.
fn pair(name: &str, value: &str) -> (made: (String, String))
    ensures
        made.0@ == name@,
        made.1@ == value@,
{
    (String::from_str(name), String::from_str(value))
}

impl SoracomHarvestClient {
    /// Writes the headers of a request that is made within the session.
    fn headers(&self) -> (headers: Vec<(String, String)>)
        ensures
            pairs_view(headers@) == self@.session_headers(),
    {
        let mut headers: Vec<(String, String)> = Vec::new();
        headers.push(pair("User-Agent", "libshsqlite"));
        headers.push(pair("X-Soracom-Api-Key", self.api_key.as_str()));
        headers.push(pair("X-Soracom-Token", self.token.as_str()));
        headers.push(pair("X-Soracom-Lang", "en"));
        assert(pairs_view(headers@) =~= self@.session_headers());
        headers
    }

    /// Makes a client from its credentials and its endpoint. It has no
    /// session yet: the API key and the token are empty.
    pub fn new(auth_key_id: String, auth_key_secret: String, endpoint: Endpoint) -> (client: Self)
        ensures
            client@ == (ClientModel {
                auth_key_id: auth_key_id@,
                auth_key_secret: auth_key_secret@,
                endpoint,
                api_key: Seq::empty(),
                token: Seq::empty(),
                user_name: None,
                operator_id: None,
            }),
    {
        SoracomHarvestClient {
            auth_key_id,
            auth_key_secret,
            endpoint,
            api_key: String::new(),
            token: String::new(),
            user_name: None,
            operator_id: None,
        }
    }

    /// The lines that show the client. Of the API key and of the token only
    /// the first 20 characters are shown.
    pub fn to_string(&self) -> (text: String)
        ensures
            text@ == self@.description(),
    {
        let mut text = String::from_str("- Endpoint: ");
        text.append(self.endpoint.as_str());
        text.append("\n- API key: ");
        text.append(head_of(self.api_key.as_str(), 20));
        text.append("...\n- Token: ");
        text.append(head_of(self.token.as_str(), 20));
        text.append("...\n- User name: ");
        text.append(debug_of(&self.user_name).as_str());
        text.append("\n- Operator ID: ");
        text.append(debug_of(&self.operator_id).as_str());
        text
    }

    /// The request that opens a session with the credentials of the client.
    pub fn auth_request(&self) -> (request: AuthRequest)
        ensures
            request.url@ == self@.auth_url(),
            request.auth_key_id@ == self@.auth_key_id,
            request.auth_key@ == self@.auth_key_secret,
    {
        AuthRequest {
            url: joined(self.endpoint.as_str(), "/v1/auth"),
            auth_key_id: self.auth_key_id.clone(),
            auth_key: self.auth_key_secret.clone(),
        }
    }

    /// Authenticate: given what the service answered to the request of
    /// `auth_request`, returns the client that holds the session.
    pub fn auth(&self, response: AuthResponse) -> (client: Self)
        ensures
            client@ == self@.authenticated(
                response.api_key@,
                response.token@,
                option_text(response.user_name),
                option_text(response.operator_id),
            ),
    {
        SoracomHarvestClient {
            auth_key_id: self.auth_key_id.clone(),
            auth_key_secret: self.auth_key_secret.clone(),
            endpoint: self.endpoint.clone(),
            api_key: response.api_key,
            token: response.token,
            user_name: response.user_name,
            operator_id: response.operator_id,
        }
    }

    /// The request for the entries of the device `imsi`, given the time a
    /// day before now and the time now: a missing start is the time a day
    /// before now, a missing end is the time now, a missing limit is 100.
    pub fn data_entries_request_at(
        &self,
        imsi: &str,
        from: Option<i64>,
        to: Option<i64>,
        limit: Option<u32>,
        day_before: i64,
        now: i64,
    ) -> (request: DataRequest)
        ensures
            request.url@ == self@.data_url(imsi@),
            pairs_view(request.headers@) == self@.session_headers(),
            pairs_view(request.query@) == filled_query(from, to, limit, day_before, now),
    {
        let mut url = joined(self.endpoint.as_str(), "/v1/data/Subscriber/");
        url.append(imsi);
        let mut query: Vec<(String, String)> = Vec::new();
        query.push(pair("from", i64_text(from.unwrap_or(day_before)).as_str()));
        query.push(pair("to", i64_text(to.unwrap_or(now)).as_str()));
        query.push(pair("sort", "desc"));
        query.push(pair("limit", i64_text(limit.unwrap_or(DEFAULT_LIMIT) as i64).as_str()));
        assert(pairs_view(query@) =~= range_query(
            from.unwrap_or(day_before),
            to.unwrap_or(now),
            limit.unwrap_or(DEFAULT_LIMIT),
        ));
        DataRequest { url, headers: self.headers(), query }
    }

    /// The request for the entries of the device `imsi`. The clock is read
    /// for a start or an end that is missing: the range then starts a day
    /// before the reading, or ends at the reading, and no reading is before
    /// the Unix epoch.
    pub fn data_entries_request(&self, imsi: &str, from: Option<i64>, to: Option<i64>, limit: Option<u32>) -> (request: DataRequest)
        ensures
            request.url@ == self@.data_url(imsi@),
            pairs_view(request.headers@) == self@.session_headers(),
            exists|day_before: i64, now: i64|
                day_before >= -DAY_MILLIS && now >= 0 && pairs_view(request.query@) == #[trigger] filled_query(
                    from,
                    to,
                    limit,
                    day_before,
                    now,
                ),
    {
        let day_before: i64 = if from.is_none() {
            now_millis() - DAY_MILLIS
        } else {
            0
        };
        let now: i64 = if to.is_none() {
            now_millis()
        } else {
            0
        };
        self.data_entries_request_at(imsi, from, to, limit, day_before, now)
    }

    /// Returns the data entries of a device from what the service sent for
    /// them: the content of every entry is normalized; their number, their
    /// order, their times and their content types are kept.
    pub fn get_data_entries(&self, fetched: Vec<Data>) -> (decoded: Vec<Data>)
        ensures
            entries_view(decoded@) == decoded_entries(entries_view(fetched@)),
    {
        let mut decoded: Vec<Data> = Vec::new();
        for entry in it: fetched
            invariant
                it.seq() == fetched@,
                decoded@.len() == it.index(),
                forall|i: int| 0 <= i < it.index() ==> (#[trigger] decoded@[i])@ == decoded_entry(fetched@[i]@),
        {
            decoded.push(
                Data {
                    content: Self::try_decode(entry.content),
                    content_type: entry.content_type,
                    time: entry.time,
                },
            );
        }
        assert(entries_view(decoded@) =~= decoded_entries(entries_view(fetched@)));
        decoded
    }

    /// Deletes a data entry identified with IMSI and timestamp: returns the
    /// request that does so once it is sent.
    pub fn delete_data_entry(&self, imsi: &str, time: i64) -> (request: DeleteRequest)
        ensures
            request.url@ == self@.entry_url(imsi@, time as int),
            pairs_view(request.headers@) == self@.session_headers(),
    {
        let mut url = joined(self.endpoint.as_str(), "/v1/data/Subscriber/");
        url.append(imsi);
        url.append("/");
        url.append(i64_text(time).as_str());
        DeleteRequest { url, headers: self.headers() }
    }

    /// Normalizes one raw content: a JSON object whose `payload` member is a
    /// base64 string that decodes to printable ASCII text becomes
    /// `{"value":"<text>"}`; any other content is returned as it is.
    pub fn try_decode(content: String) -> (decoded: String)
        ensures
            decoded@ == decoded_content(content@),
    {
        decode(content)
    }
}

/// Decoding keeps entries in the order of their times: what arrived newest
/// first stays newest first.
pub proof fn law_decoding_keeps_order(entries: Seq<DataView>)
    requires
        newest_first(entries),
    ensures
        newest_first(decoded_entries(entries)),
        decoded_entries(entries).len() == entries.len(),
{
}

} // verus!
