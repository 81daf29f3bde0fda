//! The data client, which binds the options of a table to the snapshot
//! fetched for it, and the reader that walks a snapshot row by row.
//!
//! The client does not talk to the service itself. It says which request is
//! to be made next, is told what came of it, and moves on: first the session,
//! then the entries, which it decodes and keeps. It reaches the end once and
//! stays there.

use vstd::prelude::*;

use crate::client::{
    decoded_entries, entries_view, option_text, pairs_view, range_query, AuthRequest, AuthResponse, ClientModel,
    Data, DataRequest, DataView, SoracomHarvestClient,
};
use crate::decimal::{decimal_text, i64_text};
use crate::error::SoracomHarvestClientError;

verus! {

/// Where the opening of a data client stands.
pub enum OpenPhase {
    /// No session yet: the credentials are to be sent.
    AwaitingSession,
    /// A session, but no entries yet: they are to be fetched.
    AwaitingEntries,
    /// The entries were fetched and decoded.
    Ready,
    /// The opening failed, for the reason held.
    Failed(SoracomHarvestClientError),
}

/// What a data client is told of the request it asked for.
pub enum OpenEvent {
    /// The service opened a session.
    Authenticated(AuthResponse),
    /// The service turned the credentials down.
    Rejected,
    /// The service returned the entries of the device.
    Fetched(Vec<Data>),
    /// The request could not be carried out, or its answer could not be
    /// read.
    Failed(SoracomHarvestClientError),
}

/// What a data client asks for next.
pub enum OpenStep {
    /// The credentials are to be sent, and the answer reported.
    Authenticate(AuthRequest),
    /// The entries are to be fetched, and the answer reported.
    Fetch(DataRequest),
    /// Nothing more is to be done: the opening has ended, well or not.
    Done(Result<(), SoracomHarvestClientError>),
}

/// An event, as plain mathematical values.
pub enum EventModel {
    /// The service opened the session held.
    Authenticated { api_key: Seq<char>, token: Seq<char>, user_name: Option<Seq<char>>, operator_id: Option<Seq<char>> },
    /// The service turned the credentials down.
    Rejected,
    /// The service returned the entries held.
    Fetched(Seq<DataView>),
    /// The request failed with the error held.
    Failed(SoracomHarvestClientError),
}

/// A step, as plain mathematical values.
pub enum StepModel {
    /// The credentials are to be posted to the address.
    Authenticate { url: Seq<char>, auth_key_id: Seq<char>, auth_key: Seq<char> },
    /// The entries are to be fetched from the address with the headers and
    /// the query.
    Fetch { url: Seq<char>, headers: Seq<(Seq<char>, Seq<char>)>, query: Seq<(Seq<char>, Seq<char>)> },
    /// The opening has ended with the outcome held.
    Done(Result<(), SoracomHarvestClientError>),
}

impl View for OpenEvent {
    type V = EventModel;

    open spec fn view(&self) -> EventModel {
        match self {
            OpenEvent::Authenticated(response) => EventModel::Authenticated {
                api_key: response.api_key@,
                token: response.token@,
                user_name: option_text(response.user_name),
                operator_id: option_text(response.operator_id),
            },
            OpenEvent::Rejected => EventModel::Rejected,
            OpenEvent::Fetched(entries) => EventModel::Fetched(entries_view(entries@)),
            OpenEvent::Failed(error) => EventModel::Failed(*error),
        }
    }
}

impl View for OpenStep {
    type V = StepModel;

    open spec fn view(&self) -> StepModel {
        match self {
            OpenStep::Authenticate(request) => StepModel::Authenticate {
                url: request.url@,
                auth_key_id: request.auth_key_id@,
                auth_key: request.auth_key@,
            },
            OpenStep::Fetch(request) => StepModel::Fetch {
                url: request.url@,
                headers: pairs_view(request.headers@),
                query: pairs_view(request.query@),
            },
            OpenStep::Done(outcome) => StepModel::Done(*outcome),
        }
    }
}

/// A data client, as plain mathematical values: the client of the service,
/// the snapshot, the options of the table and the phase of the opening.
pub struct DataClientModel {
    /// The client of the service.
    pub client: ClientModel,
    /// The snapshot; empty until the entries have arrived.
    pub entries: Seq<DataView>,
    /// The identifier of the device.
    pub imsi: Seq<char>,
    /// The start of the time range, in milliseconds.
    pub from: i64,
    /// The end of the time range, in milliseconds.
    pub to: i64,
    /// The largest number of entries to fetch.
    pub limit: u32,
    /// Where the opening stands.
    pub phase: OpenPhase,
}

impl DataClientModel {
    /// The data client after an event. The answer to the pending request
    /// moves it on: a session leads to the fetch, the entries are decoded
    /// and kept, a refusal or a failure ends the opening. An event that does
    /// not answer the pending request changes nothing; once the opening has
    /// ended, no event does.
    pub open spec fn after(self, event: EventModel) -> DataClientModel {
        match (self.phase, event) {
            (OpenPhase::AwaitingSession, EventModel::Authenticated { api_key, token, user_name, operator_id }) => {
                DataClientModel {
                    client: self.client.authenticated(api_key, token, user_name, operator_id),
                    phase: OpenPhase::AwaitingEntries,
                    ..self
                }
            },
            (OpenPhase::AwaitingSession, EventModel::Rejected) => DataClientModel {
                phase: OpenPhase::Failed(SoracomHarvestClientError::Auth),
                ..self
            },
            (OpenPhase::AwaitingSession, EventModel::Failed(error)) => DataClientModel {
                phase: OpenPhase::Failed(error),
                ..self
            },
            (OpenPhase::AwaitingEntries, EventModel::Fetched(entries)) => DataClientModel {
                entries: decoded_entries(entries),
                phase: OpenPhase::Ready,
                ..self
            },
            (OpenPhase::AwaitingEntries, EventModel::Failed(error)) => DataClientModel {
                phase: OpenPhase::Failed(error),
                ..self
            },
            _ => self,
        }
    }

    /// What the data client asks for in its phase.
    pub open spec fn pending(self) -> StepModel {
        match self.phase {
            OpenPhase::AwaitingSession => StepModel::Authenticate {
                url: self.client.auth_url(),
                auth_key_id: self.client.auth_key_id,
                auth_key: self.client.auth_key_secret,
            },
            OpenPhase::AwaitingEntries => StepModel::Fetch {
                url: self.client.data_url(self.imsi),
                headers: self.client.session_headers(),
                query: range_query(self.from, self.to, self.limit),
            },
            OpenPhase::Ready => StepModel::Done(Ok(())),
            OpenPhase::Failed(error) => StepModel::Done(Err(error)),
        }
    }
}

/// The data of a table: the client of the service, the options that the
/// table was created with, and the snapshot once it has been fetched.
pub struct HarvestDataClient {
    client: SoracomHarvestClient,
    data: Vec<Data>,
    imsi: String,
    from: i64,
    to: i64,
    limit: u32,
    phase: OpenPhase,
}

impl View for HarvestDataClient {
    type V = DataClientModel;

    closed spec fn view(&self) -> DataClientModel {
        DataClientModel {
            client: self.client@,
            entries: entries_view(self.data@),
            imsi: self.imsi@,
            from: self.from,
            to: self.to,
            limit: self.limit,
            phase: self.phase,
        }
    }
}

impl HarvestDataClient {
    /// Makes the data client of a table from the client of the service and
    /// the options of the table. It holds no entries and awaits a session.
    pub fn new(client: SoracomHarvestClient, imsi: String, from: i64, to: i64, limit: u32) -> (data_client: Self)
        ensures
            data_client@ == (DataClientModel {
                client: client@,
                entries: Seq::empty(),
                imsi: imsi@,
                from,
                to,
                limit,
                phase: OpenPhase::AwaitingSession,
            }),
    {
        let data_client = HarvestDataClient {
            client,
            data: Vec::new(),
            imsi,
            from,
            to,
            limit,
            phase: OpenPhase::AwaitingSession,
        };
        assert(entries_view(data_client.data@) =~= Seq::<DataView>::empty());
        data_client
    }

    /// What is to be done next for the client to be opened.
    pub fn pending(&self) -> (step: OpenStep)
        ensures
            step@ == self@.pending(),
    {
        match &self.phase {
            OpenPhase::AwaitingSession => OpenStep::Authenticate(self.client.auth_request()),
            OpenPhase::AwaitingEntries => OpenStep::Fetch(
                self.client.data_entries_request_at(
                    self.imsi.as_str(),
                    Some(self.from),
                    Some(self.to),
                    Some(self.limit),
                    0,
                    0,
                ),
            ),
            OpenPhase::Ready => OpenStep::Done(Ok(())),
            OpenPhase::Failed(error) => OpenStep::Done(Err(error.clone())),
        }
    }

    /// Authenticate with provided credential and get data, one step at a
    /// time: takes what came of the pending request and says what is to be
    /// done next. The snapshot is set once, when the entries arrive, and
    /// never again.
    pub fn open(&mut self, event: OpenEvent) -> (step: OpenStep)
        ensures
            final(self)@ == old(self)@.after(event@),
            step@ == final(self)@.pending(),
    {
        match &self.phase {
            OpenPhase::AwaitingSession => match event {
                OpenEvent::Authenticated(response) => {
                    self.client = self.client.auth(response);
                    self.phase = OpenPhase::AwaitingEntries;
                },
                OpenEvent::Rejected => {
                    self.phase = OpenPhase::Failed(SoracomHarvestClientError::Auth);
                },
                OpenEvent::Failed(error) => {
                    self.phase = OpenPhase::Failed(error);
                },
                OpenEvent::Fetched(_) => {},
            },
            OpenPhase::AwaitingEntries => match event {
                OpenEvent::Fetched(entries) => {
                    self.data = self.client.get_data_entries(entries);
                    self.phase = OpenPhase::Ready;
                },
                OpenEvent::Failed(error) => {
                    self.phase = OpenPhase::Failed(error);
                },
                OpenEvent::Authenticated(_) => {},
                OpenEvent::Rejected => {},
            },
            OpenPhase::Ready => {},
            OpenPhase::Failed(_) => {},
        }
        self.pending()
    }

    /// A reader of its own over the snapshot, placed on the first row.
    pub(crate) fn reader(&self) -> (reader: HarvestDataReader)
        ensures
            reader@ == CursorModel::fresh(self@.entries),
    {
        HarvestDataReader::new(self.data.clone())
    }

    /// Get reader for the data: a reader of its own over the snapshot,
    /// placed on the first row. Nothing is fetched and the client stays as
    /// it is.
    pub fn get_reader(&mut self) -> (reader: HarvestDataReader)
        ensures
            reader@ == CursorModel::fresh(old(self)@.entries),
            final(self)@ == old(self)@,
    {
        self.reader()
    }
}

/// A cursor over a snapshot, as plain mathematical values: the entries and
/// the position among them. A position at or past the number of entries is
/// the end of the rows.
pub struct CursorModel {
    /// The entries of the snapshot, in order.
    pub entries: Seq<DataView>,
    /// The number of rows that lie before the cursor.
    pub position: nat,
}

impl CursorModel {
    /// The cursor that a scan of `entries` starts with.
    pub open spec fn fresh(entries: Seq<DataView>) -> CursorModel {
        CursorModel { entries, position: 0 }
    }

    /// The cursor one row further on.
    pub open spec fn advanced(self) -> CursorModel {
        CursorModel { entries: self.entries, position: self.position + 1 }
    }

    /// The cursor `steps` rows further on.
    pub open spec fn advanced_by(self, steps: nat) -> CursorModel
        decreases steps,
    {
        if steps == 0 {
            self
        } else {
            self.advanced_by((steps - 1) as nat).advanced()
        }
    }

    /// The cursor back at the first row.
    pub open spec fn rewound(self) -> CursorModel {
        CursorModel { entries: self.entries, position: 0 }
    }

    /// Whether the cursor is past the last row.
    pub open spec fn at_end(self) -> bool {
        self.position >= self.entries.len()
    }

    /// The identifier of the row under the cursor: its position.
    pub open spec fn rowid(self) -> int {
        self.position as int
    }

    /// The text of a column of the row under the cursor: the time in
    /// decimal for column 0, the content type for column 1 and the content
    /// for any other column; the empty text past the last row.
    pub open spec fn column(self, ordinal: int) -> Seq<char> {
        if self.at_end() {
            Seq::empty()
        } else if ordinal == 0 {
            decimal_text(self.entries[self.position as int].time as int)
        } else if ordinal == 1 {
            self.entries[self.position as int].content_type
        } else {
            self.entries[self.position as int].content
        }
    }
}

/// Reader for given data.
pub struct HarvestDataReader {
    data: Vec<Data>,
    current_index: usize,
}

impl View for HarvestDataReader {
    type V = CursorModel;

    closed spec fn view(&self) -> CursorModel {
        CursorModel { entries: entries_view(self.data@), position: self.current_index as nat }
    }
}

impl HarvestDataReader {
    /// Returns a new reader for given data, placed on the first row.
    pub fn new(data: Vec<Data>) -> (reader: Self)
        ensures
            reader@ == CursorModel::fresh(entries_view(data@)),
    {
        HarvestDataReader { data, current_index: 0 }
    }

    /// Get current index: the position of the reader, which is the
    /// identifier of its row. A position that does not fit in 32 bits is
    /// cut down to its low 32 bits.
    pub fn get_index(&self) -> (index: u32)
        ensures
            index == self@.position as u32,
            self@.position <= u32::MAX ==> index as int == self@.rowid(),
    {
        #[verifier::truncate]
        (self.current_index as u32)
    }

    /// Increment index: the reader moves one row on and its data stay.
    pub fn move_next(&mut self)
        requires
            old(self)@.position < usize::MAX,
        ensures
            final(self)@ == old(self)@.advanced(),
        no_unwind
    {
        self.current_index += 1;
    }

    /// Puts the reader back on the first row; its data stay.
    pub fn reset(&mut self)
        ensures
            final(self)@ == old(self)@.rewound(),
        no_unwind
    {
        self.current_index = 0;
    }

    /// Returns if the current index has a data: whether the reader is on a
    /// row and not past the last one. A reader on a row can always move on.
    pub fn has_value(&self) -> (has: bool)
        ensures
            has == !self@.at_end(),
            has ==> self@.position < usize::MAX,
    {
        self.current_index < self.data.len()
    }

    /// Get value of the current index: the text of column `i` of the row
    /// under the reader, or the empty text past the last row.
    pub fn get_value(&self, i: usize) -> (value: String)
        ensures
            value@ == self@.column(i as int),
    {
        if self.current_index < self.data.len() {
            let entry = &self.data[self.current_index];
            if i == 0 {
                i64_text(entry.time)
            } else if i == 1 {
                entry.content_type.clone()
            } else {
                entry.content.clone()
            }
        } else {
            String::new()
        }
    }
}

/// The snapshot is fetched once: when the opening has ended, well or not,
/// no event changes the data client, and it asks for nothing more.
pub proof fn law_snapshot_is_fetched_once(state: DataClientModel, event: EventModel)
    requires
        state.phase is Ready || state.phase is Failed,
    ensures
        state.after(event) == state,
        state.pending() is Done,
{
}

/// The opening succeeds exactly along one path: the session, then the
/// entries, which are kept decoded and in their order.
pub proof fn law_open_decodes_what_was_fetched(state: DataClientModel, session: EventModel, fetched: Seq<DataView>)
    requires
        state.phase is AwaitingSession,
        session is Authenticated,
    ensures
        state.after(session).pending() is Fetch,
        state.after(session).after(EventModel::Fetched(fetched)).phase is Ready,
        state.after(session).after(EventModel::Fetched(fetched)).entries == decoded_entries(fetched),
        state.after(session).after(EventModel::Fetched(fetched)).pending() == StepModel::Done(Ok(())),
{
}

/// A scan visits the positions in order: `steps` rows on from a fresh
/// cursor the position is `steps`, the entries are what they were, and the
/// cursor is at the end exactly when `steps` is no less than their number.
/// Rewinding from anywhere gives a fresh cursor again.
pub proof fn law_full_scan(entries: Seq<DataView>, steps: nat)
    ensures
        CursorModel::fresh(entries).advanced_by(steps).position == steps,
        CursorModel::fresh(entries).advanced_by(steps).entries == entries,
        CursorModel::fresh(entries).advanced_by(steps).at_end() <==> steps >= entries.len(),
        CursorModel::fresh(entries).advanced_by(steps).rewound() == CursorModel::fresh(entries),
    decreases steps,
{
    if steps > 0 {
        law_full_scan(entries, (steps - 1) as nat);
    }
}

/// The identifier of a row is the position of the cursor and nothing else:
/// it does not depend on the entries, and two cursors at one position give
/// one identifier whatever rows they stand on.
pub proof fn law_rowid_is_position(cursor: CursorModel, other: CursorModel)
    ensures
        cursor.rowid() == cursor.position,
        cursor.position == other.position ==> cursor.rowid() == other.rowid(),
        cursor.advanced().rowid() == cursor.rowid() + 1,
        cursor.rewound().rowid() == 0,
{
}

} // verus!
