//! The life of a virtual table as the engine drives it: creation from the
//! arguments of the table, cursors that scan the snapshot, and the values
//! and status codes that go back to the engine.
//!
//! A table is created from its arguments and opened step by step; once its
//! entries are there it declares its schema. Every scan is a full pass over
//! the snapshot: a cursor starts on the first row, `filter` puts it back
//! there whatever the engine asks for, and no index is ever offered.

use vstd::prelude::*;
use vstd::string::StringExecFns;
use vstd::string::StringSliceAdditionalSpecFns;
use vstd::utf8::encode_utf8;

use crate::client::{
    decoded_entries, option_text, pairs_view, AuthRequest, ClientModel, DataRequest, DataView, SoracomHarvestClient,
};
use crate::clock::{now_millis, DAY_MILLIS};
use crate::decimal::{decimal_i64, decimal_text, i64_text, law_text_reads_back, parse_i64};
use crate::error::SoracomHarvestClientError;
use crate::harvest_data_client::{
    CursorModel, DataClientModel, EventModel, HarvestDataClient, HarvestDataReader, OpenEvent, OpenPhase, OpenStep,
    StepModel,
};
use crate::module_arguments_parser::{resolve_options, resolved, scanned, texts, OptionsModel};

verus! {

/// Status code the engine reads as success.
pub const SQLITE_OK: i32 = 0;

/// Status code the engine reads as a failure.
pub const SQLITE_ERROR: i32 = 1;

/// Status code that tells the engine to keep the extension loaded.
pub const SQLITE_OK_LOAD_PERMANENTLY: i32 = 256;

/// A value of one cell, typed as the engine is to see it.
#[derive(Debug, PartialEq, Eq)]
pub enum CellValue {
    /// An integer cell.
    Integer(i64),
    /// A text cell.
    Text(String),
}

/// A cell, as plain mathematical values.
pub enum CellModel {
    /// An integer cell.
    Integer(i64),
    /// A text cell.
    Text(Seq<char>),
}

impl View for CellValue {
    type V = CellModel;

    open spec fn view(&self) -> CellModel {
        match self {
            CellValue::Integer(number) => CellModel::Integer(*number),
            CellValue::Text(text) => CellModel::Text(text@),
        }
    }
}

/// The cell that a column text becomes: an integer cell where the text
/// denotes a signed 64-bit decimal integer, a text cell otherwise. The rule
/// is the same for every column.
pub open spec fn cell_of(text: Seq<char>) -> CellModel {
    match decimal_i64(text) {
        Some(number) => CellModel::Integer(number),
        None => CellModel::Text(text),
    }
}

/// Types the text of a column for the engine: an integer where the text
/// reads as one, the text itself otherwise.
pub fn yield_cell_value(value: String) -> (cell: CellValue)
    ensures
        cell@ == cell_of(value@),
{
    match parse_i64(value.as_str()) {
        Some(number) => CellValue::Integer(number),
        None => CellValue::Text(value),
    }
}

/// The bytes of `text` as a C string: its UTF-8 encoding and a zero byte
/// after it. There are none where the encoding itself holds a zero byte.
pub open spec fn c_string(text: Seq<char>) -> Option<Seq<u8>> {
    let bytes = encode_utf8(text);
    if exists|i: int| 0 <= i < bytes.len() && bytes[i] == 0 {
        None
    } else {
        Some(bytes.push(0u8))
    }
}

/// Convert error message to the bytes that are handed to the engine: the
/// message and a terminating zero byte, to be copied into memory of the
/// engine's own. A message with a zero byte inside has no such form.
pub fn error_to_sqlite3_string(err: &str) -> (bytes: Option<Vec<u8>>)
    ensures
        match bytes {
            Some(framed) => c_string(err@) == Some(framed@),
            None => c_string(err@) is None,
        },
{
    let raw = err.as_bytes();
    let mut framed: Vec<u8> = Vec::new();
    let mut i: usize = 0;
    while i < raw.len()
        invariant
            i <= raw.len(),
            raw@ == encode_utf8(err@),
            framed@ == raw@.take(i as int),
            forall|j: int| 0 <= j < i ==> raw@[j] != 0,
        decreases raw.len() - i,
    {
        if raw[i] == 0 {
            return None;
        }
        framed.push(raw[i]);
        assert(framed@ =~= raw@.take(i + 1));
        i += 1;
    }
    assert(raw@.take(raw@.len() as int) =~= raw@);
    framed.push(0);
    Some(framed)
}

/// The columns of `columns`, separated by a comma and a space.
pub open spec fn joined_columns(columns: Seq<Seq<char>>) -> Seq<char>
    decreases columns.len(),
{
    if columns.len() == 0 {
        Seq::empty()
    } else if columns.len() == 1 {
        columns[0]
    } else {
        joined_columns(columns.drop_last()) + ", "@ + columns.last()
    }
}

/// The statement that declares a table of the given columns.
pub open spec fn declare_statement(columns: Seq<Seq<char>>) -> Seq<char> {
    "CREATE TABLE harvest_data ("@ + joined_columns(columns) + ")"@
}

/// The three columns of every table, in order: the time as an integer, the
/// content type and the value as text.
pub open spec fn schema_columns() -> Seq<Seq<char>> {
    seq!["time INTEGER"@, "content_type TEXT"@, "value TEXT"@]
}

/// Writes the statement that declares a table of the given columns.
pub fn create_declare_table_statement(columns: Vec<String>) -> (statement: String)
    ensures
        statement@ == declare_statement(texts(columns@)),
{
    let mut list = String::new();
    let mut i: usize = 0;
    assert(texts(columns@).take(0) =~= Seq::<Seq<char>>::empty());
    while i < columns.len()
        invariant
            i <= columns.len(),
            list@ == joined_columns(texts(columns@).take(i as int)),
        decreases columns.len() - i,
    {
        let ghost before = texts(columns@).take(i as int);
        let ghost after = texts(columns@).take(i + 1);
        assert(after.drop_last() =~= before);
        assert(after.last() == columns@[i as int]@);
        if i > 0 {
            list.append(", ");
        } else {
            assert(list@ + columns@[i as int]@ =~= columns@[i as int]@);
        }
        list.append(columns[i].as_str());
        i += 1;
    }
    assert(texts(columns@).take(columns@.len() as int) =~= texts(columns@));
    let mut statement = String::from_str("CREATE TABLE harvest_data (");
    statement.append(list.as_str());
    statement.append(")");
    statement
}

/// The columns that every table declares.
pub fn declared_columns() -> (columns: Vec<String>)
    ensures
        texts(columns@) == schema_columns(),
{
    let mut columns: Vec<String> = Vec::new();
    columns.push(String::from_str("time INTEGER"));
    columns.push(String::from_str("content_type TEXT"));
    columns.push(String::from_str("value TEXT"));
    assert(texts(columns@) =~= schema_columns());
    columns
}

/// What the engine is told when a table cannot be created: the status code
/// and the message that says why.
#[derive(Debug, PartialEq, Eq)]
pub struct CreateFailure {
    /// The status code of the failure.
    pub status: i32,
    /// The reason, for a reader.
    pub message: String,
}

/// A table in the making: its options are settled, its snapshot is still
/// to be fetched.
pub struct TableCreation {
    data: HarvestDataClient,
}

impl View for TableCreation {
    type V = DataClientModel;

    closed spec fn view(&self) -> DataClientModel {
        self.data@
    }
}

/// What is to be done next for a table to be created. While a request is
/// to be made the table is still in the making; once the entries are there
/// it is a table, and where the creation fails there is none.
pub enum CreateStep {
    /// The credentials are to be sent, and the answer told to the table in
    /// the making.
    Authenticate(TableCreation, AuthRequest),
    /// The entries are to be fetched, and the answer told to the table in
    /// the making.
    Fetch(TableCreation, DataRequest),
    /// The entries are there: the table is to be declared to the engine
    /// with the statement held, and then to be kept.
    Declare(VirtualTable, String),
    /// The table cannot be created: the engine is to be told so.
    Fail(CreateFailure),
}

/// A step of the creation, as plain mathematical values.
pub enum CreateStepModel {
    /// The credentials are to be posted on behalf of the table in the
    /// making.
    Authenticate { creation: DataClientModel, url: Seq<char>, auth_key_id: Seq<char>, auth_key: Seq<char> },
    /// The entries are to be fetched on behalf of the table in the making.
    Fetch {
        creation: DataClientModel,
        url: Seq<char>,
        headers: Seq<(Seq<char>, Seq<char>)>,
        query: Seq<(Seq<char>, Seq<char>)>,
    },
    /// The table is there and is to be declared with the statement.
    Declare { table: DataClientModel, statement: Seq<char> },
    /// The creation has failed with the status and the message.
    Fail { status: i32, message: Seq<char> },
}

impl View for CreateStep {
    type V = CreateStepModel;

    open spec fn view(&self) -> CreateStepModel {
        match self {
            CreateStep::Authenticate(creation, request) => CreateStepModel::Authenticate {
                creation: creation@,
                url: request.url@,
                auth_key_id: request.auth_key_id@,
                auth_key: request.auth_key@,
            },
            CreateStep::Fetch(creation, request) => CreateStepModel::Fetch {
                creation: creation@,
                url: request.url@,
                headers: pairs_view(request.headers@),
                query: pairs_view(request.query@),
            },
            CreateStep::Declare(table, statement) => CreateStepModel::Declare { table: table@, statement: statement@ },
            CreateStep::Fail(failure) => CreateStepModel::Fail { status: failure.status, message: failure.message@ },
        }
    }
}

/// The step that a table in the making stands at: the request that it
/// awaits the answer to; once its entries are there, the table itself and
/// the declaration of the fixed schema; once it has failed, the failure
/// with the message of the error.
pub open spec fn create_step_of(creation: DataClientModel) -> CreateStepModel {
    match creation.pending() {
        StepModel::Authenticate { url, auth_key_id, auth_key } => CreateStepModel::Authenticate {
            creation,
            url,
            auth_key_id,
            auth_key,
        },
        StepModel::Fetch { url, headers, query } => CreateStepModel::Fetch { creation, url, headers, query },
        StepModel::Done(Ok(_)) => CreateStepModel::Declare {
            table: creation,
            statement: declare_statement(schema_columns()),
        },
        StepModel::Done(Err(error)) => CreateStepModel::Fail { status: SQLITE_ERROR, message: error.message() },
    }
}

/// The table in the making that the options `options` and the credentials
/// start: a client without a session for the coverage of the options, no
/// entries yet, and the session still to be asked for.
pub open spec fn table_of(options: OptionsModel, auth_key_id: Seq<char>, auth_key_secret: Seq<char>) -> DataClientModel {
    DataClientModel {
        client: ClientModel {
            auth_key_id,
            auth_key_secret,
            endpoint: options.endpoint,
            api_key: Seq::empty(),
            token: Seq::empty(),
            user_name: None,
            operator_id: None,
        },
        entries: Seq::empty(),
        imsi: options.imsi,
        from: options.from,
        to: options.to,
        limit: options.limit,
        phase: OpenPhase::AwaitingSession,
    }
}

/// The first step of creating a table from `args`, given the time a day
/// before now and the time now: the session is asked for on behalf of the
/// options that the arguments resolve to; where they resolve to none the
/// creation fails with the message of their error.
pub open spec fn created(
    args: Seq<Seq<char>>,
    auth_key_id: Seq<char>,
    auth_key_secret: Seq<char>,
    day_before: i64,
    now: i64,
) -> CreateStepModel {
    match resolved(scanned(args), day_before, now) {
        Ok(options) => create_step_of(table_of(options, auth_key_id, auth_key_secret)),
        Err(error) => CreateStepModel::Fail { status: SQLITE_ERROR, message: error.message() },
    }
}

impl TableCreation {
    /// The step that the table in the making stands at.
    fn step(self) -> (step: CreateStep)
        ensures
            step@ == create_step_of(self@),
    {
        match self.data.pending() {
            OpenStep::Authenticate(request) => CreateStep::Authenticate(self, request),
            OpenStep::Fetch(request) => CreateStep::Fetch(self, request),
            OpenStep::Done(Ok(_)) => CreateStep::Declare(
                VirtualTable { data: self.data },
                create_declare_table_statement(declared_columns()),
            ),
            OpenStep::Done(Err(error)) => CreateStep::Fail(
                CreateFailure { status: SQLITE_ERROR, message: error.to_string() },
            ),
        }
    }

    /// Takes what came of the pending request and says what is to be done
    /// next. An answer that is not the one awaited changes nothing, and the
    /// same request is to be made again.
    pub fn proceed(self, event: OpenEvent) -> (step: CreateStep)
        ensures
            step@ == create_step_of(self@.after(event@)),
    {
        let mut creation = self;
        creation.data.open(event);
        creation.step()
    }
}

/// A table as the engine holds it: the data client that owns the snapshot
/// and the options that it was fetched with. There is no table before its
/// snapshot was fetched, and the snapshot of a table never changes.
pub struct VirtualTable {
    data: HarvestDataClient,
}

impl View for VirtualTable {
    type V = DataClientModel;

    closed spec fn view(&self) -> DataClientModel {
        self.data@
    }
}

impl VirtualTable {
    /// What holds of every table: its snapshot has been fetched.
    #[verifier::type_invariant]
    spec fn fetched(self) -> bool {
        self.data@.phase is Ready
    }

    /// Begins the creation of a table from its arguments and the
    /// credentials, given the time a day before now and the time now. Where
    /// the arguments cannot be resolved there is no table, and the failure
    /// says why.
    pub fn create_at(args: &Vec<String>, auth_key_id: String, auth_key_secret: String, day_before: i64, now: i64) -> (step:
        CreateStep)
        ensures
            step@ == created(texts(args@), auth_key_id@, auth_key_secret@, day_before, now),
    {
        match resolve_options(args, day_before, now) {
            Ok((imsi, endpoint, from, to, limit)) => {
                let client = SoracomHarvestClient::new(auth_key_id, auth_key_secret, endpoint);
                let creation = TableCreation { data: HarvestDataClient::new(client, imsi, from, to, limit) };
                creation.step()
            },
            Err(error) => CreateStep::Fail(CreateFailure { status: SQLITE_ERROR, message: error.to_string() }),
        }
    }

    /// Begins the creation of a table from its arguments and the
    /// credentials. The clock is read once: a time range that the arguments
    /// leave open starts a day before the reading, or ends at it.
    pub fn create(args: &Vec<String>, auth_key_id: String, auth_key_secret: String) -> (step: CreateStep)
        ensures
            exists|now: i64|
                now >= 0 && step@ == #[trigger] created(
                    texts(args@),
                    auth_key_id@,
                    auth_key_secret@,
                    (now - DAY_MILLIS) as i64,
                    now,
                ),
    {
        let now = now_millis();
        Self::create_at(args, auth_key_id, auth_key_secret, now - DAY_MILLIS, now)
    }

    /// Begins the connection to a table: the same as its creation.
    pub fn connect(args: &Vec<String>, auth_key_id: String, auth_key_secret: String) -> (step: CreateStep)
        ensures
            exists|now: i64|
                now >= 0 && step@ == #[trigger] created(
                    texts(args@),
                    auth_key_id@,
                    auth_key_secret@,
                    (now - DAY_MILLIS) as i64,
                    now,
                ),
    {
        Self::create(args, auth_key_id, auth_key_secret)
    }

    /// Tells the engine which index to use: none. Whatever the engine would
    /// like to narrow a scan by, it has to scan the whole table.
    pub fn best_index(&self) -> (plan: (i32, Option<i32>))
        ensures
            plan == (SQLITE_OK, None::<i32>),
    {
        (SQLITE_OK, None)
    }

    /// Opens a cursor over the snapshot of the table, placed on its first
    /// row, and notes the time of the clock on it. The table has its
    /// snapshot, and nothing is fetched.
    pub fn open(&self) -> (cursor: VirtualCursor)
        ensures
            self@.phase is Ready,
            cursor@ == CursorModel::fresh(self@.entries),
            cursor.opened() >= 0,
    {
        proof {
            use_type_invariant(self);
        }
        VirtualCursor { reader: self.data.reader(), initialized_at: now_millis() }
    }

    /// Releases a table and its snapshot. Without a table there is nothing
    /// to release, and that is no failure.
    pub fn destroy(table: Option<VirtualTable>) -> (status: i32)
        ensures
            status == SQLITE_OK,
    {
        SQLITE_OK
    }

    /// Releases a table that was connected to: the same as destroying it.
    pub fn disconnect(table: Option<VirtualTable>) -> (status: i32)
        ensures
            status == SQLITE_OK,
    {
        Self::destroy(table)
    }
}

/// A cursor as the engine holds it: a reader of its own over the snapshot
/// of the table, and the time at which it was opened.
pub struct VirtualCursor {
    reader: HarvestDataReader,
    initialized_at: i64,
}

impl View for VirtualCursor {
    type V = CursorModel;

    closed spec fn view(&self) -> CursorModel {
        self.reader@
    }
}

impl VirtualCursor {
    /// What holds of every cursor: it stands on a row or on the end, never
    /// past it.
    #[verifier::type_invariant]
    spec fn within(self) -> bool {
        self.reader@.position <= self.reader@.entries.len()
    }

    /// The time at which the cursor was opened, in milliseconds.
    pub closed spec fn opened(&self) -> i64 {
        self.initialized_at
    }

    /// Returns the time at which the cursor was opened, in milliseconds.
    pub fn initialized_at(&self) -> (millis: i64)
        ensures
            millis == self.opened(),
    {
        self.initialized_at
    }

    /// Starts a scan: the cursor goes back to the first row, whatever the
    /// engine asks the scan to be narrowed by.
    pub fn filter(&mut self) -> (status: i32)
        ensures
            status == SQLITE_OK,
            final(self)@ == old(self)@.rewound(),
            final(self).opened() == old(self).opened(),
    {
        self.reader.reset();
        SQLITE_OK
    }

    /// Moves the cursor to the next row. Past the last row there is no next
    /// one, and the cursor stays where it is.
    pub fn next(&mut self) -> (status: i32)
        ensures
            status == SQLITE_OK,
            final(self)@ == (if old(self)@.at_end() {
                old(self)@
            } else {
                old(self)@.advanced()
            }),
            final(self).opened() == old(self).opened(),
    {
        if self.reader.has_value() {
            self.reader.move_next();
        }
        SQLITE_OK
    }

    /// Tells whether the cursor is past the last row: 1 if it is, 0 if a
    /// row is under it. The cursor is past the last row exactly when its
    /// position is the number of the rows: it never goes further.
    pub fn eof(&self) -> (ended: i32)
        ensures
            ended == (if self@.at_end() {
                1i32
            } else {
                0i32
            }),
            self@.position <= self@.entries.len(),
            ended == 1 <==> self@.position == self@.entries.len(),
    {
        proof {
            use_type_invariant(self);
        }
        if self.reader.has_value() {
            0
        } else {
            1
        }
    }

    /// The cell of column `column` of the row under the cursor: the time
    /// for column 0, the content type for column 1, the content for any
    /// other column, each typed by the one rule for cells.
    pub fn column(&self, column: i32) -> (cell: CellValue)
        ensures
            cell@ == cell_of(self@.column(column as int)),
    {
        let ordinal: usize = if column == 0 {
            0
        } else if column == 1 {
            1
        } else {
            2
        };
        yield_cell_value(self.reader.get_value(ordinal))
    }

    /// The identifier of the row under the cursor: the position of the
    /// cursor. A position that does not fit in 32 bits is cut down to its
    /// low 32 bits.
    pub fn rowid(&self) -> (rowid: i64)
        ensures
            rowid == (self@.position as u32) as i64,
            self@.position <= u32::MAX ==> rowid as int == self@.rowid(),
            self@.position <= self@.entries.len(),
    {
        proof {
            use_type_invariant(self);
        }
        self.reader.get_index() as i64
    }

    /// Releases a cursor. Without a cursor there is nothing to release, and
    /// that is no failure.
    pub fn close(cursor: Option<VirtualCursor>) -> (status: i32)
        ensures
            status == SQLITE_OK,
    {
        SQLITE_OK
    }
}

/// What the engine is told after the module was registered with it, given
/// the status that the registration returned: on success, to keep the
/// extension loaded; else a failure and the message that names the status.
pub open spec fn registration_outcome(result: i32) -> (i32, Option<Seq<char>>) {
    if result == SQLITE_OK {
        (SQLITE_OK_LOAD_PERMANENTLY, None)
    } else {
        (SQLITE_ERROR, Some("Failed to create module, status: "@ + decimal_text(result as int)))
    }
}

/// Decides what the engine is told after the module was registered with it.
pub fn register_module(result: i32) -> (outcome: (i32, Option<String>))
    ensures
        outcome.0 == registration_outcome(result).0,
        option_text(outcome.1) == registration_outcome(result).1,
{
    if result == SQLITE_OK {
        (SQLITE_OK_LOAD_PERMANENTLY, None)
    } else {
        let mut message = String::from_str("Failed to create module, status: ");
        message.append(i64_text(result as i64).as_str());
        (SQLITE_ERROR, Some(message))
    }
}

/// A table comes of one path alone: the session, then the entries. It
/// holds the entries that were fetched, each one decoded, in their order,
/// and declares the fixed schema. A refusal or a failure on the way leaves
/// no table.
pub proof fn law_table_holds_what_was_fetched(creation: DataClientModel, session: EventModel, fetched: Seq<DataView>, error: SoracomHarvestClientError)
    requires
        creation.phase is AwaitingSession,
        session is Authenticated,
    ensures
        create_step_of(creation) is Authenticate,
        create_step_of(creation.after(session)) is Fetch,
        create_step_of(creation.after(session).after(EventModel::Fetched(fetched))) matches CreateStepModel::Declare {
            table,
            statement,
        } && table.entries == decoded_entries(fetched) && statement == declare_statement(schema_columns()),
        create_step_of(creation.after(EventModel::Rejected)) == (CreateStepModel::Fail {
            status: SQLITE_ERROR,
            message: SoracomHarvestClientError::Auth.message(),
        }),
        create_step_of(creation.after(EventModel::Failed(error))) == (CreateStepModel::Fail {
            status: SQLITE_ERROR,
            message: error.message(),
        }),
        create_step_of(creation.after(session).after(EventModel::Failed(error))) == (CreateStepModel::Fail {
            status: SQLITE_ERROR,
            message: error.message(),
        }),
{
}

/// A text that denotes a 64-bit integer becomes an integer cell and any
/// other text stays a text cell, in whichever column it stands.
pub proof fn law_cells_are_typed_by_their_text(text: Seq<char>)
    ensures
        decimal_i64(text) is Some ==> cell_of(text) == CellModel::Integer(decimal_i64(text).unwrap()),
        decimal_i64(text) is None ==> cell_of(text) == CellModel::Text(text),
{
}

/// The text that writes a 64-bit integer is always an integer cell of that
/// number. So the time of every row is an integer cell, and so is a content
/// or a content type that happens to be the text of a number.
pub proof fn law_number_texts_are_integer_cells(number: i64, cursor: CursorModel)
    ensures
        cell_of(decimal_text(number as int)) == CellModel::Integer(number),
        !cursor.at_end() ==> cell_of(cursor.column(0)) == CellModel::Integer(
            cursor.entries[cursor.position as int].time,
        ),
        !cursor.at_end() && cursor.entries[cursor.position as int].content_type == decimal_text(number as int)
            ==> cell_of(cursor.column(1)) == CellModel::Integer(number),
        !cursor.at_end() && cursor.entries[cursor.position as int].content == decimal_text(number as int)
            ==> cell_of(cursor.column(2)) == CellModel::Integer(number),
{
    law_text_reads_back(number);
    if !cursor.at_end() {
        law_text_reads_back(cursor.entries[cursor.position as int].time);
    }
}

/// A cursor that the engine drives from `open` or `filter` with `next`
/// alone never leaves the rows: `steps` calls on, it stands on row `steps`
/// or, where the rows have run out, on the end.
pub open spec fn driven(cursor: CursorModel, steps: nat) -> CursorModel
    decreases steps,
{
    if steps == 0 {
        cursor
    } else {
        let before = driven(cursor, (steps - 1) as nat);
        if before.at_end() {
            before
        } else {
            before.advanced()
        }
    }
}

/// A full scan: from a fresh cursor, `steps` calls of `next` lead to row
/// `steps` while there are rows, and to the end, which is the number of the
/// rows, from then on. The end is reported there and nowhere else, and
/// `filter` leads back to the first row from anywhere.
pub proof fn law_scan_visits_every_row_once(entries: Seq<DataView>, steps: nat)
    ensures
        driven(CursorModel::fresh(entries), steps).entries == entries,
        steps <= entries.len() ==> driven(CursorModel::fresh(entries), steps).position == steps,
        steps >= entries.len() ==> driven(CursorModel::fresh(entries), steps).position == entries.len(),
        driven(CursorModel::fresh(entries), steps).at_end() <==> driven(CursorModel::fresh(entries), steps).position
            == entries.len(),
        driven(CursorModel::fresh(entries), steps).rowid() == driven(CursorModel::fresh(entries), steps).position,
        driven(CursorModel::fresh(entries), steps).rewound() == CursorModel::fresh(entries),
    decreases steps,
{
    if steps > 0 {
        law_scan_visits_every_row_once(entries, (steps - 1) as nat);
    }
}

} // verus!
