//! The parser of the arguments that a table is created with.
//!
//! Each argument has the form `KEY 'value'` or `KEY "value"`. The key is one
//! of `IMSI`, `COVERAGE`, `FROM`, `TO` and `LIMIT`, in any mix of upper and
//! lower case. An argument of any other form is passed over, and so is one
//! whose value cannot be read; what the arguments leave unset is filled in
//! afterwards.

use vstd::prelude::*;
use vstd::string::StrSliceExecFns;
use vstd::string::StringExecFns;

use crate::client::DEFAULT_LIMIT;
use crate::clock::{now_millis, DAY_MILLIS};
use crate::decimal::{decimal_i64, decimal_u32, parse_i64_chars, parse_u32_chars};
use crate::endpoint::{endpoint_named, Endpoint};
use crate::error::ArgumentError;
use crate::text::{ascii_lowered, chars_of, spells_ignoring_case};

verus! {

/// The keys that an argument can open with.
#[derive(Debug, PartialEq, Eq, Structural, Clone, Copy)]
pub enum OptionKey {
    /// `IMSI`: the identifier of the device.
    Imsi,
    /// `COVERAGE`: the coverage of the device.
    Coverage,
    /// `FROM`: the start of the time range.
    From,
    /// `TO`: the end of the time range.
    To,
    /// `LIMIT`: the largest number of entries.
    Limit,
}

/// One argument that was understood.
#[derive(Debug, PartialEq, Eq)]
pub enum ModuleArgument {
    /// The identifier of the device; required.
    Imsi(String),
    /// The coverage of the device; optional.
    Coverage(Endpoint),
    /// The start of the time range, in milliseconds; optional.
    From(i64),
    /// The end of the time range, in milliseconds; optional.
    To(i64),
    /// The largest number of entries to fetch; optional.
    Limit(u32),
}

/// What an understood argument holds, as plain mathematical values.
pub enum ArgumentModel {
    /// The identifier of the device.
    Imsi(Seq<char>),
    /// The coverage of the device.
    Coverage(Endpoint),
    /// The start of the time range, in milliseconds.
    From(i64),
    /// The end of the time range, in milliseconds.
    To(i64),
    /// The largest number of entries to fetch.
    Limit(u32),
}

impl View for ModuleArgument {
    type V = ArgumentModel;

    open spec fn view(&self) -> ArgumentModel {
        match self {
            ModuleArgument::Imsi(imsi) => ArgumentModel::Imsi(imsi@),
            ModuleArgument::Coverage(endpoint) => ArgumentModel::Coverage(*endpoint),
            ModuleArgument::From(from) => ArgumentModel::From(*from),
            ModuleArgument::To(to) => ArgumentModel::To(*to),
            ModuleArgument::Limit(limit) => ArgumentModel::Limit(*limit),
        }
    }
}

/// The outcome of reading one argument, as plain mathematical values.
pub open spec fn outcome_view(outcome: Result<ModuleArgument, ArgumentError>) -> Result<
    ArgumentModel,
    ArgumentError,
> {
    match outcome {
        Ok(argument) => Ok(argument@),
        Err(error) => Err(error),
    }
}

/// Whether `c` is white space: one of the characters that Unicode gives the
/// property White_Space.
pub open spec fn is_space(c: char) -> bool {
    let code = c as u32;
    ||| 0x09 <= code <= 0x0D
    ||| code == 0x20
    ||| code == 0x85
    ||| code == 0xA0
    ||| code == 0x1680
    ||| 0x2000 <= code <= 0x200A
    ||| code == 0x2028
    ||| code == 0x2029
    ||| code == 0x202F
    ||| code == 0x205F
    ||| code == 0x3000
}

/// Whether `c` is a single or a double quote.
pub open spec fn is_quote(c: char) -> bool {
    c == '\'' || c == '"'
}

/// The word of a key, in lower case.
pub open spec fn key_word(key: OptionKey) -> Seq<char> {
    match key {
        OptionKey::Imsi => seq!['i', 'm', 's', 'i'],
        OptionKey::Coverage => seq!['c', 'o', 'v', 'e', 'r', 'a', 'g', 'e'],
        OptionKey::From => seq!['f', 'r', 'o', 'm'],
        OptionKey::To => seq!['t', 'o'],
        OptionKey::Limit => seq!['l', 'i', 'm', 'i', 't'],
    }
}

/// Whether `text` opens with the word of `key`, in any mix of upper and
/// lower case.
pub open spec fn has_word(text: Seq<char>, key: OptionKey) -> bool {
    let word = key_word(key);
    text.len() >= word.len() && ascii_lowered(text.take(word.len() as int)) == word
}

/// Whether `text` is an argument with the key `key` whose opening quote
/// stands at `open`: the word of the key, then one or more white-space
/// characters, a quote, one or more characters none of which is a quote,
/// and a quote that ends the text. The two quotes need not be the same.
pub open spec fn option_with(text: Seq<char>, key: OptionKey, open: int) -> bool {
    let word = key_word(key);
    &&& has_word(text, key)
    &&& word.len() < open < text.len() - 2
    &&& forall|i: int| word.len() <= i < open ==> is_space(#[trigger] text[i])
    &&& is_quote(text[open])
    &&& forall|i: int| open < i < text.len() - 1 ==> !is_quote(#[trigger] text[i])
    &&& is_quote(text.last())
}

/// Whether `text` has the form of an argument.
pub open spec fn is_option(text: Seq<char>) -> bool {
    exists|key: OptionKey, open: int| option_with(text, key, open)
}

/// The key of an argument and the value between its quotes.
pub open spec fn option_parts(text: Seq<char>) -> (OptionKey, Seq<char>)
    recommends
        is_option(text),
{
    let (key, open) = choose|key: OptionKey, open: int| option_with(text, key, open);
    (key, text.subrange(open + 1, text.len() - 1))
}

/// What a key and its value mean: the device identifier as it stands, the
/// coverage by its name, the two times as signed 64-bit decimal integers and
/// the limit as an unsigned 32-bit decimal integer. A time or a limit that
/// is no such integer is an error of its own.
pub open spec fn interpreted(key: OptionKey, value: Seq<char>) -> Result<ArgumentModel, ArgumentError> {
    match key {
        OptionKey::Imsi => Ok(ArgumentModel::Imsi(value)),
        OptionKey::Coverage => Ok(ArgumentModel::Coverage(endpoint_named(value))),
        OptionKey::From => match decimal_i64(value) {
            Some(from) => Ok(ArgumentModel::From(from)),
            None => Err(ArgumentError::InvalidFrom),
        },
        OptionKey::To => match decimal_i64(value) {
            Some(to) => Ok(ArgumentModel::To(to)),
            None => Err(ArgumentError::InvalidTo),
        },
        OptionKey::Limit => match decimal_u32(value) {
            Some(limit) => Ok(ArgumentModel::Limit(limit)),
            None => Err(ArgumentError::InvalidLimit),
        },
    }
}

/// What one argument means: an unknown option where the text has not the
/// form of an argument, else what its key and value mean.
pub open spec fn parsed_option(text: Seq<char>) -> Result<ArgumentModel, ArgumentError> {
    if is_option(text) {
        interpreted(option_parts(text).0, option_parts(text).1)
    } else {
        Err(ArgumentError::UnknownOption)
    }
}

/// No white-space character is a quote.
pub proof fn lemma_space_is_no_quote(c: char)
    ensures
        !(is_space(c) && is_quote(c)),
{
}

/// A text opens with the word of at most one key.
pub proof fn lemma_word_is_unique(text: Seq<char>, first: OptionKey, second: OptionKey)
    requires
        has_word(text, first),
        has_word(text, second),
    ensures
        first == second,
{
    let a = ascii_lowered(text.take(key_word(first).len() as int));
    let b = ascii_lowered(text.take(key_word(second).len() as int));
    assert(a[0] == key_word(first)[0]);
    assert(b[0] == key_word(second)[0]);
    assert(a[0] == b[0]);
}

/// A text is an argument in at most one way: its key and the place of its
/// opening quote are determined.
pub proof fn lemma_option_is_unique(text: Seq<char>, key: OptionKey, open: int, other_key: OptionKey, other_open: int)
    requires
        option_with(text, key, open),
        option_with(text, other_key, other_open),
    ensures
        key == other_key,
        open == other_open,
{
    lemma_word_is_unique(text, key, other_key);
    if open < other_open {
        lemma_space_is_no_quote(text[open]);
    } else if other_open < open {
        lemma_space_is_no_quote(text[other_open]);
    }
}

/// The parts of a text that is an argument with the key `key` and its
/// opening quote at `open`.
pub proof fn lemma_option_parts(text: Seq<char>, key: OptionKey, open: int)
    requires
        option_with(text, key, open),
    ensures
        is_option(text),
        option_parts(text) == (key, text.subrange(open + 1, text.len() - 1)),
{
    let (chosen_key, chosen_open) = choose|key: OptionKey, open: int| option_with(text, key, open);
    lemma_option_is_unique(text, key, open, chosen_key, chosen_open);
}

/// The characters of the word of `key`.
fn key_word_chars(key: OptionKey) -> (word: Vec<char>)
    ensures
        word@ == key_word(key),
{
    match key {
        OptionKey::Imsi => vec!['i', 'm', 's', 'i'],
        OptionKey::Coverage => vec!['c', 'o', 'v', 'e', 'r', 'a', 'g', 'e'],
        OptionKey::From => vec!['f', 'r', 'o', 'm'],
        OptionKey::To => vec!['t', 'o'],
        OptionKey::Limit => vec!['l', 'i', 'm', 'i', 't'],
    }
}

/// Tells whether `chars` opens with the word of `key`.
fn starts_with_word(chars: &Vec<char>, key: OptionKey) -> (starts: bool)
    ensures
        starts == has_word(chars@, key),
{
    let word = key_word_chars(key);
    if chars.len() < word.len() {
        return false;
    }
    assert(chars@.subrange(0, word.len() as int) =~= chars@.take(word.len() as int));
    spells_ignoring_case(chars, 0, word.len(), &word)
}

/// Finds the key whose word `chars` opens with.
fn leading_key(chars: &Vec<char>) -> (key: Option<OptionKey>)
    ensures
        match key {
            Some(found) => has_word(chars@, found),
            None => forall|any: OptionKey| !has_word(chars@, any),
        },
{
    if starts_with_word(chars, OptionKey::Imsi) {
        Some(OptionKey::Imsi)
    } else if starts_with_word(chars, OptionKey::Coverage) {
        Some(OptionKey::Coverage)
    } else if starts_with_word(chars, OptionKey::From) {
        Some(OptionKey::From)
    } else if starts_with_word(chars, OptionKey::To) {
        Some(OptionKey::To)
    } else if starts_with_word(chars, OptionKey::Limit) {
        Some(OptionKey::Limit)
    } else {
        None
    }
}

/// Tells whether `c` is white space.
fn is_space_char(c: char) -> (space: bool)
    ensures
        space == is_space(c),
{
    let code: u32 = c as u32;
    (0x09 <= code && code <= 0x0D) || code == 0x20 || code == 0x85 || code == 0xA0 || code == 0x1680 || (0x2000
        <= code && code <= 0x200A) || code == 0x2028 || code == 0x2029 || code == 0x202F || code == 0x205F || code
        == 0x3000
}

/// Tells whether `c` is a quote.
fn is_quote_char(c: char) -> (quote: bool)
    ensures
        quote == is_quote(c),
{
    c == '\'' || c == '"'
}

/// Finds the opening quote of the argument that `chars` spells with the key
/// `key`, if it spells one.
fn opening_quote(chars: &Vec<char>, key: OptionKey) -> (open: Option<usize>)
    requires
        has_word(chars@, key),
    ensures
        match open {
            Some(at) => option_with(chars@, key, at as int),
            None => !is_option(chars@),
        },
{
    let ghost text = chars@;
    let word = key_word_chars(key);
    let len = chars.len();
    let mut open: usize = word.len();
    while open < len && is_space_char(chars[open])
        invariant
            word@ == key_word(key),
            text == chars@,
            len == chars.len(),
            word.len() <= open <= len,
            forall|i: int| word.len() <= i < open ==> is_space(#[trigger] text[i]),
        decreases len - open,
    {
        open += 1;
    }
    // Where the scan stopped is the only place the opening quote can stand.
    assert forall|any: OptionKey, at: int| option_with(text, any, at) implies any == key && at == open by {
        lemma_word_is_unique(text, key, any);
        if at < open {
            lemma_space_is_no_quote(text[at]);
        }
    }
    if open == word.len() || open >= len {
        return None;
    }
    if !is_quote_char(chars[open]) {
        return None;
    }
    if len - open < 3 {
        return None;
    }
    if !is_quote_char(chars[len - 1]) {
        return None;
    }
    let mut i: usize = open + 1;
    while i < len - 1
        invariant
            text == chars@,
            len == chars.len(),
            open < i <= len - 1,
            forall|j: int| open < j < i ==> !is_quote(#[trigger] text[j]),
            forall|any: OptionKey, at: int| option_with(text, any, at) ==> any == key && at == open,
        decreases len - i,
    {
        if is_quote_char(chars[i]) {
            return None;
        }
        i += 1;
    }
    Some(open)
}

/// Reads one argument. An argument that has not the form `KEY 'value'` is
/// an unknown option; a time or a limit that is not a decimal integer of its
/// type is an invalid `from`, `to` or `limit`.
pub fn parse_option(input: &str) -> (parsed: Result<ModuleArgument, ArgumentError>)
    ensures
        outcome_view(parsed) == parsed_option(input@),
{
    let chars = chars_of(input);
    let key = match leading_key(&chars) {
        Some(key) => key,
        None => {
            return Err(ArgumentError::UnknownOption);
        },
    };
    let open = match opening_quote(&chars, key) {
        Some(open) => open,
        None => {
            return Err(ArgumentError::UnknownOption);
        },
    };
    let from: usize = open + 1;
    let to: usize = chars.len() - 1;
    proof {
        lemma_option_parts(input@, key, open as int);
    }
    match key {
        OptionKey::Imsi => Ok(ModuleArgument::Imsi(String::from_str(input.substring_char(from, to)))),
        OptionKey::Coverage => Ok(ModuleArgument::Coverage(Endpoint::from(input.substring_char(from, to)))),
        OptionKey::From => match parse_i64_chars(&chars, from, to) {
            Some(from) => Ok(ModuleArgument::From(from)),
            None => Err(ArgumentError::InvalidFrom),
        },
        OptionKey::To => match parse_i64_chars(&chars, from, to) {
            Some(to) => Ok(ModuleArgument::To(to)),
            None => Err(ArgumentError::InvalidTo),
        },
        OptionKey::Limit => match parse_u32_chars(&chars, from, to) {
            Some(limit) => Ok(ModuleArgument::Limit(limit)),
            None => Err(ArgumentError::InvalidLimit),
        },
    }
}

/// What a list of arguments has settled: the values that a table is made
/// from.
pub struct OptionsModel {
    /// The identifier of the device; empty while none was given.
    pub imsi: Seq<char>,
    /// The coverage of the device.
    pub endpoint: Endpoint,
    /// The start of the time range, in milliseconds; zero while unset.
    pub from: i64,
    /// The end of the time range, in milliseconds; zero while unset.
    pub to: i64,
    /// The largest number of entries to fetch.
    pub limit: u32,
}

/// The options in the order in which the parser hands them out, as plain
/// mathematical values.
pub open spec fn options_view(options: (String, Endpoint, i64, i64, u32)) -> OptionsModel {
    OptionsModel { imsi: options.0@, endpoint: options.1, from: options.2, to: options.3, limit: options.4 }
}

/// The outcome of parsing a list of arguments, as plain mathematical values.
pub open spec fn collected_view(collected: Result<(String, Endpoint, i64, i64, u32), ArgumentError>) -> Result<
    OptionsModel,
    ArgumentError,
> {
    match collected {
        Ok(options) => Ok(options_view(options)),
        Err(error) => Err(error),
    }
}

/// The texts of a list of arguments, in order.
pub open spec fn texts(args: Seq<String>) -> Seq<Seq<char>> {
    Seq::new(args.len(), |i: int| args[i]@)
}

/// The options before any argument is read: no device, global coverage,
/// both times unset, the default limit.
pub open spec fn unset_options() -> OptionsModel {
    OptionsModel { imsi: Seq::empty(), endpoint: Endpoint::Global, from: 0, to: 0, limit: DEFAULT_LIMIT }
}

/// The options after one more argument: an argument that was understood
/// sets its value, any other leaves the options as they were.
pub open spec fn with_argument(options: OptionsModel, outcome: Result<ArgumentModel, ArgumentError>) -> OptionsModel {
    match outcome {
        Ok(ArgumentModel::Imsi(imsi)) => OptionsModel { imsi, ..options },
        Ok(ArgumentModel::Coverage(endpoint)) => OptionsModel { endpoint, ..options },
        Ok(ArgumentModel::From(from)) => OptionsModel { from, ..options },
        Ok(ArgumentModel::To(to)) => OptionsModel { to, ..options },
        Ok(ArgumentModel::Limit(limit)) => OptionsModel { limit, ..options },
        Err(_) => options,
    }
}

/// The options after all of `args`, read from first to last: where a key
/// occurs more than once, its last value stands.
pub open spec fn scanned(args: Seq<Seq<char>>) -> OptionsModel
    decreases args.len(),
{
    if args.len() == 0 {
        unset_options()
    } else {
        with_argument(scanned(args.drop_last()), parsed_option(args.last()))
    }
}

/// The test that the parser makes of a limit. No number is both below 1 and
/// above 1000, so it turns no limit down. Whether a limit outside 1 to 1000
/// is meant to be turned down is an open question; as the test stands, none
/// is.
pub open spec fn limit_rejected(limit: u32) -> bool {
    limit < 1 && limit > 1000
}

/// The options that a table is made from, given what the arguments set,
/// the time a day before now and the time now: without a device there are
/// none; a time left at zero becomes the start or the end of the last day.
pub open spec fn resolved(options: OptionsModel, day_before: i64, now: i64) -> Result<OptionsModel, ArgumentError> {
    if options.imsi.len() == 0 {
        Err(ArgumentError::NoImsi)
    } else if limit_rejected(options.limit) {
        Err(ArgumentError::InvalidLimit)
    } else {
        Ok(
            OptionsModel {
                from: if options.from == 0 {
                    day_before
                } else {
                    options.from
                },
                to: if options.to == 0 {
                    now
                } else {
                    options.to
                },
                ..options
            },
        )
    }
}

/// Reads every argument in turn and keeps what the understood ones set.
pub fn scan_options(args: &Vec<String>) -> (options: (String, Endpoint, i64, i64, u32))
    ensures
        options_view(options) == scanned(texts(args@)),
{
    let mut imsi = String::new();
    let mut endpoint = Endpoint::default();
    let mut from: i64 = 0;
    let mut to: i64 = 0;
    let mut limit: u32 = DEFAULT_LIMIT;
    let mut i: usize = 0;
    assert(texts(args@).take(0) =~= Seq::<Seq<char>>::empty());
    while i < args.len()
        invariant
            i <= args.len(),
            (OptionsModel { imsi: imsi@, endpoint, from, to, limit }) == scanned(texts(args@).take(i as int)),
        decreases args.len() - i,
    {
        let ghost before = texts(args@).take(i as int);
        let ghost after = texts(args@).take(i + 1);
        assert(after.drop_last() =~= before);
        assert(after.last() == args@[i as int]@);
        match parse_option(args[i].as_str()) {
            Ok(ModuleArgument::Imsi(value)) => {
                imsi = value;
            },
            Ok(ModuleArgument::Coverage(value)) => {
                endpoint = value;
            },
            Ok(ModuleArgument::From(value)) => {
                from = value;
            },
            Ok(ModuleArgument::To(value)) => {
                to = value;
            },
            Ok(ModuleArgument::Limit(value)) => {
                limit = value;
            },
            Err(_) => {},
        }
        i += 1;
    }
    assert(texts(args@).take(args@.len() as int) =~= texts(args@));
    (imsi, endpoint, from, to, limit)
}

/// Checks what the arguments set and fills in the times that they left
/// unset.
fn finish_options(options: (String, Endpoint, i64, i64, u32), day_before: i64, now: i64) -> (collected: Result<
    (String, Endpoint, i64, i64, u32),
    ArgumentError,
>)
    ensures
        collected_view(collected) == resolved(options_view(options), day_before, now),
{
    let (imsi, endpoint, mut from, mut to, limit) = options;
    if imsi.as_str().is_empty() {
        return Err(ArgumentError::NoImsi);
    }
    if from == 0 {
        from = day_before;
    }
    if to == 0 {
        to = now;
    }
    if limit < 1 && limit > 1000 {
        return Err(ArgumentError::InvalidLimit);
    }
    Ok((imsi, endpoint, from, to, limit))
}

/// Parses the arguments of a table given the time a day before now and the
/// time now, both in milliseconds.
pub fn resolve_options(args: &Vec<String>, day_before: i64, now: i64) -> (collected: Result<
    (String, Endpoint, i64, i64, u32),
    ArgumentError,
>)
    ensures
        collected_view(collected) == resolved(scanned(texts(args@)), day_before, now),
{
    finish_options(scan_options(args), day_before, now)
}

/// Parses the arguments of a table: the device identifier, the coverage, the
/// time range and the limit. The clock is read for each time that the
/// arguments leave unset: the range then starts a day before the reading, or
/// ends at the reading, and no reading is before the Unix epoch.
pub fn collect_options_from_args(args: &Vec<String>) -> (collected: Result<
    (String, Endpoint, i64, i64, u32),
    ArgumentError,
>)
    ensures
        exists|day_before: i64, now: i64|
            day_before >= -DAY_MILLIS && now >= 0 && collected_view(collected) == #[trigger] resolved(
                scanned(texts(args@)),
                day_before,
                now,
            ),
{
    let options = scan_options(args);
    let day_before: i64 = if options.2 == 0 {
        now_millis() - DAY_MILLIS
    } else {
        0
    };
    let now: i64 = if options.3 == 0 {
        now_millis()
    } else {
        0
    };
    finish_options(options, day_before, now)
}

/// No limit is turned down: the outcome of parsing is never an invalid
/// limit, whatever number the arguments give.
pub proof fn law_no_limit_is_rejected(options: OptionsModel, day_before: i64, now: i64)
    ensures
        !limit_rejected(options.limit),
        resolved(options, day_before, now) != Err::<OptionsModel, ArgumentError>(ArgumentError::InvalidLimit),
{
}

/// Whether `text` is an argument with the key `IMSI`.
pub open spec fn names_device(text: Seq<char>) -> bool {
    parsed_option(text) matches Ok(ArgumentModel::Imsi(_))
}

/// The device of the scanned options is set exactly where an argument names
/// one.
pub proof fn lemma_device_is_set_by_imsi(args: Seq<Seq<char>>)
    ensures
        scanned(args).imsi.len() > 0 <==> exists|i: int| 0 <= i < args.len() && names_device(#[trigger] args[i]),
    decreases args.len(),
{
    if args.len() > 0 {
        let front = args.drop_last();
        let last = args.last();
        lemma_device_is_set_by_imsi(front);
        if names_device(last) {
            assert(is_option(last));
            let (key, open) = choose|key: OptionKey, open: int| option_with(last, key, open);
            assert(option_parts(last).1.len() > 0);
            assert(names_device(args[args.len() - 1]));
        } else if scanned(front).imsi.len() > 0 {
            let i = choose|i: int| 0 <= i < front.len() && names_device(#[trigger] front[i]);
            assert(names_device(args[i]));
        } else {
            assert forall|i: int| 0 <= i < args.len() implies !names_device(#[trigger] args[i]) by {
                if i < front.len() {
                    assert(front[i] == args[i]);
                }
            }
        }
    }
}

/// Parsing fails for want of a device exactly where no argument has the key
/// `IMSI`, whatever other arguments there are; with such an argument it
/// succeeds.
pub proof fn law_imsi_is_required(args: Seq<Seq<char>>, day_before: i64, now: i64)
    ensures
        (forall|i: int| 0 <= i < args.len() ==> !names_device(#[trigger] args[i])) ==> resolved(
            scanned(args),
            day_before,
            now,
        ) == Err::<OptionsModel, ArgumentError>(ArgumentError::NoImsi),
        (exists|i: int| 0 <= i < args.len() && names_device(#[trigger] args[i])) ==> resolved(
            scanned(args),
            day_before,
            now,
        ) is Ok,
{
    lemma_device_is_set_by_imsi(args);
}

/// Whether two outcomes can be taken in either order: they set different
/// options, or one of them sets none.
pub open spec fn set_apart(first: Result<ArgumentModel, ArgumentError>, second: Result<ArgumentModel, ArgumentError>) -> bool {
    match (first, second) {
        (Ok(ArgumentModel::Imsi(_)), Ok(ArgumentModel::Imsi(_))) => false,
        (Ok(ArgumentModel::Coverage(_)), Ok(ArgumentModel::Coverage(_))) => false,
        (Ok(ArgumentModel::From(_)), Ok(ArgumentModel::From(_))) => false,
        (Ok(ArgumentModel::To(_)), Ok(ArgumentModel::To(_))) => false,
        (Ok(ArgumentModel::Limit(_)), Ok(ArgumentModel::Limit(_))) => false,
        _ => true,
    }
}

/// The order of the arguments is free: two neighbours that do not set the
/// same option can change places, wherever in the list they stand, and the
/// options come out the same.
pub proof fn law_order_is_free(front: Seq<Seq<char>>, first: Seq<char>, second: Seq<char>, back: Seq<Seq<char>>)
    requires
        set_apart(parsed_option(first), parsed_option(second)),
    ensures
        scanned(front + seq![first, second] + back) == scanned(front + seq![second, first] + back),
    decreases back.len(),
{
    let one = front + seq![first, second] + back;
    let other = front + seq![second, first] + back;
    if back.len() == 0 {
        assert(one.drop_last() =~= front.push(first));
        assert(other.drop_last() =~= front.push(second));
        assert(front.push(first).drop_last() =~= front);
        assert(front.push(second).drop_last() =~= front);
        assert(one.last() == second);
        assert(other.last() == first);
        assert(front.push(first).last() == first);
        assert(front.push(second).last() == second);
        assert(scanned(front.push(first)) == with_argument(scanned(front), parsed_option(first)));
        assert(scanned(front.push(second)) == with_argument(scanned(front), parsed_option(second)));
        assert(scanned(one) == with_argument(
            with_argument(scanned(front), parsed_option(first)),
            parsed_option(second),
        ));
        assert(scanned(other) == with_argument(
            with_argument(scanned(front), parsed_option(second)),
            parsed_option(first),
        ));
    } else {
        law_order_is_free(front, first, second, back.drop_last());
        assert(one.drop_last() =~= front + seq![first, second] + back.drop_last());
        assert(other.drop_last() =~= front + seq![second, first] + back.drop_last());
        assert(one.last() == other.last());
    }
}

/// The text made of a word, white space, a quote, a value and a quote.
pub open spec fn spelled(word: Seq<char>, spaces: Seq<char>, open: char, value: Seq<char>, close: char) -> Seq<char> {
    word + spaces + seq![open] + value + seq![close]
}

/// Whether the five parts are those of an argument with the key `key`: the
/// word of the key in any mix of upper and lower case, one or more
/// white-space characters, a quote of either kind, a value of one or more
/// characters without a quote, and a quote of either kind.
pub open spec fn well_spelled(key: OptionKey, word: Seq<char>, spaces: Seq<char>, open: char, value: Seq<char>, close: char) -> bool {
    &&& ascii_lowered(word) == key_word(key)
    &&& spaces.len() >= 1
    &&& forall|i: int| 0 <= i < spaces.len() ==> is_space(#[trigger] spaces[i])
    &&& is_quote(open)
    &&& value.len() >= 1
    &&& forall|i: int| 0 <= i < value.len() ==> !is_quote(#[trigger] value[i])
    &&& is_quote(close)
}

/// Every text of the form `KEY 'value'` is read as its key and its value.
pub proof fn law_option_is_key_and_quoted_value(
    key: OptionKey,
    word: Seq<char>,
    spaces: Seq<char>,
    open: char,
    value: Seq<char>,
    close: char,
)
    requires
        well_spelled(key, word, spaces, open, value, close),
    ensures
        is_option(spelled(word, spaces, open, value, close)),
        option_parts(spelled(word, spaces, open, value, close)) == (key, value),
        parsed_option(spelled(word, spaces, open, value, close)) == interpreted(key, value),
{
    let text = spelled(word, spaces, open, value, close);
    let at: int = (word.len() + spaces.len()) as int;
    assert(ascii_lowered(word).len() == word.len());
    assert(text.take(word.len() as int) =~= word);
    assert(option_with(text, key, at)) by {
        assert forall|i: int| key_word(key).len() <= i < at implies is_space(#[trigger] text[i]) by {
            assert(text[i] == spaces[i - word.len()]);
        }
        assert forall|i: int| at < i < text.len() - 1 implies !is_quote(#[trigger] text[i]) by {
            assert(text[i] == value[i - at - 1]);
        }
    }
    lemma_option_parts(text, key, at);
    assert(text.subrange(at + 1, text.len() - 1) =~= value);
}

/// Only texts of the form `KEY 'value'` are read as arguments: a text that
/// is one is made of the five parts, and its key and value are theirs.
pub proof fn law_option_has_the_form(text: Seq<char>)
    requires
        is_option(text),
    ensures
        exists|word: Seq<char>, spaces: Seq<char>, open: char, close: char|
            text == #[trigger] spelled(word, spaces, open, option_parts(text).1, close) && well_spelled(
                option_parts(text).0,
                word,
                spaces,
                open,
                option_parts(text).1,
                close,
            ),
{
    let (key, at) = choose|key: OptionKey, at: int| option_with(text, key, at);
    lemma_option_parts(text, key, at);
    let word = text.take(key_word(key).len() as int);
    let spaces = text.subrange(key_word(key).len() as int, at);
    let value = text.subrange(at + 1, text.len() - 1);
    assert(text =~= spelled(word, spaces, text[at], value, text.last()));
    assert(well_spelled(key, word, spaces, text[at], value, text.last()));
    assert(option_parts(text).0 == key && option_parts(text).1 == value);
    assert(text == spelled(word, spaces, text[at], option_parts(text).1, text.last()) && well_spelled(
        option_parts(text).0,
        word,
        spaces,
        text[at],
        option_parts(text).1,
        text.last(),
    ));
}

/// The argument that gives a table the device `device`.
pub open spec fn imsi_argument(device: Seq<char>) -> Seq<char> {
    seq!['I', 'M', 'S', 'I', ' ', '\''] + device + seq!['\'']
}

/// A device alone gets every default: global coverage, the last day as the
/// time range, and the default limit.
pub proof fn law_lone_imsi_gets_defaults(device: Seq<char>, day_before: i64, now: i64)
    requires
        device.len() > 0,
        forall|i: int| 0 <= i < device.len() ==> !is_quote(#[trigger] device[i]),
    ensures
        resolved(scanned(seq![imsi_argument(device)]), day_before, now) == Ok::<OptionsModel, ArgumentError>(
            OptionsModel {
                imsi: device,
                endpoint: Endpoint::Global,
                from: day_before,
                to: now,
                limit: DEFAULT_LIMIT,
            },
        ),
{
    let text = imsi_argument(device);
    assert(ascii_lowered(text.take(4)) =~= key_word(OptionKey::Imsi));
    assert(option_with(text, OptionKey::Imsi, 5)) by {
        assert forall|i: int| 5 < i < text.len() - 1 implies !is_quote(#[trigger] text[i]) by {
            assert(text[i] == device[i - 6]);
        }
    }
    lemma_option_parts(text, OptionKey::Imsi, 5);
    assert(text.subrange(6, text.len() - 1) =~= device);
    assert(parsed_option(text) == Ok::<ArgumentModel, ArgumentError>(ArgumentModel::Imsi(device)));
    let args = seq![text];
    assert(args.drop_last() =~= Seq::<Seq<char>>::empty());
    assert(args.last() == text);
    assert(scanned(args.drop_last()) == unset_options());
    assert(scanned(args) == with_argument(unset_options(), parsed_option(text)));
}

} // verus!
