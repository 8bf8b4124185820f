//! The device client: the queries that the bridge makes, and what is read
//! out of the answers.
use super::error::{Error, ErrorModel};
use super::http_client::{Call, ClientModel, HttpClient, Progress, Reply, Step};
use super::status::InverterStatus;
use crate::day::Day;
use crate::json::{
    as_integer, as_items, as_text, display, displayed_json, empty_object, insert_member,
    json_model, member, null, JsonModel,
};
use crate::retry::{retry_strategy, standard_plan};
use crate::text::{decimal_digits, parse_i64, same_text, spec_parse_i64, u64_to_string};
use serde_json::Value;
use vstd::prelude::*;
use vstd::string::*;

verus! {

/// The device client.
pub struct Client {
    http: HttpClient,
}

impl View for Client {
    type V = ClientModel;

    closed spec fn view(&self) -> ClientModel {
        self.http@
    }
}

/// The index of the signal "current power".
pub const CURRENT_POWER: &'static str = "782";

/// The index of the signal "energy by day".
pub const DAILY_ENERGY: &'static str = "777";

/// The index of the signal "energy by month".
pub const MONTHLY_ENERGY: &'static str = "779";

/// The index of the signal "inverter status".
pub const STATUS: &'static str = "608";

/// The query for one signal of one inverter: an object that maps the index
/// of the signal to an object that maps the number of the inverter to null.
pub open spec fn query_model(index: Seq<char>, inverter_id: u8) -> JsonModel {
    JsonModel::Object(
        Map::empty().insert(
            index,
            JsonModel::Object(
                Map::empty().insert(decimal_digits(inverter_id as nat), JsonModel::Null),
            ),
        ),
    )
}

/// The text of the query for one signal of one inverter.
pub open spec fn inverter_query(index: Seq<char>, inverter_id: u8) -> Seq<char> {
    displayed_json(query_model(index, inverter_id))
}

/// The member of an object under `key`.
pub open spec fn member_of(model: JsonModel, key: Seq<char>) -> Option<JsonModel> {
    match model {
        JsonModel::Object(members) if members.contains_key(key) => Some(members[key]),
        _ => None,
    }
}

/// What an answer holds for a signal of an inverter.
pub open spec fn inverter_value(model: JsonModel, index: Seq<char>, inverter_id: u8) -> Option<
    JsonModel,
> {
    match member_of(model, index) {
        Some(signal) => member_of(signal, decimal_digits(inverter_id as nat)),
        None => None,
    }
}

/// The text that an answer holds for a signal of an inverter.
pub open spec fn inverter_text(model: JsonModel, index: Seq<char>, inverter_id: u8) -> Option<
    Seq<char>,
> {
    match inverter_value(model, index, inverter_id) {
        Some(JsonModel::Text(text)) => Some(text),
        _ => None,
    }
}

/// What an entry of a series is worth under the key `id`: an entry is a
/// pair of a key and a list of numbers, and it counts where its key is `id`
/// and its first number is an integer of 64 bits.
pub open spec fn entry_value(entry: JsonModel, id: Seq<char>) -> Option<i64> {
    match entry {
        JsonModel::Array(pair) if pair.len() >= 2 => match (pair[0], pair[1]) {
            (JsonModel::Text(key), JsonModel::Array(numbers)) if numbers.len() > 0
                => match numbers[0] {
                JsonModel::Integer(n) if i64::MIN <= n <= i64::MAX && key == id => Some(n as i64),
                _ => None,
            },
            _ => None,
        },
        _ => None,
    }
}

/// The value of the first entry of a series that counts under `id`.
pub open spec fn series_value(entries: Seq<JsonModel>, id: Seq<char>) -> Option<i64>
    decreases entries.len(),
{
    if entries.len() == 0 {
        None
    } else {
        match entry_value(entries[0], id) {
            Some(value) => Some(value),
            None => series_value(entries.drop_first(), id),
        }
    }
}

/// The words of the error for a signal without a text value.
pub open spec fn missing_value(index: Seq<char>, inverter_id: u8) -> Seq<char> {
    "Missing value for index "@ + index + " and inverter "@ + decimal_digits(inverter_id as nat)
}

/// The words of the error for a signal whose text is no number.
pub open spec fn invalid_number(index: Seq<char>, inverter_id: u8) -> Seq<char> {
    "Invalid i64 value for index "@ + index + " and inverter "@ + decimal_digits(
        inverter_id as nat,
    )
}

/// The words of the error for a signal without a text value, where a text
/// was asked for.
pub open spec fn missing_text(index: Seq<char>, inverter_id: u8) -> Seq<char> {
    "Missing string value for index "@ + index + " and inverter "@ + decimal_digits(
        inverter_id as nat,
    )
}

/// The words of the error for a series without an entry under `id`.
pub open spec fn missing_entry(index: Seq<char>, inverter_id: u8, id: Seq<char>) -> Seq<char> {
    "Missing value for index "@ + index + ", inverter "@ + decimal_digits(inverter_id as nat)
        + ", id "@ + id
}

/// The words of the error for a text that names no status.
pub open spec fn invalid_status(text: Seq<char>) -> Seq<char> {
    "Invalid inverter status: "@ + text
}

/// The number that an answer holds as text for a signal of an inverter.
pub open spec fn number_in(model: JsonModel, index: Seq<char>, inverter_id: u8) -> Result<
    i64,
    ErrorModel,
> {
    match inverter_text(model, index, inverter_id) {
        None => Err(ErrorModel::ValueParseError(missing_value(index, inverter_id))),
        Some(text) => match spec_parse_i64(text) {
            Some(number) => Ok(number),
            None => Err(ErrorModel::ValueParseError(invalid_number(index, inverter_id))),
        },
    }
}

/// The text that an answer holds for a signal of an inverter.
pub open spec fn text_in(model: JsonModel, index: Seq<char>, inverter_id: u8) -> Result<
    Seq<char>,
    ErrorModel,
> {
    match inverter_text(model, index, inverter_id) {
        None => Err(ErrorModel::ValueParseError(missing_text(index, inverter_id))),
        Some(text) => Ok(text),
    }
}

/// The number that an answer holds under `id` in the series of a signal of
/// an inverter.
pub open spec fn entry_in(
    model: JsonModel,
    index: Seq<char>,
    inverter_id: u8,
    id: Seq<char>,
) -> Result<i64, ErrorModel> {
    let found = match inverter_value(model, index, inverter_id) {
        Some(JsonModel::Array(entries)) => series_value(entries, id),
        _ => None,
    };
    match found {
        Some(value) => Ok(value),
        None => Err(ErrorModel::ValueParseError(missing_entry(index, inverter_id, id))),
    }
}

/// Whether what an extraction gave is what the answer holds: the same
/// status, or the same error. A text that names a status names one only.
pub open spec fn status_in(model: JsonModel, r: Result<InverterStatus, ErrorModel>) -> bool {
    match text_in(model, "608"@, 0) {
        Err(error) => r == Err::<InverterStatus, ErrorModel>(error),
        Ok(text) => if exists|status: InverterStatus| #[trigger] status.label_text() == text {
            r matches Ok(status) && status.label_text() == text
        } else {
            r == Err::<InverterStatus, ErrorModel>(
                ErrorModel::ValueParseError(invalid_status(text)),
            )
        },
    }
}

/// A result with its error as a mathematical value.
pub open spec fn outcome<T>(r: Result<T, Error>) -> Result<T, ErrorModel> {
    match r {
        Ok(value) => Ok(value),
        Err(error) => Err(error@),
    }
}

/// Joins the words of an error about a signal of an inverter.
fn signal_words(lead: &str, index: &str, inverter_id: u8) -> (words: String)
    ensures
        words@ == lead@ + index@ + " and inverter "@ + decimal_digits(inverter_id as nat),
{
    let mut words = String::from_str(lead);
    words.append(index);
    words.append(" and inverter ");
    words.append(u64_to_string(inverter_id as u64).as_str());
    words
}

impl Client {
    /// Creates a new instance of `Client`.
    pub fn new(password: String) -> (client: Client)
        ensures
            client@ == ClientModel::fresh(password@),
    {
        Client { http: HttpClient::new(password) }
    }

    /// Login to the device, on a plan of the standard kind. Nothing is sent
    /// if a session is held.
    pub fn login(&mut self, now: u64) -> (progress: Progress)
        ensures
            exists|plan: Seq<u64>|
                standard_plan(plan) && (final(self)@, progress@) == #[trigger] old(self)@.login(
                    false,
                    plan,
                    now,
                ),
            progress@.wf(),
    {
        let plan = retry_strategy();
        let ghost pauses = plan@;
        let progress = self.http.login(false, plan, now);
        proof {
            assert((self@, progress@) == old(self)@.login(false, pauses, now));
        }
        progress
    }

    /// Whether a session is held.
    pub fn is_logged_in(&self) -> (r: bool)
        ensures
            r == self@.token is Some,
    {
        self.http.is_logged_in()
    }

    /// Logout from the device: the token is given up, and where one was
    /// held the step that tells the device comes back.
    pub fn logout(&mut self) -> (step: Option<Step>)
        ensures
            (final(self)@, match step {
                Some(s) => Some(s@),
                None => None,
            }) == old(self)@.logout(),
    {
        self.http.logout()
    }

    /// Asks for the power produced or consumed in watt, on a plan of the standard kind.
    pub fn get_current_power(&mut self, now: u64) -> (progress: Progress)
        ensures
            exists|plan: Seq<u64>|
                standard_plan(plan) && (final(self)@, progress@) == #[trigger] old(self)@.query(
                    inverter_query("782"@, 0),
                    plan,
                    now,
                ),
            progress@.wf(),
    {
        self.query(CURRENT_POWER, now)
    }

    /// Asks for the inverter status, on a plan of the standard kind.
    pub fn get_status(&mut self, now: u64) -> (progress: Progress)
        ensures
            exists|plan: Seq<u64>|
                standard_plan(plan) && (final(self)@, progress@) == #[trigger] old(self)@.query(
                    inverter_query("608"@, 0),
                    plan,
                    now,
                ),
            progress@.wf(),
    {
        self.query(STATUS, now)
    }

    /// Asks for the energy by day, in watt-hours, on a plan of the standard kind.
    pub fn get_energy_of_day(&mut self, now: u64) -> (progress: Progress)
        ensures
            exists|plan: Seq<u64>|
                standard_plan(plan) && (final(self)@, progress@) == #[trigger] old(self)@.query(
                    inverter_query("777"@, 0),
                    plan,
                    now,
                ),
            progress@.wf(),
    {
        self.query(DAILY_ENERGY, now)
    }

    /// Asks for the energy by month, in watt-hours, on a plan of the standard kind.
    pub fn get_energy_of_month(&mut self, now: u64) -> (progress: Progress)
        ensures
            exists|plan: Seq<u64>|
                standard_plan(plan) && (final(self)@, progress@) == #[trigger] old(self)@.query(
                    inverter_query("779"@, 0),
                    plan,
                    now,
                ),
            progress@.wf(),
    {
        self.query(MONTHLY_ENERGY, now)
    }

    /// Asks for a signal of the first inverter, on a plan of the standard kind.
    fn query(&mut self, index: &str, now: u64) -> (progress: Progress)
        ensures
            exists|plan: Seq<u64>|
                standard_plan(plan) && (final(self)@, progress@) == #[trigger] old(self)@.query(
                    inverter_query(index@, 0),
                    plan,
                    now,
                ),
            progress@.wf(),
    {
        let query = Self::create_inverter_query(index, 0);
        let plan = retry_strategy();
        let ghost pauses = plan@;
        let progress = self.http.query(query.as_str(), plan, now);
        proof {
            assert((self@, progress@) == old(self)@.query(inverter_query(index@, 0), pauses, now));
        }
        progress
    }

    /// Goes on with `call`, whose step came back with `reply` at `now`.
    pub fn resume(&mut self, call: Call, reply: Reply, now: u64) -> (progress: Progress)
        ensures
            (final(self)@, progress@) == old(self)@.resume(call@, reply@, now),
            call@.wf() ==> progress@.wf(),
    {
        self.http.resume(call, reply, now)
    }

    /// The text of the query for one signal of one inverter.
    pub fn create_inverter_query(index: &str, inverter_id: u8) -> (query: String)
        ensures
            query@ == inverter_query(index@, inverter_id),
    {
        let mut inverters = empty_object();
        insert_member(&mut inverters, u64_to_string(inverter_id as u64), null());
        let mut value = empty_object();
        insert_member(&mut value, index.to_owned(), inverters);
        display(&value)
    }

    /// What an answer holds for a signal of an inverter.
    fn find_inverter_value<'a>(json_value: &'a Value, index: &str, inverter_id: u8) -> (r: Option<
        &'a Value,
    >)
        ensures
            match inverter_value(json_model(*json_value), index@, inverter_id) {
                Some(model) => r is Some && json_model(*r->0) == model,
                None => r is None,
            },
    {
        match member(json_value, index) {
            Some(signal) => member(signal, u64_to_string(inverter_id as u64).as_str()),
            None => None,
        }
    }

    /// Extract the energy of `day` from the answer to the query by day.
    pub fn extract_energy_of_day(json_value: &Value, day: Day) -> (r: Result<i64, Error>)
        ensures
            outcome(r) == entry_in(json_model(*json_value), "777"@, 0, day.key_text()),
    {
        let key = day.key();
        Self::extract_inverter_value_by_id_as_i64(json_value, DAILY_ENERGY, 0, key.as_str())
    }

    /// Extract the energy of the month of `month` from the answer to the
    /// query by month.
    pub fn extract_energy_of_month(json_value: &Value, month: Day) -> (r: Result<i64, Error>)
        ensures
            outcome(r) == entry_in(json_model(*json_value), "779"@, 0, month.month_key_text()),
    {
        let key = month.month_key();
        Self::extract_inverter_value_by_id_as_i64(json_value, MONTHLY_ENERGY, 0, key.as_str())
    }

    /// Extract the status of the first inverter.
    pub fn extract_inverter_status(json_value: &Value) -> (r: Result<InverterStatus, Error>)
        ensures
            status_in(json_model(*json_value), outcome(r)),
    {
        match Self::extract_inverter_value_as_string(json_value, STATUS, 0) {
            Err(error) => Err(error),
            Ok(text) => match InverterStatus::from_str(text) {
                Ok(status) => Ok(status),
                Err(_) => {
                    let mut words = String::from_str("Invalid inverter status: ");
                    words.append(text);
                    Err(Error::ValueParseError(words))
                },
            },
        }
    }

    /// Extract the number that the answer holds as text for a signal of an
    /// inverter.
    pub fn extract_inverter_value_as_i64(json_value: &Value, index: &str, inverter_id: u8) -> (r:
        Result<i64, Error>)
        ensures
            outcome(r) == number_in(json_model(*json_value), index@, inverter_id),
    {
        let text = match Self::find_inverter_value(json_value, index, inverter_id) {
            Some(value) => as_text(value),
            None => None,
        };
        match text {
            None => Err(
                Error::ValueParseError(
                    signal_words("Missing value for index ", index, inverter_id),
                ),
            ),
            Some(text) => match parse_i64(text) {
                Some(number) => Ok(number),
                None => Err(
                    Error::ValueParseError(
                        signal_words("Invalid i64 value for index ", index, inverter_id),
                    ),
                ),
            },
        }
    }

    /// Extract the text that the answer holds for a signal of an inverter.
    pub fn extract_inverter_value_as_string<'a>(
        json_value: &'a Value,
        index: &str,
        inverter_id: u8,
    ) -> (r: Result<&'a str, Error>)
        ensures
            match r {
                Ok(text) => text_in(json_model(*json_value), index@, inverter_id) == Ok::<
                    Seq<char>,
                    ErrorModel,
                >(text@),
                Err(error) => text_in(json_model(*json_value), index@, inverter_id) == Err::<
                    Seq<char>,
                    ErrorModel,
                >(error@),
            },
    {
        let text = match Self::find_inverter_value(json_value, index, inverter_id) {
            Some(value) => as_text(value),
            None => None,
        };
        match text {
            Some(text) => Ok(text),
            None => Err(
                Error::ValueParseError(
                    signal_words("Missing string value for index ", index, inverter_id),
                ),
            ),
        }
    }

    /// What an entry of a series is worth under the key `id`.
    fn read_entry(entry: &Value, id: &str) -> (r: Option<i64>)
        ensures
            r == entry_value(json_model(*entry), id@),
    {
        let pair = match as_items(entry) {
            Some(pair) => pair,
            None => { return None; },
        };
        if pair.len() < 2 {
            return None;
        }
        let key = match as_text(&pair[0]) {
            Some(key) => key,
            None => { return None; },
        };
        let numbers = match as_items(&pair[1]) {
            Some(numbers) => numbers,
            None => { return None; },
        };
        if numbers.len() == 0 {
            return None;
        }
        let number = match as_integer(&numbers[0]) {
            Some(number) => number,
            None => { return None; },
        };
        if same_text(key, id) {
            Some(number)
        } else {
            None
        }
    }

    /// Extract the number that the answer holds under `id` in the series of
    /// a signal of an inverter.
    pub fn extract_inverter_value_by_id_as_i64(
        json_value: &Value,
        index: &str,
        inverter_id: u8,
        id: &str,
    ) -> (r: Result<i64, Error>)
        ensures
            outcome(r) == entry_in(json_model(*json_value), index@, inverter_id, id@),
    {
        let entries = match Self::find_inverter_value(json_value, index, inverter_id) {
            Some(value) => as_items(value),
            None => None,
        };
        let mut found: Option<i64> = None;
        if let Some(entries) = entries {
            let ghost models = inverter_value(json_model(*json_value), index@, inverter_id)->Some_0
                ->Array_0;
            let mut i: usize = 0;
            proof {
                assert(models.skip(0) =~= models);
            }
            while i < entries.len() && found.is_none()
                invariant
                    i <= entries.len(),
                    entries@.len() == models.len(),
                    forall|k: int|
                        0 <= k < models.len() ==> json_model(#[trigger] entries@[k]) == models[k],
                    match found {
                        Some(value) => series_value(models, id@) == Some(value),
                        None => series_value(models, id@) == series_value(
                            models.skip(i as int),
                            id@,
                        ),
                    },
                decreases entries.len() - i, found.is_none() as int,
            {
                let here = Self::read_entry(&entries[i], id);
                proof {
                    let rest = models.skip(i as int);
                    assert(rest[0] == models[i as int]);
                    assert(rest.drop_first() =~= models.skip(i + 1));
                }
                match here {
                    Some(value) => {
                        found = Some(value);
                    },
                    None => {
                        i += 1;
                    },
                }
            }
            proof {
                if found.is_none() {
                    assert(models.skip(i as int).len() == 0);
                }
            }
        }
        match found {
            Some(value) => Ok(value),
            None => {
                let mut words = String::from_str("Missing value for index ");
                words.append(index);
                words.append(", inverter ");
                words.append(u64_to_string(inverter_id as u64).as_str());
                words.append(", id ");
                words.append(id);
                Err(Error::ValueParseError(words))
            },
        }
    }
}

} // verus!
