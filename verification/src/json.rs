//! JSON documents as the helper writes them: a plain tree that the decoders
//! of the bindings read, and the parser that produces it.

use vstd::prelude::*;
use vstd::string::*;

verus! {

/// A JSON value held as plain data.
///
/// A number keeps its value only where it is a whole number from zero up to
/// the largest `u64`; every other number is `Number(None)`.
#[derive(Debug, PartialEq, Eq)]
pub enum JsonValue {
    Null,
    Bool(bool),
    Number(Option<u64>),
    Text(String),
    Array(Vec<JsonValue>),
    Object(Vec<JsonField>),
}

/// One member of a JSON object.
#[derive(Debug, PartialEq, Eq)]
pub struct JsonField {
    pub name: String,
    pub value: JsonValue,
}

/// What a `JsonValue` denotes.
pub enum JsonModel {
    Null,
    Bool(bool),
    Number(Option<u64>),
    Text(Seq<char>),
    Array(Seq<JsonModel>),
    Object(Seq<(Seq<char>, JsonModel)>),
}

/// What a value denotes: the same tree, with every string and list replaced
/// by what it holds.
pub open spec fn model_of(json: JsonValue) -> JsonModel
    decreases json,
{
    match json {
        JsonValue::Null => JsonModel::Null,
        JsonValue::Bool(b) => JsonModel::Bool(b),
        JsonValue::Number(n) => JsonModel::Number(n),
        JsonValue::Text(s) => JsonModel::Text(s@),
        JsonValue::Array(items) => JsonModel::Array(
            Seq::new(
                items@.len(),
                |i: int|
                    if 0 <= i < items@.len() {
                        model_of(items@[i])
                    } else {
                        JsonModel::Null
                    },
            ),
        ),
        JsonValue::Object(fields) => JsonModel::Object(
            Seq::new(
                fields@.len(),
                |i: int|
                    if 0 <= i < fields@.len() {
                        (fields@[i].name@, model_of(fields@[i].value))
                    } else {
                        (Seq::empty(), JsonModel::Null)
                    },
            ),
        ),
    }
}

impl View for JsonValue {
    type V = JsonModel;

    open spec fn view(&self) -> JsonModel {
        model_of(*self)
    }
}

/// The value of the first member with the given name, if there is one.
pub open spec fn member(fields: Seq<(Seq<char>, JsonModel)>, name: Seq<char>) -> Option<JsonModel>
    decreases fields.len(),
{
    if fields.len() == 0 {
        None
    } else if fields[0].0 == name {
        Some(fields[0].1)
    } else {
        member(fields.subrange(1, fields.len() as int), name)
    }
}

/// What a list of values denotes, item by item.
pub open spec fn items_view(items: Seq<JsonValue>) -> Seq<JsonModel> {
    Seq::new(items.len(), |i: int| items[i]@)
}

/// What a list of members denotes: each name with its value.
pub open spec fn fields_view(fields: Seq<JsonField>) -> Seq<(Seq<char>, JsonModel)> {
    Seq::new(fields.len(), |i: int| (fields[i].name@, fields[i].value@))
}

/// The view of an array is the view of its items, and likewise for an object.
pub proof fn lemma_view_of_parts(json: &JsonValue)
    ensures
        json matches JsonValue::Array(items) ==> json@ == JsonModel::Array(items_view(items@)),
        json matches JsonValue::Object(fields) ==> json@ == JsonModel::Object(
            fields_view(fields@),
        ),
{
    if json is Array {
        let items = json->Array_0;
        assert(json@->Array_0 =~= items_view(items@));
    }
    if json is Object {
        let fields = json->Object_0;
        assert(json@->Object_0 =~= fields_view(fields@));
    }
}

/// The views of the two sides of a result that carries text either way.
pub open spec fn text_result_view(r: Result<String, String>) -> Result<Seq<char>, Seq<char>> {
    match r {
        Ok(s) => Ok(s@),
        Err(e) => Err(e@),
    }
}

/// The text that reports a member which an object lacks.
pub open spec fn missing_field_text(name: Seq<char>) -> Seq<char> {
    "missing field `"@ + name + "`"@
}

/// The text that reports a value of another type than the one expected.
pub open spec fn wrong_type_text(expected: Seq<char>) -> Seq<char> {
    "invalid type: expected "@ + expected
}

/// The members of an object; any other value is reported as not being a map.
pub open spec fn as_object(json: JsonModel) -> Result<Seq<(Seq<char>, JsonModel)>, Seq<char>> {
    match json {
        JsonModel::Object(fields) => Ok(fields),
        _ => Err(wrong_type_text("a map"@)),
    }
}

/// The items of an array; any other value is reported as not being a sequence.
pub open spec fn as_array(json: JsonModel) -> Result<Seq<JsonModel>, Seq<char>> {
    match json {
        JsonModel::Array(items) => Ok(items),
        _ => Err(wrong_type_text("a sequence"@)),
    }
}

/// The characters of a string value.
pub open spec fn as_text(json: JsonModel) -> Result<Seq<char>, Seq<char>> {
    match json {
        JsonModel::Text(s) => Ok(s),
        _ => Err(wrong_type_text("a string"@)),
    }
}

/// The truth value of a boolean.
pub open spec fn as_flag(json: JsonModel) -> Result<bool, Seq<char>> {
    match json {
        JsonModel::Bool(b) => Ok(b),
        _ => Err(wrong_type_text("a boolean"@)),
    }
}

/// A whole number that fits a `usize`.
pub open spec fn as_count(json: JsonModel) -> Result<usize, Seq<char>> {
    match json {
        JsonModel::Number(Some(n)) if n <= usize::MAX => Ok(n as usize),
        _ => Err(wrong_type_text("an unsigned integer"@)),
    }
}

/// A string that may be left out: `null` stands for its absence.
pub open spec fn as_optional_text(json: JsonModel) -> Result<Option<Seq<char>>, Seq<char>> {
    match json {
        JsonModel::Null => Ok(None),
        JsonModel::Text(s) => Ok(Some(s)),
        _ => Err(wrong_type_text("a string"@)),
    }
}

/// A member that an object must have.
pub open spec fn required_member(fields: Seq<(Seq<char>, JsonModel)>, name: Seq<char>) -> Result<
    JsonModel,
    Seq<char>,
> {
    match member(fields, name) {
        Some(json) => Ok(json),
        None => Err(missing_field_text(name)),
    }
}

/// Reads every item with `read`, in order. The outcome is the list of what
/// was read, or the report for the first item that could not be read.
pub open spec fn read_all<T>(
    items: Seq<JsonModel>,
    read: spec_fn(JsonModel) -> Result<T, Seq<char>>,
) -> Result<Seq<T>, Seq<char>>
    decreases items.len(),
{
    if items.len() == 0 {
        Ok(Seq::empty())
    } else {
        match read_all(items.drop_last(), read) {
            Err(e) => Err(e),
            Ok(done) => match read(items.last()) {
                Ok(x) => Ok(done.push(x)),
                Err(e) => Err(e),
            },
        }
    }
}

/// `as_text` as a reader of items.
pub open spec fn text_reader() -> spec_fn(JsonModel) -> Result<Seq<char>, Seq<char>> {
    |item: JsonModel| as_text(item)
}

/// An array whose items are all strings.
pub open spec fn as_text_list(json: JsonModel) -> Result<Seq<Seq<char>>, Seq<char>> {
    match as_array(json) {
        Ok(items) => read_all(items, text_reader()),
        Err(e) => Err(e),
    }
}

/// The views of a list of strings.
pub open spec fn texts_view(texts: Seq<String>) -> Seq<Seq<char>> {
    Seq::new(texts.len(), |i: int| texts[i]@)
}

/// The views of the two sides of a result that carries a list of strings.
pub open spec fn text_list_result_view(r: Result<Vec<String>, String>) -> Result<
    Seq<Seq<char>>,
    Seq<char>,
> {
    match r {
        Ok(list) => Ok(texts_view(list@)),
        Err(e) => Err(e@),
    }
}

/// Builds the report for a member that is not there.
pub fn missing_field_message(name: &str) -> (text: String)
    ensures
        text@ == missing_field_text(name@),
{
    let mut text = String::from_str("missing field `");
    text.append(name);
    text.append("`");
    text
}

/// Builds the report for a value of an unexpected type.
pub fn wrong_type_message(expected: &str) -> (text: String)
    ensures
        text@ == wrong_type_text(expected@),
{
    let mut text = String::from_str("invalid type: expected ");
    text.append(expected);
    text
}

impl JsonValue {
    /// The members, where the value is an object.
    pub fn object_fields(&self) -> (r: Result<&Vec<JsonField>, String>)
        ensures
            match r {
                Ok(fields) => as_object(self@) == Ok::<_, Seq<char>>(fields_view(fields@)),
                Err(e) => as_object(self@) == Err::<Seq<(Seq<char>, JsonModel)>, _>(e@),
            },
    {
        proof {
            lemma_view_of_parts(self);
        }
        match self {
            JsonValue::Object(fields) => Ok(fields),
            _ => Err(wrong_type_message("a map")),
        }
    }

    /// The items, where the value is an array.
    pub fn array_items(&self) -> (r: Result<&Vec<JsonValue>, String>)
        ensures
            match r {
                Ok(items) => as_array(self@) == Ok::<_, Seq<char>>(items_view(items@)),
                Err(e) => as_array(self@) == Err::<Seq<JsonModel>, _>(e@),
            },
    {
        proof {
            lemma_view_of_parts(self);
        }
        match self {
            JsonValue::Array(items) => Ok(items),
            _ => Err(wrong_type_message("a sequence")),
        }
    }

    /// A copy of the characters, where the value is a string.
    pub fn text(&self) -> (r: Result<String, String>)
        ensures
            text_result_view(r) == as_text(self@),
    {
        match self {
            JsonValue::Text(s) => Ok(s.clone()),
            _ => Err(wrong_type_message("a string")),
        }
    }

    /// The truth value, where the value is a boolean.
    pub fn flag(&self) -> (r: Result<bool, String>)
        ensures
            match r {
                Ok(b) => as_flag(self@) == Ok::<_, Seq<char>>(b),
                Err(e) => as_flag(self@) == Err::<bool, _>(e@),
            },
    {
        match self {
            JsonValue::Bool(b) => Ok(*b),
            _ => Err(wrong_type_message("a boolean")),
        }
    }

    /// The number, where the value is a whole number that a `usize` can hold.
    pub fn count(&self) -> (r: Result<usize, String>)
        ensures
            match r {
                Ok(n) => as_count(self@) == Ok::<_, Seq<char>>(n),
                Err(e) => as_count(self@) == Err::<usize, _>(e@),
            },
    {
        match self {
            JsonValue::Number(Some(n)) => {
                if *n <= usize::MAX as u64 {
                    Ok(*n as usize)
                } else {
                    Err(wrong_type_message("an unsigned integer"))
                }
            },
            _ => Err(wrong_type_message("an unsigned integer")),
        }
    }

    /// A copy of the characters of a string, or nothing for `null`.
    pub fn optional_text(&self) -> (r: Result<Option<String>, String>)
        ensures
            match r {
                Ok(Some(s)) => as_optional_text(self@) == Ok::<_, Seq<char>>(Some(s@)),
                Ok(None) => as_optional_text(self@) == Ok::<Option<Seq<char>>, Seq<char>>(None),
                Err(e) => as_optional_text(self@) == Err::<Option<Seq<char>>, _>(e@),
            },
    {
        match self {
            JsonValue::Null => Ok(None),
            JsonValue::Text(s) => Ok(Some(s.clone())),
            _ => Err(wrong_type_message("a string")),
        }
    }

    /// The strings of an array of strings, in order.
    pub fn text_list(&self) -> (r: Result<Vec<String>, String>)
        ensures
            text_list_result_view(r) == as_text_list(self@),
    {
        let items = match self.array_items() {
            Ok(items) => items,
            Err(e) => {
                return Err(e);
            },
        };
        let ghost read = text_reader();
        let ghost all = items_view(items@);
        let mut list: Vec<String> = Vec::new();
        let mut i: usize = 0;
        assert(all.take(0) =~= Seq::empty());
        assert(texts_view(list@) =~= Seq::empty());
        while i < items.len()
            invariant
                i <= items.len(),
                all == items_view(items@),
                as_array(self@) == Ok::<_, Seq<char>>(all),
                read == text_reader(),
                read_all(all.take(i as int), read) == Ok::<_, Seq<char>>(texts_view(list@)),
            decreases items.len() - i,
        {
            assert(all.take(i + 1).drop_last() =~= all.take(i as int));
            assert(all.take(i + 1).last() == items@[i as int]@);
            match items[i].text() {
                Ok(s) => {
                    let ghost before = texts_view(list@);
                    list.push(s);
                    assert(texts_view(list@) =~= before.push(s@));
                },
                Err(e) => {
                    proof {
                        lemma_read_all_stops(all, read, i as int);
                    }
                    return Err(e);
                },
            }
            i += 1;
        }
        assert(all.take(i as int) =~= all);
        Ok(list)
    }
}

/// Once an item cannot be read, the whole list is reported with that item's
/// report, whatever follows it.
pub proof fn lemma_read_all_stops<T>(
    items: Seq<JsonModel>,
    read: spec_fn(JsonModel) -> Result<T, Seq<char>>,
    i: int,
)
    requires
        0 <= i < items.len(),
        read_all(items.take(i), read) is Ok,
        read(items[i]) is Err,
    ensures
        read_all(items, read) == Err::<Seq<T>, _>(read(items[i])->Err_0),
    decreases items.len(),
{
    if i == items.len() - 1 {
        assert(items.drop_last() =~= items.take(i));
    } else {
        assert(items.drop_last().take(i) =~= items.take(i));
        lemma_read_all_stops(items.drop_last(), read, i);
    }
}

/// Finds the first member with the given name.
pub fn find_member<'a>(fields: &'a Vec<JsonField>, name: &str) -> (found: Option<&'a JsonValue>)
    ensures
        match found {
            Some(json) => member(fields_view(fields@), name@) == Some(json@),
            None => member(fields_view(fields@), name@) is None,
        },
{
    let wanted = String::from_str(name);
    let ghost all = fields_view(fields@);
    let mut i: usize = 0;
    assert(all.subrange(0, all.len() as int) =~= all);
    while i < fields.len()
        invariant
            i <= fields.len(),
            all == fields_view(fields@),
            wanted@ == name@,
            member(all, name@) == member(all.subrange(i as int, all.len() as int), name@),
        decreases fields.len() - i,
    {
        let ghost rest = all.subrange(i as int, all.len() as int);
        assert(rest[0] == all[i as int]);
        assert(rest.subrange(1, rest.len() as int) =~= all.subrange(i + 1, all.len() as int));
        if fields[i].name == wanted {
            return Some(&fields[i].value);
        }
        i += 1;
    }
    None
}

/// Finds a member that has to be there.
pub fn require_member<'a>(fields: &'a Vec<JsonField>, name: &str) -> (r: Result<
    &'a JsonValue,
    String,
>)
    ensures
        match r {
            Ok(json) => required_member(fields_view(fields@), name@) == Ok::<_, Seq<char>>(json@),
            Err(e) => required_member(fields_view(fields@), name@) == Err::<JsonModel, _>(e@),
        },
{
    match find_member(fields, name) {
        Some(json) => Ok(json),
        None => Err(missing_field_message(name)),
    }
}

/// The string under `name`, which has to be there.
pub open spec fn text_field(fields: Seq<(Seq<char>, JsonModel)>, name: Seq<char>) -> Result<
    Seq<char>,
    Seq<char>,
> {
    match required_member(fields, name) {
        Ok(json) => as_text(json),
        Err(e) => Err(e),
    }
}

/// The boolean under `name`, which has to be there.
pub open spec fn flag_field(fields: Seq<(Seq<char>, JsonModel)>, name: Seq<char>) -> Result<
    bool,
    Seq<char>,
> {
    match required_member(fields, name) {
        Ok(json) => as_flag(json),
        Err(e) => Err(e),
    }
}

/// The count under `name`, which has to be there.
pub open spec fn count_field(fields: Seq<(Seq<char>, JsonModel)>, name: Seq<char>) -> Result<
    usize,
    Seq<char>,
> {
    match required_member(fields, name) {
        Ok(json) => as_count(json),
        Err(e) => Err(e),
    }
}

/// The list of strings under `name`, which has to be there.
pub open spec fn text_list_field(fields: Seq<(Seq<char>, JsonModel)>, name: Seq<char>) -> Result<
    Seq<Seq<char>>,
    Seq<char>,
> {
    match required_member(fields, name) {
        Ok(json) => as_text_list(json),
        Err(e) => Err(e),
    }
}

/// The string under `name`, where a member that is left out counts as absent.
pub open spec fn optional_text_field(
    fields: Seq<(Seq<char>, JsonModel)>,
    name: Seq<char>,
) -> Result<Option<Seq<char>>, Seq<char>> {
    match member(fields, name) {
        Some(json) => as_optional_text(json),
        None => Ok(None),
    }
}

/// Reads the string under `name`.
pub fn read_text_field(fields: &Vec<JsonField>, name: &str) -> (r: Result<String, String>)
    ensures
        text_result_view(r) == text_field(fields_view(fields@), name@),
{
    match require_member(fields, name) {
        Ok(json) => json.text(),
        Err(e) => Err(e),
    }
}

/// Reads the boolean under `name`.
pub fn read_flag_field(fields: &Vec<JsonField>, name: &str) -> (r: Result<bool, String>)
    ensures
        match r {
            Ok(b) => flag_field(fields_view(fields@), name@) == Ok::<_, Seq<char>>(b),
            Err(e) => flag_field(fields_view(fields@), name@) == Err::<bool, _>(e@),
        },
{
    match require_member(fields, name) {
        Ok(json) => json.flag(),
        Err(e) => Err(e),
    }
}

/// Reads the count under `name`.
pub fn read_count_field(fields: &Vec<JsonField>, name: &str) -> (r: Result<usize, String>)
    ensures
        match r {
            Ok(n) => count_field(fields_view(fields@), name@) == Ok::<_, Seq<char>>(n),
            Err(e) => count_field(fields_view(fields@), name@) == Err::<usize, _>(e@),
        },
{
    match require_member(fields, name) {
        Ok(json) => json.count(),
        Err(e) => Err(e),
    }
}

/// Reads the list of strings under `name`.
pub fn read_text_list_field(fields: &Vec<JsonField>, name: &str) -> (r: Result<
    Vec<String>,
    String,
>)
    ensures
        text_list_result_view(r) == text_list_field(fields_view(fields@), name@),
{
    match require_member(fields, name) {
        Ok(json) => json.text_list(),
        Err(e) => Err(e),
    }
}

/// Reads the string under `name`, if the member is there and not `null`.
pub fn read_optional_text_field(fields: &Vec<JsonField>, name: &str) -> (r: Result<
    Option<String>,
    String,
>)
    ensures
        match r {
            Ok(Some(s)) => optional_text_field(fields_view(fields@), name@) == Ok::<
                _,
                Seq<char>,
            >(Some(s@)),
            Ok(None) => optional_text_field(fields_view(fields@), name@) == Ok::<
                Option<Seq<char>>,
                Seq<char>,
            >(None),
            Err(e) => optional_text_field(fields_view(fields@), name@) == Err::<
                Option<Seq<char>>,
                _,
            >(e@),
        },
{
    match find_member(fields, name) {
        Some(json) => json.optional_text(),
        None => Ok(None),
    }
}

#[verifier::external_type_specification]
#[verifier::external_body]
pub struct ExSerdeValue(serde_json::Value);

/// What `serde_json::from_str` makes of a text that is read as one JSON
/// value: the value, or the parser's own report of why there is none.
pub uninterp spec fn json_document(text: Seq<char>) -> Result<JsonModel, Seq<char>>;

/// The tree that a `serde_json::Value` holds. Of a number it keeps what
/// `Number::as_u64` gives; the members of an object come in the order in
/// which the value's map hands them out.
pub uninterp spec fn value_model(value: serde_json::Value) -> JsonModel;

/// Calls `serde_json::from_str` for a `serde_json::Value`. Nothing is proved
/// here: the contract only gives the outcome its name, `json_document`, with
/// the parser's error turned into the text that it displays.
#[verifier::external_body]
fn read_value(text: &str) -> (r: Result<serde_json::Value, String>)
    ensures
        match r {
            Ok(value) => json_document(text@) == Ok::<_, Seq<char>>(value_model(value)),
            Err(report) => json_document(text@) == Err::<JsonModel, _>(report@),
        },
{
    serde_json::from_str::<serde_json::Value>(text).map_err(|e| e.to_string())
}

/// Takes a `serde_json::Value` apart, variant by variant, into a `JsonValue`.
/// Nothing is proved here: the contract says that the result denotes what the
/// value holds, and the body is the whole of what stands behind that.
#[verifier::external_body]
fn lift_value(value: serde_json::Value) -> (json: JsonValue)
    ensures
        json@ == value_model(value),
{
    match value {
        serde_json::Value::Null => JsonValue::Null,
        serde_json::Value::Bool(b) => JsonValue::Bool(b),
        serde_json::Value::Number(n) => JsonValue::Number(n.as_u64()),
        serde_json::Value::String(s) => JsonValue::Text(s),
        serde_json::Value::Array(items) => JsonValue::Array(
            items.into_iter().map(lift_value).collect(),
        ),
        serde_json::Value::Object(map) => JsonValue::Object(
            map.into_iter().map(|(name, v)| JsonField { name, value: lift_value(v) }).collect(),
        ),
    }
}

/// Reads a text as one JSON value.
///
/// The result is the value that the text denotes, or the parser's report.
pub fn parse_json(text: &str) -> (r: Result<JsonValue, String>)
    ensures
        match r {
            Ok(json) => json_document(text@) == Ok::<_, Seq<char>>(json@),
            Err(report) => json_document(text@) == Err::<JsonModel, _>(report@),
        },
{
    match read_value(text) {
        Ok(value) => Ok(lift_value(value)),
        Err(report) => Err(report),
    }
}

} // verus!
