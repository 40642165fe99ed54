//! Text recognition: the catalogue of languages and the recognition of one
//! image.

use vstd::prelude::*;
use vstd::string::*;
use vstd::utf8::*;
use crate::command::push_token;
use crate::error::{ErrorKind, ErrorModel, Naps2Error};
use crate::helper::{
    execution_failure,
    launch_failure,
    launched,
    shape_failure,
    shaped,
    text_or_error_view,
    utf8_lossy,
    HelperOutput,
    HelperRunner,
};
use crate::json::{
    as_array,
    as_object,
    fields_view,
    items_view,
    json_document,
    lemma_read_all_stops,
    lemma_view_of_parts,
    member,
    read_all,
    read_text_field,
    text_field,
    texts_view,
    JsonField,
    JsonModel,
    JsonValue,
};

verus! {

/// A language that the helper can recognise text in.
#[derive(Debug, Clone, PartialEq, Eq)]
pub struct OcrLanguage {
    pub code: String,
    pub name: String,
}

/// What an `OcrLanguage` denotes.
pub struct LanguageModel {
    pub code: Seq<char>,
    pub name: Seq<char>,
}

impl View for OcrLanguage {
    type V = LanguageModel;

    open spec fn view(&self) -> LanguageModel {
        LanguageModel { code: self.code@, name: self.name@ }
    }
}

/// What a list of languages denotes, item by item.
pub open spec fn languages_view(languages: Seq<OcrLanguage>) -> Seq<LanguageModel> {
    Seq::new(languages.len(), |i: int| languages[i]@)
}

/// The arguments that ask the helper for its languages.
pub open spec fn languages_command() -> Seq<Seq<char>> {
    seq!["ocr"@, "languages"@]
}

/// The arguments that ask the helper to recognise the text of one image.
pub open spec fn recognize_command(image_path: Seq<char>, language: Seq<char>) -> Seq<Seq<char>> {
    seq!["ocr"@, "recognize"@, image_path, language]
}

/// Builds the arguments that ask the helper for its languages.
pub fn languages_args() -> (args: Vec<String>)
    ensures
        texts_view(args@) == languages_command(),
{
    let mut args: Vec<String> = Vec::new();
    push_token(&mut args, "ocr");
    push_token(&mut args, "languages");
    assert(texts_view(args@) =~= languages_command());
    args
}

/// Builds the arguments that ask the helper to recognise the text of one image.
pub fn recognize_args(image_path: &str, language: &str) -> (args: Vec<String>)
    ensures
        texts_view(args@) == recognize_command(image_path@, language@),
{
    let mut args: Vec<String> = Vec::new();
    push_token(&mut args, "ocr");
    push_token(&mut args, "recognize");
    push_token(&mut args, image_path);
    push_token(&mut args, language);
    assert(texts_view(args@) =~= recognize_command(image_path@, language@));
    args
}

/// The language that a JSON value describes: an object with the strings
/// `Code` and `Name`, read in this order.
pub open spec fn language_of(json: JsonModel) -> Result<LanguageModel, Seq<char>> {
    match as_object(json) {
        Err(e) => Err(e),
        Ok(fields) => match text_field(fields, "Code"@) {
            Err(e) => Err(e),
            Ok(code) => match text_field(fields, "Name"@) {
                Err(e) => Err(e),
                Ok(name) => Ok(LanguageModel { code, name }),
            },
        },
    }
}

/// `language_of` as a reader of items.
pub open spec fn language_reader() -> spec_fn(JsonModel) -> Result<LanguageModel, Seq<char>> {
    |json: JsonModel| language_of(json)
}

/// The languages that a JSON value lists: an array of languages.
pub open spec fn languages_of(json: JsonModel) -> Result<Seq<LanguageModel>, Seq<char>> {
    match as_array(json) {
        Ok(items) => read_all(items, language_reader()),
        Err(e) => Err(e),
    }
}

/// The JSON object that describes a language.
pub open spec fn language_json(language: LanguageModel) -> JsonModel {
    JsonModel::Object(
        seq![("Code"@, JsonModel::Text(language.code)), ("Name"@, JsonModel::Text(language.name))],
    )
}

/// The views of the two sides of a decoded language.
pub open spec fn language_result_view(r: Result<OcrLanguage, String>) -> Result<
    LanguageModel,
    Seq<char>,
> {
    match r {
        Ok(language) => Ok(language@),
        Err(e) => Err(e@),
    }
}

/// The views of the two sides of a decoded list of languages.
pub open spec fn languages_result_view(r: Result<Vec<OcrLanguage>, String>) -> Result<
    Seq<LanguageModel>,
    Seq<char>,
> {
    match r {
        Ok(languages) => Ok(languages_view(languages@)),
        Err(e) => Err(e@),
    }
}

impl OcrLanguage {
    /// Decodes a language from the JSON object that describes it.
    pub fn from_json(json: &JsonValue) -> (r: Result<OcrLanguage, String>)
        ensures
            language_result_view(r) == language_of(json@),
    {
        let fields = match json.object_fields() {
            Ok(fields) => fields,
            Err(e) => {
                return Err(e);
            },
        };
        let code = match read_text_field(fields, "Code") {
            Ok(code) => code,
            Err(e) => {
                return Err(e);
            },
        };
        let name = match read_text_field(fields, "Name") {
            Ok(name) => name,
            Err(e) => {
                return Err(e);
            },
        };
        Ok(OcrLanguage { code, name })
    }

    /// Encodes the language as the JSON object that describes it.
    pub fn to_json(&self) -> (json: JsonValue)
        ensures
            json@ == language_json(self@),
    {
        let mut fields: Vec<JsonField> = Vec::new();
        fields.push(
            JsonField { name: String::from_str("Code"), value: JsonValue::Text(self.code.clone()) },
        );
        fields.push(
            JsonField { name: String::from_str("Name"), value: JsonValue::Text(self.name.clone()) },
        );
        let json = JsonValue::Object(fields);
        proof {
            lemma_view_of_parts(&json);
            assert(fields_view(fields@) =~= language_json(self@)->Object_0);
        }
        json
    }
}

/// Decoding the JSON object of a language gives the language back.
pub proof fn lemma_language_round_trip(language: LanguageModel)
    ensures
        language_of(language_json(language)) == Ok::<_, Seq<char>>(language),
{
    reveal_strlit("Code");
    reveal_strlit("Name");
    reveal_with_fuel(member, 3);
    let fields = language_json(language)->Object_0;
    assert("Code"@ != "Name"@) by {
        assert("Code"@[0] != "Name"@[0]);
    }
    assert(fields.subrange(1, 2)[0] == fields[1]);
    assert(member(fields, "Code"@) == Some(JsonModel::Text(language.code)));
    assert(member(fields, "Name"@) == Some(JsonModel::Text(language.name)));
}

/// Decodes the list of languages from the JSON array that the helper writes.
pub fn languages_from_json(json: &JsonValue) -> (r: Result<Vec<OcrLanguage>, String>)
    ensures
        languages_result_view(r) == languages_of(json@),
{
    let items = match json.array_items() {
        Ok(items) => items,
        Err(e) => {
            return Err(e);
        },
    };
    let ghost all = items_view(items@);
    let mut languages: Vec<OcrLanguage> = Vec::new();
    let mut i: usize = 0;
    assert(all.take(0) =~= Seq::empty());
    assert(languages_view(languages@) =~= Seq::empty());
    while i < items.len()
        invariant
            i <= items.len(),
            all == items_view(items@),
            as_array(json@) == Ok::<_, Seq<char>>(all),
            read_all(all.take(i as int), language_reader()) == Ok::<_, Seq<char>>(
                languages_view(languages@),
            ),
        decreases items.len() - i,
    {
        assert(all.take(i + 1).drop_last() =~= all.take(i as int));
        assert(all.take(i + 1).last() == items@[i as int]@);
        match OcrLanguage::from_json(&items[i]) {
            Ok(language) => {
                let ghost before = languages_view(languages@);
                languages.push(language);
                assert(languages_view(languages@) =~= before.push(language@));
            },
            Err(e) => {
                proof {
                    lemma_read_all_stops(all, language_reader(), i as int);
                }
                return Err(e);
            },
        }
        i += 1;
    }
    assert(all.take(i as int) =~= all);
    Ok(languages)
}

/// What asking for the languages returns for a finished run of the helper.
pub open spec fn languages_outcome(output: HelperOutput) -> Result<
    Seq<LanguageModel>,
    ErrorModel,
> {
    match output.spec_stdout_json() {
        Ok(json) => shape_failure(languages_of(json)),
        Err(e) => Err(e),
    }
}

/// What asking for the languages returns for one attempt to run the helper,
/// whether it ran or could not be started.
pub open spec fn languages_of_run(outcome: Result<HelperOutput, String>) -> Result<
    Seq<LanguageModel>,
    ErrorModel,
> {
    match outcome {
        Ok(output) => languages_outcome(output),
        Err(why) => Err(launch_failure(why@)),
    }
}

/// What recognising returns for one attempt to run the helper, whether it
/// ran or could not be started.
pub open spec fn text_of_run(outcome: Result<HelperOutput, String>) -> Result<
    Seq<char>,
    ErrorModel,
> {
    match outcome {
        Ok(output) => output.spec_stdout_text(),
        Err(why) => Err(launch_failure(why@)),
    }
}

/// The views of the two sides of the result of asking for the languages.
pub open spec fn languages_or_error_view(r: Result<Vec<OcrLanguage>, Naps2Error>) -> Result<
    Seq<LanguageModel>,
    ErrorModel,
> {
    match r {
        Ok(languages) => Ok(languages_view(languages@)),
        Err(e) => Err(e@),
    }
}

/// Judges a finished run of the helper that was asked for its languages.
///
/// A run that did not end well is a `HelperExecutionError` with the text of
/// standard error, whatever standard output holds. A run that ended well
/// gives the languages that standard output lists, or a `HelperOutputError`
/// where it is no JSON or lists no languages.
pub fn languages_from_output(output: &HelperOutput) -> (r: Result<Vec<OcrLanguage>, Naps2Error>)
    ensures
        languages_or_error_view(r) == languages_outcome(*output),
        !output.succeeded() ==> (r matches Err(e) && e@ == execution_failure(output.stderr@)),
        output.succeeded() ==> (r matches Err(e) ==> e@.kind == ErrorKind::HelperOutput),
        output.succeeded() ==> (r is Ok <==> (json_document(utf8_lossy(output.stdout@))
            matches Ok(json) && languages_of(json) is Ok)),
{
    match output.stdout_json() {
        Ok(json) => shaped(languages_from_json(&json)),
        Err(e) => Err(e),
    }
}

/// Judges a finished run of the helper that was asked to recognise text.
///
/// Standard output of a run that ended well is the recognised text as it
/// stands: it is not read as JSON, and nothing is taken from it or added.
/// A run that did not end well is a `HelperExecutionError` with the text of
/// standard error.
pub fn text_from_output(output: &HelperOutput) -> (r: Result<String, Naps2Error>)
    ensures
        text_or_error_view(r) == output.spec_stdout_text(),
        output.succeeded() ==> (r matches Ok(text) && text@ == utf8_lossy(output.stdout@)),
        output.succeeded() && valid_utf8(output.stdout@) ==> (r matches Ok(text) && text@
            == decode_utf8(output.stdout@)),
        !output.succeeded() ==> (r matches Err(e) && e@ == execution_failure(output.stderr@)),
{
    output.stdout_text()
}

/// The part of the bindings that recognises text.
pub struct OcrClient {
    helper_path: String,
}

impl OcrClient {
    /// The path of the helper program that this client runs.
    pub closed spec fn path(&self) -> Seq<char> {
        self.helper_path@
    }

    /// A client for the helper program at `helper_path`.
    pub fn new(helper_path: String) -> (client: Self)
        ensures
            client.path() == helper_path@,
    {
        Self { helper_path }
    }

    /// The path of the helper program that this client runs.
    pub fn helper_path(&self) -> (path: &str)
        ensures
            path@ == self.path(),
    {
        self.helper_path.as_str()
    }

    /// Asks the helper which languages it can recognise.
    ///
    /// The helper is run once, with the arguments of `languages_args`, and
    /// what it leaves behind is judged by `languages_from_output`.
    pub fn get_languages<R: HelperRunner>(&self, runner: &R) -> (r: Result<
        Vec<OcrLanguage>,
        Naps2Error,
    >)
        ensures
            exists|outcome: Result<HelperOutput, String>|
                languages_or_error_view(r) == #[trigger] languages_of_run(outcome),
            r matches Err(e) ==> e.from_helper(),
    {
        let args = languages_args();
        let outcome = runner.run(self.helper_path.as_str(), &args);
        let ghost seen = outcome;
        let r = match launched(outcome) {
            Ok(output) => languages_from_output(&output),
            Err(e) => Err(e),
        };
        assert(languages_or_error_view(r) == languages_of_run(seen));
        r
    }

    /// Recognises the text of one image in the given language.
    ///
    /// The helper is run once, with the arguments of `recognize_args`, and
    /// what it leaves behind is judged by `text_from_output`.
    pub fn recognize<R: HelperRunner>(&self, runner: &R, image_path: &str, language: &str) -> (r:
        Result<String, Naps2Error>)
        ensures
            exists|outcome: Result<HelperOutput, String>|
                text_or_error_view(r) == #[trigger] text_of_run(outcome),
            r matches Err(e) ==> e@.kind == ErrorKind::HelperExecution,
    {
        let args = recognize_args(image_path, language);
        let outcome = runner.run(self.helper_path.as_str(), &args);
        let ghost seen = outcome;
        let r = match launched(outcome) {
            Ok(output) => text_from_output(&output),
            Err(e) => Err(e),
        };
        assert(text_or_error_view(r) == text_of_run(seen));
        r
    }
}

} // verus!
