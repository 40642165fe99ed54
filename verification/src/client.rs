//! The client that holds the three parts of the bindings together, and the
//! saving of images as JPEG files.

use vstd::prelude::*;
use vstd::string::*;
use crate::command::{push_token, push_tokens, with_paths};
use crate::error::{ErrorKind, ErrorModel, Naps2Error};
use crate::helper::{
    execution_failure,
    launch_failure,
    launched,
    shape_failure,
    shaped,
    utf8_lossy,
    HelperOutput,
    HelperRunner,
};
use crate::json::{
    as_object,
    count_field,
    fields_view,
    flag_field,
    json_document,
    lemma_view_of_parts,
    member,
    optional_text_field,
    read_count_field,
    read_flag_field,
    read_optional_text_field,
    read_text_field,
    read_text_list_field,
    text_field,
    text_list_field,
    texts_view,
    JsonField,
    JsonModel,
    JsonValue,
};
use crate::ocr::OcrClient;
use crate::pdf::PdfClient;
use crate::scan::{lemma_text_list_round_trip, text_list_json, text_list_to_json, ScanClient};

verus! {

/// What the helper reports after saving images as JPEG files.
///
/// The helper gives an `error` only where `success` is false.
#[derive(Debug, Clone, PartialEq, Eq)]
pub struct JpegSaveResult {
    pub success: bool,
    pub directory: String,
    pub files: Vec<String>,
    pub count: usize,
    pub error: Option<String>,
}

/// What a `JpegSaveResult` denotes.
pub struct JpegSaveModel {
    pub success: bool,
    pub directory: Seq<char>,
    pub files: Seq<Seq<char>>,
    pub count: usize,
    pub error: Option<Seq<char>>,
}

/// What a string that may be absent denotes.
pub open spec fn optional_view(text: Option<String>) -> Option<Seq<char>> {
    match text {
        Some(s) => Some(s@),
        None => None,
    }
}

impl View for JpegSaveResult {
    type V = JpegSaveModel;

    open spec fn view(&self) -> JpegSaveModel {
        JpegSaveModel {
            success: self.success,
            directory: self.directory@,
            files: texts_view(self.files@),
            count: self.count,
            error: optional_view(self.error),
        }
    }
}

/// The arguments that ask the helper to save images as JPEG files: the two
/// words of the command, the directory to write to, and the images in the
/// order given.
pub open spec fn save_as_jpeg_command(output_dir: Seq<char>, image_paths: Seq<Seq<char>>) -> Seq<
    Seq<char>,
> {
    with_paths(seq!["pdf"@, "jpeg"@, output_dir], image_paths)
}

/// Builds the arguments that ask the helper to save images as JPEG files.
pub fn save_as_jpeg_args(image_paths: &[String], output_dir: &str) -> (args: Vec<String>)
    ensures
        texts_view(args@) == save_as_jpeg_command(output_dir@, texts_view(image_paths@)),
{
    let mut args: Vec<String> = Vec::new();
    push_token(&mut args, "pdf");
    push_token(&mut args, "jpeg");
    push_token(&mut args, output_dir);
    assert(texts_view(args@) =~= seq!["pdf"@, "jpeg"@, output_dir@]);
    push_tokens(&mut args, image_paths);
    args
}

/// The report that a JSON value holds: an object with the boolean `Success`,
/// the string `Directory`, the list of strings `Files`, the count `Count`
/// and, where there is one, the string `Error`, read in this order. An
/// `Error` that is left out or `null` is no error.
pub open spec fn jpeg_result_of(json: JsonModel) -> Result<JpegSaveModel, Seq<char>> {
    match as_object(json) {
        Err(e) => Err(e),
        Ok(fields) => match flag_field(fields, "Success"@) {
            Err(e) => Err(e),
            Ok(success) => match text_field(fields, "Directory"@) {
                Err(e) => Err(e),
                Ok(directory) => match text_list_field(fields, "Files"@) {
                    Err(e) => Err(e),
                    Ok(files) => match count_field(fields, "Count"@) {
                        Err(e) => Err(e),
                        Ok(count) => match optional_text_field(fields, "Error"@) {
                            Err(e) => Err(e),
                            Ok(error) => Ok(
                                JpegSaveModel { success, directory, files, count, error },
                            ),
                        },
                    },
                },
            },
        },
    }
}

/// The member that carries an error, or no member where there is none.
pub open spec fn error_member(error: Option<Seq<char>>) -> Seq<(Seq<char>, JsonModel)> {
    match error {
        Some(text) => seq![("Error"@, JsonModel::Text(text))],
        None => Seq::empty(),
    }
}

/// The JSON object that holds a report. Where there is no error the object
/// has no `Error` member at all.
pub open spec fn jpeg_result_json(result: JpegSaveModel) -> JsonModel {
    JsonModel::Object(
        seq![
            ("Success"@, JsonModel::Bool(result.success)),
            ("Directory"@, JsonModel::Text(result.directory)),
            ("Files"@, text_list_json(result.files)),
            ("Count"@, JsonModel::Number(Some(result.count as u64))),
        ] + error_member(result.error),
    )
}

/// The views of the two sides of a decoded report.
pub open spec fn jpeg_result_view(r: Result<JpegSaveResult, String>) -> Result<
    JpegSaveModel,
    Seq<char>,
> {
    match r {
        Ok(result) => Ok(result@),
        Err(e) => Err(e@),
    }
}

impl JpegSaveResult {
    /// Decodes a report from the JSON object that holds it.
    pub fn from_json(json: &JsonValue) -> (r: Result<JpegSaveResult, String>)
        ensures
            jpeg_result_view(r) == jpeg_result_of(json@),
    {
        let fields = match json.object_fields() {
            Ok(fields) => fields,
            Err(e) => {
                return Err(e);
            },
        };
        let success = match read_flag_field(fields, "Success") {
            Ok(success) => success,
            Err(e) => {
                return Err(e);
            },
        };
        let directory = match read_text_field(fields, "Directory") {
            Ok(directory) => directory,
            Err(e) => {
                return Err(e);
            },
        };
        let files = match read_text_list_field(fields, "Files") {
            Ok(files) => files,
            Err(e) => {
                return Err(e);
            },
        };
        let count = match read_count_field(fields, "Count") {
            Ok(count) => count,
            Err(e) => {
                return Err(e);
            },
        };
        let error = match read_optional_text_field(fields, "Error") {
            Ok(error) => error,
            Err(e) => {
                return Err(e);
            },
        };
        Ok(JpegSaveResult { success, directory, files, count, error })
    }

    /// Encodes the report as the JSON object that holds it.
    pub fn to_json(&self) -> (json: JsonValue)
        ensures
            json@ == jpeg_result_json(self@),
    {
        let mut fields: Vec<JsonField> = Vec::new();
        fields.push(
            JsonField { name: String::from_str("Success"), value: JsonValue::Bool(self.success) },
        );
        fields.push(
            JsonField {
                name: String::from_str("Directory"),
                value: JsonValue::Text(self.directory.clone()),
            },
        );
        fields.push(
            JsonField { name: String::from_str("Files"), value: text_list_to_json(&self.files) },
        );
        fields.push(
            JsonField {
                name: String::from_str("Count"),
                value: JsonValue::Number(Some(self.count as u64)),
            },
        );
        match &self.error {
            Some(text) => {
                fields.push(
                    JsonField {
                        name: String::from_str("Error"),
                        value: JsonValue::Text(text.clone()),
                    },
                );
            },
            None => {},
        }
        let json = JsonValue::Object(fields);
        proof {
            lemma_view_of_parts(&json);
            assert(fields_view(fields@) =~= jpeg_result_json(self@)->Object_0);
        }
        json
    }
}

/// Decoding the JSON object of a report gives the report back. In
/// particular a report without an error comes back without one, and not
/// with an empty text in its place.
pub proof fn lemma_jpeg_result_round_trip(result: JpegSaveModel)
    ensures
        jpeg_result_of(jpeg_result_json(result)) == Ok::<_, Seq<char>>(result),
        result.error is None ==> member(jpeg_result_json(result)->Object_0, "Error"@) is None,
{
    reveal_strlit("Success");
    reveal_strlit("Directory");
    reveal_strlit("Files");
    reveal_strlit("Count");
    reveal_strlit("Error");
    reveal_with_fuel(member, 6);
    let fields = jpeg_result_json(result)->Object_0;
    let n = fields.len() as int;
    assert("Success"@[0] == 'S' && "Directory"@[0] == 'D' && "Files"@[0] == 'F' && "Count"@[0]
        == 'C' && "Error"@[0] == 'E');
    let r1 = fields.subrange(1, n);
    let r2 = r1.subrange(1, r1.len() as int);
    let r3 = r2.subrange(1, r2.len() as int);
    let r4 = r3.subrange(1, r3.len() as int);
    assert(r1[0] == fields[1]);
    assert(r2[0] == fields[2]);
    assert(r3[0] == fields[3]);
    assert(fields[0].0 == "Success"@);
    assert(fields[1].0 == "Directory"@);
    assert(fields[2].0 == "Files"@);
    assert(fields[3].0 == "Count"@);
    assert(member(fields, "Success"@) == Some(JsonModel::Bool(result.success)));
    assert(member(fields, "Directory"@) == Some(JsonModel::Text(result.directory)));
    assert(member(fields, "Files"@) == Some(text_list_json(result.files)));
    assert(member(fields, "Count"@) == Some(JsonModel::Number(Some(result.count as u64))));
    match result.error {
        Some(text) => {
            assert(r4[0] == fields[4]);
            assert(fields[4] == ("Error"@, JsonModel::Text(text)));
            assert(member(fields, "Error"@) == Some(JsonModel::Text(text)));
        },
        None => {
            assert(r4.len() == 0);
            assert(member(fields, "Error"@) is None);
        },
    }
    lemma_text_list_round_trip(result.files);
}

/// What saving as JPEG returns for a finished run of the helper.
pub open spec fn jpeg_outcome(output: HelperOutput) -> Result<JpegSaveModel, ErrorModel> {
    match output.spec_stdout_json() {
        Ok(json) => shape_failure(jpeg_result_of(json)),
        Err(e) => Err(e),
    }
}

/// What saving as JPEG returns for one attempt to run the helper, whether it
/// ran or could not be started.
pub open spec fn jpeg_of_run(outcome: Result<HelperOutput, String>) -> Result<
    JpegSaveModel,
    ErrorModel,
> {
    match outcome {
        Ok(output) => jpeg_outcome(output),
        Err(why) => Err(launch_failure(why@)),
    }
}

/// The views of the two sides of the result of saving as JPEG.
pub open spec fn jpeg_or_error_view(r: Result<JpegSaveResult, Naps2Error>) -> Result<
    JpegSaveModel,
    ErrorModel,
> {
    match r {
        Ok(result) => Ok(result@),
        Err(e) => Err(e@),
    }
}

/// Judges a finished run of the helper that was asked to save JPEG files.
///
/// A run that did not end well is a `HelperExecutionError` with the text of
/// standard error, whatever standard output holds. A run that ended well
/// gives the report that standard output holds, or a `HelperOutputError`
/// where it is no JSON or holds no report. A report of a failure, with
/// `success` false, is handed on as it is.
pub fn jpeg_result_from_output(output: &HelperOutput) -> (r: Result<JpegSaveResult, Naps2Error>)
    ensures
        jpeg_or_error_view(r) == jpeg_outcome(*output),
        !output.succeeded() ==> (r matches Err(e) && e@ == execution_failure(output.stderr@)),
        output.succeeded() ==> (r matches Err(e) ==> e@.kind == ErrorKind::HelperOutput),
        output.succeeded() ==> (r is Ok <==> (json_document(utf8_lossy(output.stdout@))
            matches Ok(json) && jpeg_result_of(json) is Ok)),
{
    match output.stdout_json() {
        Ok(json) => shaped(JpegSaveResult::from_json(&json)),
        Err(e) => Err(e),
    }
}

/// The bindings as a whole: one helper program, reached through a part for
/// scanning, one for PDF files and one for text recognition.
pub struct Naps2Client {
    helper_path: String,
    scan_client: ScanClient,
    pdf_client: PdfClient,
    ocr_client: OcrClient,
}

impl Naps2Client {
    /// The path of the helper program that this client runs.
    pub closed spec fn path(&self) -> Seq<char> {
        self.helper_path@
    }

    /// The part for scanning.
    pub closed spec fn spec_scan(&self) -> &ScanClient {
        &self.scan_client
    }

    /// The part for PDF files.
    pub closed spec fn spec_pdf(&self) -> &PdfClient {
        &self.pdf_client
    }

    /// The part for text recognition.
    pub closed spec fn spec_ocr(&self) -> &OcrClient {
        &self.ocr_client
    }

    /// A client for the helper program at `helper_path`. Every part of it
    /// runs that same program.
    pub fn new(helper_path: String) -> (client: Self)
        ensures
            client.path() == helper_path@,
            client.spec_scan().path() == helper_path@,
            client.spec_pdf().path() == helper_path@,
            client.spec_ocr().path() == helper_path@,
    {
        let scan_client = ScanClient::new(helper_path.clone());
        let pdf_client = PdfClient::new(helper_path.clone());
        let ocr_client = OcrClient::new(helper_path.clone());
        Self { helper_path, scan_client, pdf_client, ocr_client }
    }

    /// The path of the helper program that this client runs.
    pub fn helper_path(&self) -> (path: &str)
        ensures
            path@ == self.path(),
    {
        self.helper_path.as_str()
    }

    /// The part for scanning.
    #[verifier::when_used_as_spec(spec_scan)]
    pub fn scan(&self) -> (part: &ScanClient)
        ensures
            part == self.spec_scan(),
    {
        &self.scan_client
    }

    /// The part for PDF files.
    #[verifier::when_used_as_spec(spec_pdf)]
    pub fn pdf(&self) -> (part: &PdfClient)
        ensures
            part == self.spec_pdf(),
    {
        &self.pdf_client
    }

    /// The part for text recognition.
    #[verifier::when_used_as_spec(spec_ocr)]
    pub fn ocr(&self) -> (part: &OcrClient)
        ensures
            part == self.spec_ocr(),
    {
        &self.ocr_client
    }

    /// Saves the images, in the order given, as JPEG files in `output_dir`.
    ///
    /// The helper is run once, with the arguments of `save_as_jpeg_args`,
    /// and what it leaves behind is judged by `jpeg_result_from_output`.
    pub fn save_as_jpeg<R: HelperRunner>(
        &self,
        runner: &R,
        image_paths: &[String],
        output_dir: &str,
    ) -> (r: Result<JpegSaveResult, Naps2Error>)
        ensures
            exists|outcome: Result<HelperOutput, String>|
                jpeg_or_error_view(r) == #[trigger] jpeg_of_run(outcome),
            r matches Err(e) ==> e.from_helper(),
    {
        let args = save_as_jpeg_args(image_paths, output_dir);
        let outcome = runner.run(self.helper_path.as_str(), &args);
        let ghost seen = outcome;
        let r = match launched(outcome) {
            Ok(output) => jpeg_result_from_output(&output),
            Err(e) => Err(e),
        };
        assert(jpeg_or_error_view(r) == jpeg_of_run(seen));
        r
    }
}

} // verus!
