//! PDF export and import: the two commands and how their runs are judged.

use vstd::prelude::*;
use vstd::string::*;
use crate::command::{push_token, push_tokens, with_paths};
use crate::error::{ErrorKind, ErrorModel, Naps2Error};
use crate::helper::{
    execution_failure,
    launch_failure,
    launched,
    shape_failure,
    shaped,
    utf8_lossy,
    HelperOutput,
    HelperRunner,
};
use crate::json::{as_text_list, json_document, texts_view};

verus! {

/// The arguments that ask the helper to write a PDF: the two words of the
/// command, the file to write, and the images in the order given.
pub open spec fn export_pdf_command(output_path: Seq<char>, image_paths: Seq<Seq<char>>) -> Seq<
    Seq<char>,
> {
    with_paths(seq!["pdf"@, "export"@, output_path], image_paths)
}

/// The arguments that ask the helper to take a PDF apart into images.
pub open spec fn import_pdf_command(pdf_path: Seq<char>) -> Seq<Seq<char>> {
    seq!["pdf"@, "import"@, pdf_path]
}

/// Builds the arguments that ask the helper to write a PDF.
pub fn export_pdf_args(output_path: &str, image_paths: &[String]) -> (args: Vec<String>)
    ensures
        texts_view(args@) == export_pdf_command(output_path@, texts_view(image_paths@)),
{
    let mut args: Vec<String> = Vec::new();
    push_token(&mut args, "pdf");
    push_token(&mut args, "export");
    push_token(&mut args, output_path);
    assert(texts_view(args@) =~= seq!["pdf"@, "export"@, output_path@]);
    push_tokens(&mut args, image_paths);
    args
}

/// Builds the arguments that ask the helper to take a PDF apart into images.
pub fn import_pdf_args(pdf_path: &str) -> (args: Vec<String>)
    ensures
        texts_view(args@) == import_pdf_command(pdf_path@),
{
    let mut args: Vec<String> = Vec::new();
    push_token(&mut args, "pdf");
    push_token(&mut args, "import");
    push_token(&mut args, pdf_path);
    assert(texts_view(args@) =~= import_pdf_command(pdf_path@));
    args
}

/// What importing returns for a finished run of the helper.
pub open spec fn import_outcome(output: HelperOutput) -> Result<Seq<Seq<char>>, ErrorModel> {
    match output.spec_stdout_json() {
        Ok(json) => shape_failure(as_text_list(json)),
        Err(e) => Err(e),
    }
}

/// What exporting returns for one attempt to run the helper, whether it ran
/// or could not be started.
pub open spec fn export_of_run(outcome: Result<HelperOutput, String>) -> Result<(), ErrorModel> {
    match outcome {
        Ok(output) => if output.succeeded() {
            Ok(())
        } else {
            Err(execution_failure(output.stderr@))
        },
        Err(why) => Err(launch_failure(why@)),
    }
}

/// What importing returns for one attempt to run the helper, whether it ran
/// or could not be started.
pub open spec fn import_of_run(outcome: Result<HelperOutput, String>) -> Result<
    Seq<Seq<char>>,
    ErrorModel,
> {
    match outcome {
        Ok(output) => import_outcome(output),
        Err(why) => Err(launch_failure(why@)),
    }
}

/// The views of the two sides of the result of exporting.
pub open spec fn done_or_error_view(r: Result<(), Naps2Error>) -> Result<(), ErrorModel> {
    match r {
        Ok(done) => Ok(done),
        Err(e) => Err(e@),
    }
}

/// The views of the two sides of the result of importing.
pub open spec fn paths_or_error_view(r: Result<Vec<String>, Naps2Error>) -> Result<
    Seq<Seq<char>>,
    ErrorModel,
> {
    match r {
        Ok(paths) => Ok(texts_view(paths@)),
        Err(e) => Err(e@),
    }
}

/// Judges a finished run of the helper that was asked to write a PDF.
///
/// Only the exit status counts: standard output is not looked at. A run that
/// did not end well is a `HelperExecutionError` with the text of standard
/// error.
pub fn export_from_output(output: &HelperOutput) -> (r: Result<(), Naps2Error>)
    ensures
        done_or_error_view(r) == export_of_run(Ok(*output)),
        output.succeeded() <==> r is Ok,
        !output.succeeded() ==> (r matches Err(e) && e@ == execution_failure(output.stderr@)),
{
    output.completed()
}

/// Judges a finished run of the helper that was asked to take a PDF apart.
///
/// A run that did not end well is a `HelperExecutionError` with the text of
/// standard error, whatever standard output holds. A run that ended well
/// gives the paths that standard output lists, or a `HelperOutputError` where
/// it is no JSON or no list of strings.
pub fn import_from_output(output: &HelperOutput) -> (r: Result<Vec<String>, Naps2Error>)
    ensures
        paths_or_error_view(r) == import_outcome(*output),
        !output.succeeded() ==> (r matches Err(e) && e@ == execution_failure(output.stderr@)),
        output.succeeded() ==> (r matches Err(e) ==> e@.kind == ErrorKind::HelperOutput),
        output.succeeded() ==> (r is Ok <==> (json_document(utf8_lossy(output.stdout@))
            matches Ok(json) && as_text_list(json) is Ok)),
{
    match output.stdout_json() {
        Ok(json) => shaped(json.text_list()),
        Err(e) => Err(e),
    }
}

/// The part of the bindings that writes and reads PDF files.
pub struct PdfClient {
    helper_path: String,
}

impl PdfClient {
    /// The path of the helper program that this client runs.
    pub closed spec fn path(&self) -> Seq<char> {
        self.helper_path@
    }

    /// A client for the helper program at `helper_path`.
    pub fn new(helper_path: String) -> (client: Self)
        ensures
            client.path() == helper_path@,
    {
        Self { helper_path }
    }

    /// The path of the helper program that this client runs.
    pub fn helper_path(&self) -> (path: &str)
        ensures
            path@ == self.path(),
    {
        self.helper_path.as_str()
    }

    /// Writes the images, in the order given, into one PDF file.
    ///
    /// The helper is run once, with the arguments of `export_pdf_args`, and
    /// what it leaves behind is judged by `export_from_output`.
    pub fn export_pdf<R: HelperRunner>(
        &self,
        runner: &R,
        output_path: &str,
        image_paths: &[String],
    ) -> (r: Result<(), Naps2Error>)
        ensures
            exists|outcome: Result<HelperOutput, String>|
                done_or_error_view(r) == #[trigger] export_of_run(outcome),
            r matches Err(e) ==> e@.kind == ErrorKind::HelperExecution,
    {
        let args = export_pdf_args(output_path, image_paths);
        let outcome = runner.run(self.helper_path.as_str(), &args);
        let ghost seen = outcome;
        let r = match launched(outcome) {
            Ok(output) => export_from_output(&output),
            Err(e) => Err(e),
        };
        assert(done_or_error_view(r) == export_of_run(seen));
        r
    }

    /// Takes a PDF file apart into images and gives their paths.
    ///
    /// The helper is run once, with the arguments of `import_pdf_args`, and
    /// what it leaves behind is judged by `import_from_output`.
    pub fn import_pdf<R: HelperRunner>(&self, runner: &R, pdf_path: &str) -> (r: Result<
        Vec<String>,
        Naps2Error,
    >)
        ensures
            exists|outcome: Result<HelperOutput, String>|
                paths_or_error_view(r) == #[trigger] import_of_run(outcome),
            r matches Err(e) ==> e.from_helper(),
    {
        let args = import_pdf_args(pdf_path);
        let outcome = runner.run(self.helper_path.as_str(), &args);
        let ghost seen = outcome;
        let r = match launched(outcome) {
            Ok(output) => import_from_output(&output),
            Err(e) => Err(e),
        };
        assert(paths_or_error_view(r) == import_of_run(seen));
        r
    }
}

} // verus!
