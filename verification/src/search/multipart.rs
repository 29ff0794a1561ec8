//! The multipart body of an upload.

use crate::text::views;
use reqwest::multipart::Form;
use vstd::prelude::*;

verus! {

/// A multipart form of `reqwest`.
#[verifier::external_type_specification]
#[verifier::external_body]
pub struct ExForm(Form);

/// The text fields of a form in the order they were added, each as its field
/// name and its text.
pub uninterp spec fn form_parts(form: Form) -> Seq<(Seq<char>, Seq<char>)>;

/// Calls `Form::new`, which makes a form without fields.
#[verifier::external_body]
fn empty_form() -> (form: Form)
    ensures
        form_parts(form) == Seq::<(Seq<char>, Seq<char>)>::empty(),
{
    Form::new()
}

/// Calls `Form::text`, which appends one text field to the fields of the form
/// and leaves the earlier ones as they are.
#[verifier::external_body]
fn add_text(form: Form, name: &'static str, value: String) -> (grown: Form)
    ensures
        form_parts(grown) == form_parts(form).push((name@, value@)),
{
    form.text(name, value)
}

/// Field name under which every uploaded file is sent.
pub const FILES_FIELD: &'static str = "files[]";

/// One part per file, in the order of `files`, each under `FILES_FIELD`.
pub open spec fn file_parts(files: Seq<Seq<char>>) -> Seq<(Seq<char>, Seq<char>)> {
    Seq::new(files.len(), |i: int| (FILES_FIELD@, files[i]))
}

/// Builds the multipart form of an upload: one text part per file, in input
/// order, all under `FILES_FIELD`. No file gives a form without parts.
pub fn files_form(files: &Vec<String>) -> (form: Form)
    ensures
        form_parts(form) == file_parts(views(files@)),
        form_parts(form).len() == files.len(),
        forall|i: int|
            0 <= i < files.len() ==> #[trigger] form_parts(form)[i] == (FILES_FIELD@, files[i]@),
{
    let mut form = empty_form();
    let mut i: usize = 0;
    while i < files.len()
        invariant
            i <= files.len(),
            form_parts(form) == file_parts(views(files@).take(i as int)),
        decreases files.len() - i,
    {
        let file = files[i].clone();
        form = add_text(form, FILES_FIELD, file);
        i = i + 1;
    }
    form
}

} // verus!
