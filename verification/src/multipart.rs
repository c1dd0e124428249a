use vstd::prelude::*;
use vstd::utf8::encode_utf8;

verus! {

#[verifier::external_type_specification]
#[verifier::external_body]
pub struct ExBlockingForm(reqwest::blocking::multipart::Form);

#[verifier::external_type_specification]
#[verifier::external_body]
pub struct ExBlockingPart(reqwest::blocking::multipart::Part);

/// One field of a form: its name, the bytes of its content, and the file name that goes
/// with the content, if any.
pub type Field = (Seq<char>, Seq<u8>, Option<Seq<char>>);

/// The field that a text makes: its content is the text in UTF-8, and it has no file name.
pub open spec fn text_field(name: Seq<char>, value: Seq<char>) -> Field {
    (name, encode_utf8(value), None)
}

/// The fields of a blocking form, in the order in which they were added.
pub uninterp spec fn blocking_form_fields(form: reqwest::blocking::multipart::Form) -> Seq<Field>;

/// The content of a blocking form's part and the file name set on it.
pub uninterp spec fn blocking_part_fields(part: reqwest::blocking::multipart::Part) -> (
    Seq<u8>,
    Option<Seq<char>>,
);

/// `reqwest::blocking::multipart::Form::new`: the form it makes holds no field.
#[verifier::external_body]
pub(crate) fn blocking_form_new() -> (form: reqwest::blocking::multipart::Form)
    ensures
        blocking_form_fields(form) == Seq::<Field>::empty(),
{
    reqwest::blocking::multipart::Form::new()
}

/// `reqwest::blocking::multipart::Form::text`: the fields that the form held stay, and
/// one text field with the given name and value follows them.
#[verifier::external_body]
pub(crate) fn blocking_form_text(
    form: reqwest::blocking::multipart::Form,
    name: &'static str,
    value: String,
) -> (out: reqwest::blocking::multipart::Form)
    ensures
        blocking_form_fields(out) == blocking_form_fields(form).push(text_field(name@, value@)),
{
    form.text(name, value)
}

/// `reqwest::blocking::multipart::Part::bytes`: a part whose content is the given bytes,
/// with no file name.
#[verifier::external_body]
pub(crate) fn blocking_part_bytes(content: Vec<u8>) -> (part: reqwest::blocking::multipart::Part)
    ensures
        blocking_part_fields(part) == (content@, None::<Seq<char>>),
{
    reqwest::blocking::multipart::Part::bytes(content)
}

/// `reqwest::blocking::multipart::Part::file_name`: the same content, under the given
/// file name.
#[verifier::external_body]
pub(crate) fn blocking_part_file_name(
    part: reqwest::blocking::multipart::Part,
    file_name: String,
) -> (out: reqwest::blocking::multipart::Part)
    ensures
        blocking_part_fields(out) == (blocking_part_fields(part).0, Some(file_name@)),
{
    part.file_name(file_name)
}

/// `reqwest::blocking::multipart::Form::part`: the fields that the form held stay, and
/// the given part follows them under the given name.
#[verifier::external_body]
pub(crate) fn blocking_form_part(
    form: reqwest::blocking::multipart::Form,
    name: &'static str,
    part: reqwest::blocking::multipart::Part,
) -> (out: reqwest::blocking::multipart::Form)
    ensures
        blocking_form_fields(out) == blocking_form_fields(form).push(
            (name@, blocking_part_fields(part).0, blocking_part_fields(part).1),
        ),
{
    form.part(name, part)
}

#[verifier::external_type_specification]
#[verifier::external_body]
pub struct ExAsyncForm(reqwest::multipart::Form);

#[verifier::external_type_specification]
#[verifier::external_body]
pub struct ExAsyncPart(reqwest::multipart::Part);

/// The fields of an asynchronous form, in the order in which they were added.
pub uninterp spec fn async_form_fields(form: reqwest::multipart::Form) -> Seq<Field>;

/// The content of an asynchronous form's part and the file name set on it.
pub uninterp spec fn async_part_fields(part: reqwest::multipart::Part) -> (
    Seq<u8>,
    Option<Seq<char>>,
);

/// `reqwest::multipart::Form::new`: the form it makes holds no field.
#[verifier::external_body]
pub(crate) fn async_form_new() -> (form: reqwest::multipart::Form)
    ensures
        async_form_fields(form) == Seq::<Field>::empty(),
{
    reqwest::multipart::Form::new()
}

/// `reqwest::multipart::Form::text`: the fields that the form held stay, and
/// one text field with the given name and value follows them.
#[verifier::external_body]
pub(crate) fn async_form_text(
    form: reqwest::multipart::Form,
    name: &'static str,
    value: String,
) -> (out: reqwest::multipart::Form)
    ensures
        async_form_fields(out) == async_form_fields(form).push(text_field(name@, value@)),
{
    form.text(name, value)
}

/// `reqwest::multipart::Part::bytes`: a part whose content is the given bytes,
/// with no file name.
#[verifier::external_body]
pub(crate) fn async_part_bytes(content: Vec<u8>) -> (part: reqwest::multipart::Part)
    ensures
        async_part_fields(part) == (content@, None::<Seq<char>>),
{
    reqwest::multipart::Part::bytes(content)
}

/// `reqwest::multipart::Part::file_name`: the same content, under the given
/// file name.
#[verifier::external_body]
pub(crate) fn async_part_file_name(
    part: reqwest::multipart::Part,
    file_name: String,
) -> (out: reqwest::multipart::Part)
    ensures
        async_part_fields(out) == (async_part_fields(part).0, Some(file_name@)),
{
    part.file_name(file_name)
}

/// `reqwest::multipart::Form::part`: the fields that the form held stay, and
/// the given part follows them under the given name.
#[verifier::external_body]
pub(crate) fn async_form_part(
    form: reqwest::multipart::Form,
    name: &'static str,
    part: reqwest::multipart::Part,
) -> (out: reqwest::multipart::Form)
    ensures
        async_form_fields(out) == async_form_fields(form).push(
            (name@, async_part_fields(part).0, async_part_fields(part).1),
        ),
{
    form.part(name, part)
}

} // verus!
