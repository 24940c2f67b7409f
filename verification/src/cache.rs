//! The bytes of the local cache: the plain form of a response, written and
//! read by `bincode`.

use crate::error::{BeaErr, ErrorView, Origin};
use vstd::prelude::*;

verus! {

/// `bincode::ErrorKind`, which `bincode::Error` boxes. It is carried from the
/// call that failed to the function that reports the failure, and never read.
#[verifier::external_type_specification]
#[verifier::external_body]
pub struct ExErrorKind(bincode::ErrorKind);

/// The plain form of an echo: name and value of each parameter.
pub type RequestForm = Vec<(String, String)>;

/// The plain form of a reported failure: code and description.
pub type ApiErrorForm = (i32, String);

/// The plain form of a catalog of datasets: name and description of each.
pub type DatasetsForm = Vec<(String, String)>;

/// The plain form of a catalog of parameters: the fields of each, in the
/// order of its declaration.
pub type ParametersForm = Vec<
    (String, String, String, bool, Option<String>, bool, Option<String>),
>;

/// The plain form of a table of parameter values: the kind of each row and
/// its two texts.
pub type ParameterValuesForm = Vec<(u8, String, String)>;

/// The plain form of a table of observations: the fields of each, in the
/// order of its declaration.
pub type DataForm = Vec<(String, String, i32, String, String, String)>;

/// The plain form of results: one place for each shape, of which exactly one
/// is filled.
pub type ResultsForm = (
    Option<ApiErrorForm>,
    Option<DataForm>,
    Option<DatasetsForm>,
    Option<ParametersForm>,
    Option<ParameterValuesForm>,
);

/// The plain form of the inside of an envelope.
pub type BeaapiForm = (RequestForm, ResultsForm);

/// The plain form of a response: the number of the format, then the inside
/// of the envelope.
pub type EnvelopeForm = (u32, BeaapiForm);

/// The mathematical value of a [`RequestForm`].
pub type RequestFormView = Seq<(Seq<char>, Seq<char>)>;

/// The mathematical value of a [`ApiErrorForm`].
pub type ApiErrorFormView = (i32, Seq<char>);

/// The mathematical value of a [`DatasetsForm`].
pub type DatasetsFormView = Seq<(Seq<char>, Seq<char>)>;

/// The mathematical value of a [`ParametersForm`].
pub type ParametersFormView = Seq<
    (Seq<char>, Seq<char>, Seq<char>, bool, Option<Seq<char>>, bool, Option<Seq<char>>),
>;

/// The mathematical value of a [`ParameterValuesForm`].
pub type ParameterValuesFormView = Seq<(u8, Seq<char>, Seq<char>)>;

/// The mathematical value of a [`DataForm`].
pub type DataFormView = Seq<(Seq<char>, Seq<char>, i32, Seq<char>, Seq<char>, Seq<char>)>;

/// The mathematical value of a [`ResultsForm`].
pub type ResultsFormView = (
    Option<ApiErrorFormView>,
    Option<DataFormView>,
    Option<DatasetsFormView>,
    Option<ParametersFormView>,
    Option<ParameterValuesFormView>,
);

/// The mathematical value of a [`BeaapiForm`].
pub type BeaapiFormView = (RequestFormView, ResultsFormView);

/// The mathematical value of a [`EnvelopeForm`].
pub type EnvelopeFormView = (u32, BeaapiFormView);

/// The number of the format that this crate writes.
pub const FORMAT: u32 = 1;

/// The bytes that `bincode::serialize` writes for a plain form.
pub uninterp spec fn bincode_bytes(form: EnvelopeFormView) -> Seq<u8>;

/// The plain form that `bincode::deserialize` reads from bytes, or `None`
/// where it reads none.
pub uninterp spec fn bincode_form(bytes: Seq<u8>) -> Option<EnvelopeFormView>;

/// `bincode::serialize` on a plain form. It does not fail on one: it writes
/// into a vector, without a limit on the size, and every sequence of a form
/// has a length. The bytes that it returns are a function of the form, and
/// `bincode::deserialize` reads the form back from them: the crate is an
/// encoder and a decoder for the same encoding. The bytes are not empty: the
/// number of the format at the head of a form takes four of them.
#[verifier::external_body]
pub(crate) fn to_bytes(form: &EnvelopeForm) -> (r: Result<Vec<u8>, bincode::Error>)
    ensures
        r is Ok,
        r matches Ok(bytes) ==> bytes@ == bincode_bytes(form.deep_view()),
        r matches Ok(bytes) ==> bincode_form(bytes@) == Some(form.deep_view()),
        r matches Ok(bytes) ==> bytes@.len() > 0,
{
    bincode::serialize(form)
}

/// `bincode::deserialize` for a plain form: what it reads is a function of
/// the bytes.
#[verifier::external_body]
pub(crate) fn from_bytes(bytes: &[u8]) -> (r: Result<EnvelopeForm, bincode::Error>)
    ensures
        match r {
            Ok(form) => bincode_form(bytes@) == Some(form.deep_view()),
            Err(_) => bincode_form(bytes@) is None,
        },
{
    bincode::deserialize(bytes)
}

/// The error of a response that could not be turned into bytes.
pub open spec fn encode_error() -> ErrorView {
    ErrorView::Encode { clue: "serializing BeaResponse"@, origin: Origin::Cache }
}

/// The error of bytes that hold no response.
pub open spec fn decode_error() -> ErrorView {
    ErrorView::Decode { clue: "deserializing BeaResponse"@, origin: Origin::Cache }
}

/// Turns what the serializer returned into the outcome of encoding: its
/// bytes, or `Encode` where it failed.
pub fn encoded(written: Result<Vec<u8>, bincode::Error>) -> (r: Result<Vec<u8>, BeaErr>)
    ensures
        match written {
            Ok(bytes) => r == Ok::<Vec<u8>, BeaErr>(bytes),
            Err(_) => r matches Err(e) && e@ == encode_error(),
        },
{
    match written {
        Ok(bytes) => Ok(bytes),
        Err(_) => Err(
            BeaErr::Encode { clue: "serializing BeaResponse".to_owned(), origin: Origin::Cache },
        ),
    }
}

} // verus!
