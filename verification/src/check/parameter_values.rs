//! Stored responses: reading them from the text of a file, writing them
//! compactly, and naming their files.

use crate::error::{outcome, BeaErr, ErrorView, Origin};
use crate::json::{from_slice, json_bytes, parsed_json, to_vec};
use crate::results::{bea_response_of, BeaResponse, BeaResponseView};
use vstd::prelude::*;
use vstd::string::StringExecFns;

verus! {

/// The error of bytes that are not the text of a JSON value.
pub open spec fn read_error() -> ErrorView {
    ErrorView::SerdeJson { clue: "reading JSON"@, origin: Origin::Check }
}

/// The error of a JSON value that could not be written as text.
pub open spec fn write_error() -> ErrorView {
    ErrorView::SerdeJson { clue: "writing JSON"@, origin: Origin::Check }
}

/// Turns what the parser returned into the outcome of reading: its value,
/// or `SerdeJson` where it failed.
pub fn parsed(read: Result<serde_json::Value, serde_json::Error>) -> (r: Result<
    serde_json::Value,
    BeaErr,
>)
    ensures
        match read {
            Ok(value) => r == Ok::<serde_json::Value, BeaErr>(value),
            Err(_) => r matches Err(e) && e@ == read_error(),
        },
{
    match read {
        Ok(value) => Ok(value),
        Err(_) => Err(
            BeaErr::SerdeJson { clue: "reading JSON".to_owned(), origin: Origin::Check },
        ),
    }
}

/// Turns what the printer returned into the outcome of writing: its bytes,
/// or `SerdeJson` where it failed.
pub fn written(wrote: Result<Vec<u8>, serde_json::Error>) -> (r: Result<Vec<u8>, BeaErr>)
    ensures
        match wrote {
            Ok(bytes) => r == Ok::<Vec<u8>, BeaErr>(bytes),
            Err(_) => r matches Err(e) && e@ == write_error(),
        },
{
    match wrote {
        Ok(bytes) => Ok(bytes),
        Err(_) => Err(
            BeaErr::SerdeJson { clue: "writing JSON".to_owned(), origin: Origin::Check },
        ),
    }
}

/// The response that the text of a file holds: the bytes must be the text of
/// a JSON value, and the value must decode as a response.
pub open spec fn response_of_bytes(bytes: Seq<u8>) -> Result<BeaResponseView, ErrorView> {
    match parsed_json(bytes) {
        Some(j) => bea_response_of(j),
        None => Err(read_error()),
    }
}

/// Reads a response from the text of a file.
pub fn response_from_slice(bytes: &[u8]) -> (r: Result<BeaResponse, BeaErr>)
    ensures
        outcome(r) == response_of_bytes(bytes@),
{
    let value = parsed(from_slice(bytes))?;
    BeaResponse::try_from(&value)
}

/// The compact form of the JSON text `bytes`: the bytes that the printer
/// writes for the value that the parser reads, or the error of reading
/// where the bytes are no such text.
pub open spec fn compact_of(bytes: Seq<u8>) -> Result<Seq<u8>, ErrorView> {
    match parsed_json(bytes) {
        Some(j) => Ok(json_bytes(j)),
        None => Err(read_error()),
    }
}

/// Writes the JSON value that `bytes` are a text of in the compact form in
/// which responses are stored. It succeeds on every text of a JSON value,
/// and bytes that are no such text are refused.
pub fn json_to_bin(bytes: &[u8]) -> (r: Result<Vec<u8>, BeaErr>)
    ensures
        match r {
            Ok(compact) => compact_of(bytes@) == Ok::<_, ErrorView>(compact@),
            Err(e) => compact_of(bytes@) == Err::<Seq<u8>, _>(e@),
        },
{
    let value = parsed(from_slice(bytes))?;
    written(to_vec(&value))
}

/// The name of the file that holds the catalog of datasets:
/// `{base}/datasets.{extension}`.
pub open spec fn datasets_path_of(base: Seq<char>, extension: Seq<char>) -> Seq<char> {
    base + "/datasets."@ + extension
}

/// The name of the file that holds the values of one parameter of one
/// dataset: `{base}/{dataset}_{parameter}_parameter_values.{extension}`.
pub open spec fn parameter_values_path_of(
    base: Seq<char>,
    dataset: Seq<char>,
    parameter: Seq<char>,
    extension: Seq<char>,
) -> Seq<char> {
    base + "/"@ + dataset + "_"@ + parameter + "_parameter_values."@ + extension
}

/// The name of the file that holds the catalog of datasets.
pub fn datasets_path(base: &str, extension: &str) -> (r: String)
    ensures
        r@ == datasets_path_of(base@, extension@),
{
    let mut path = base.to_owned();
    path.append("/datasets.");
    path.append(extension);
    path
}

/// The name of the file that holds the values of one parameter of one
/// dataset.
pub fn parameter_values_path(base: &str, dataset: &str, parameter: &str, extension: &str) -> (r:
    String)
    ensures
        r@ == parameter_values_path_of(base@, dataset@, parameter@, extension@),
{
    let mut path = base.to_owned();
    path.append("/");
    path.append(dataset);
    path.append("_");
    path.append(parameter);
    path.append("_parameter_values.");
    path.append(extension);
    path
}

} // verus!
