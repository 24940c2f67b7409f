//! The errors that the decoders and the cache codec report.

use vstd::prelude::*;

verus! {

/// The component that reported an error.
#[derive(Clone, Copy, Debug, PartialEq, Eq, Structural)]
pub enum Origin {
    /// The outer envelope of a response.
    BeaResponse,
    /// The object under the envelope's single key.
    Beaapi,
    /// The echo of the request.
    RequestParameters,
    /// The classifier of result shapes.
    Results,
    /// The error that the service reports.
    ApiError,
    /// The catalog of datasets.
    Datasets,
    /// The catalog of parameters.
    Parameters,
    /// The values that a parameter accepts.
    ParameterValues,
    /// The table of observations.
    Data,
    /// The flag that asks for values in millions.
    Millions,
    /// The codec of the local cache.
    Cache,
    /// The checks of stored responses.
    Check,
}

/// What went wrong, with the place that found it.
#[derive(Debug, PartialEq, Eq)]
pub enum BeaErr {
    /// A value that must be an object is something else.
    NotObject { origin: Origin },
    /// A value that must be an array is something else.
    NotArray { origin: Origin },
    /// The value under `key` must be a string and is something else.
    NotString { key: String, origin: Origin },
    /// An object lacks the key `key`.
    KeyMissing { key: String, origin: Origin },
    /// A code is outside the vocabulary of its field.
    VariantMissing { clue: String, input: String, expected: Vec<String>, origin: Origin },
    /// A text that must be a decimal integer is not one.
    ParseInt { raw: String, origin: Origin },
    /// An envelope could not be turned into bytes.
    Encode { clue: String, origin: Origin },
    /// Bytes do not hold an envelope.
    Decode { clue: String, origin: Origin },
    /// Bytes are not the text of a JSON value, or a value could not be
    /// written as text.
    SerdeJson { clue: String, origin: Origin },
    /// The service lists a dataset that this crate does not know.
    DatasetMissing { name: String, origin: Origin },
}

/// The mathematical value of a [`BeaErr`].
pub enum ErrorView {
    NotObject { origin: Origin },
    NotArray { origin: Origin },
    NotString { key: Seq<char>, origin: Origin },
    KeyMissing { key: Seq<char>, origin: Origin },
    VariantMissing { clue: Seq<char>, input: Seq<char>, expected: Seq<Seq<char>>, origin: Origin },
    ParseInt { raw: Seq<char>, origin: Origin },
    Encode { clue: Seq<char>, origin: Origin },
    Decode { clue: Seq<char>, origin: Origin },
    SerdeJson { clue: Seq<char>, origin: Origin },
    DatasetMissing { name: Seq<char>, origin: Origin },
}

impl View for BeaErr {
    type V = ErrorView;

    open spec fn view(&self) -> ErrorView {
        match *self {
            BeaErr::NotObject { origin } => ErrorView::NotObject { origin },
            BeaErr::NotArray { origin } => ErrorView::NotArray { origin },
            BeaErr::NotString { key, origin } => ErrorView::NotString { key: key@, origin },
            BeaErr::KeyMissing { key, origin } => ErrorView::KeyMissing { key: key@, origin },
            BeaErr::VariantMissing { clue, input, expected, origin } => ErrorView::VariantMissing {
                clue: clue@,
                input: input@,
                expected: expected.deep_view(),
                origin,
            },
            BeaErr::ParseInt { raw, origin } => ErrorView::ParseInt { raw: raw@, origin },
            BeaErr::Encode { clue, origin } => ErrorView::Encode { clue: clue@, origin },
            BeaErr::Decode { clue, origin } => ErrorView::Decode { clue: clue@, origin },
            BeaErr::SerdeJson { clue, origin } => ErrorView::SerdeJson { clue: clue@, origin },
            BeaErr::DatasetMissing { name, origin } => ErrorView::DatasetMissing {
                name: name@,
                origin,
            },
        }
    }
}

/// A copy of a list of texts.
fn clone_texts(texts: &Vec<String>) -> (r: Vec<String>)
    ensures
        r.deep_view() == texts.deep_view(),
{
    let mut out: Vec<String> = Vec::new();
    let mut i: usize = 0;
    while i < texts.len()
        invariant
            i <= texts.len(),
            out.deep_view() == texts.deep_view().take(i as int),
        decreases texts.len() - i,
    {
        let ghost before = out.deep_view();
        out.push(texts[i].clone());
        assert(out.deep_view() =~= before.push(texts@[i as int]@));
        assert(texts.deep_view().take(i + 1) =~= texts.deep_view().take(i as int).push(
            texts@[i as int]@,
        ));
        i += 1;
    }
    assert(texts.deep_view().take(i as int) =~= texts.deep_view());
    out
}

impl Clone for BeaErr {
    fn clone(&self) -> (r: Self)
        ensures
            r@ == self@,
    {
        match self {
            BeaErr::NotObject { origin } => BeaErr::NotObject { origin: *origin },
            BeaErr::NotArray { origin } => BeaErr::NotArray { origin: *origin },
            BeaErr::NotString { key, origin } => BeaErr::NotString {
                key: key.clone(),
                origin: *origin,
            },
            BeaErr::KeyMissing { key, origin } => BeaErr::KeyMissing {
                key: key.clone(),
                origin: *origin,
            },
            BeaErr::VariantMissing { clue, input, expected, origin } => BeaErr::VariantMissing {
                clue: clue.clone(),
                input: input.clone(),
                expected: clone_texts(expected),
                origin: *origin,
            },
            BeaErr::ParseInt { raw, origin } => BeaErr::ParseInt {
                raw: raw.clone(),
                origin: *origin,
            },
            BeaErr::Encode { clue, origin } => BeaErr::Encode {
                clue: clue.clone(),
                origin: *origin,
            },
            BeaErr::Decode { clue, origin } => BeaErr::Decode {
                clue: clue.clone(),
                origin: *origin,
            },
            BeaErr::SerdeJson { clue, origin } => BeaErr::SerdeJson {
                clue: clue.clone(),
                origin: *origin,
            },
            BeaErr::DatasetMissing { name, origin } => BeaErr::DatasetMissing {
                name: name.clone(),
                origin: *origin,
            },
        }
    }
}

/// What an error says to a reader: the clue that it carries, or a few words
/// on its kind.
pub open spec fn clue_of(error: ErrorView) -> Seq<char> {
    match error {
        ErrorView::NotObject { .. } => "JSON object expected"@,
        ErrorView::NotArray { .. } => "JSON array expected"@,
        ErrorView::NotString { .. } => "JSON string expected"@,
        ErrorView::KeyMissing { .. } => "key missing"@,
        ErrorView::VariantMissing { clue, .. } => clue,
        ErrorView::ParseInt { .. } => "decimal integer expected"@,
        ErrorView::Encode { clue, .. } => clue,
        ErrorView::Decode { clue, .. } => clue,
        ErrorView::SerdeJson { clue, .. } => clue,
        ErrorView::DatasetMissing { .. } => "dataset not known"@,
    }
}

/// The component that an error names as the place that found it.
pub open spec fn origin_of(error: ErrorView) -> Origin {
    match error {
        ErrorView::NotObject { origin } => origin,
        ErrorView::NotArray { origin } => origin,
        ErrorView::NotString { origin, .. } => origin,
        ErrorView::KeyMissing { origin, .. } => origin,
        ErrorView::VariantMissing { origin, .. } => origin,
        ErrorView::ParseInt { origin, .. } => origin,
        ErrorView::Encode { origin, .. } => origin,
        ErrorView::Decode { origin, .. } => origin,
        ErrorView::SerdeJson { origin, .. } => origin,
        ErrorView::DatasetMissing { origin, .. } => origin,
    }
}

impl BeaErr {
    /// What the error says to a reader.
    pub fn clue(&self) -> (r: String)
        ensures
            r@ == clue_of(self@),
    {
        match self {
            BeaErr::NotObject { .. } => "JSON object expected".to_owned(),
            BeaErr::NotArray { .. } => "JSON array expected".to_owned(),
            BeaErr::NotString { .. } => "JSON string expected".to_owned(),
            BeaErr::KeyMissing { .. } => "key missing".to_owned(),
            BeaErr::VariantMissing { clue, .. } => clue.clone(),
            BeaErr::ParseInt { .. } => "decimal integer expected".to_owned(),
            BeaErr::Encode { clue, .. } => clue.clone(),
            BeaErr::Decode { clue, .. } => clue.clone(),
            BeaErr::SerdeJson { clue, .. } => clue.clone(),
            BeaErr::DatasetMissing { .. } => "dataset not known".to_owned(),
        }
    }

    /// The component that reported the error.
    pub fn origin(&self) -> (r: Origin)
        ensures
            r == origin_of(self@),
    {
        match self {
            BeaErr::NotObject { origin } => *origin,
            BeaErr::NotArray { origin } => *origin,
            BeaErr::NotString { origin, .. } => *origin,
            BeaErr::KeyMissing { origin, .. } => *origin,
            BeaErr::VariantMissing { origin, .. } => *origin,
            BeaErr::ParseInt { origin, .. } => *origin,
            BeaErr::Encode { origin, .. } => *origin,
            BeaErr::Decode { origin, .. } => *origin,
            BeaErr::SerdeJson { origin, .. } => *origin,
            BeaErr::DatasetMissing { origin, .. } => *origin,
        }
    }
}

/// The view of an outcome: the view of the value, or the view of the error.
pub open spec fn outcome<T: View>(r: Result<T, BeaErr>) -> Result<T::V, ErrorView> {
    match r {
        Ok(v) => Ok(v@),
        Err(e) => Err(e@),
    }
}

/// Whether an outcome is the error `e`.
pub open spec fn fails_with<T>(r: Result<T, ErrorView>, e: ErrorView) -> bool {
    r == Err::<T, ErrorView>(e)
}

} // verus!
