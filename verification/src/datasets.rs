//! The catalog of datasets.

use crate::error::{outcome, BeaErr, ErrorView, Origin};
use crate::json::{
    array, array_of, member, member_of, object, object_of, text_pair, text_pair_of, value_json,
    Json,
};
use crate::plain::{from_forms, forms_of, lemma_values_of_forms, to_forms, values_of, Plain};
use crate::rows::{clone_rows, row_views, rows, rows_of, Row};
use vstd::prelude::*;

verus! {

/// One dataset of the catalog.
#[derive(Debug, PartialEq, Eq, PartialOrd)]
pub struct DatasetDetails {
    dataset_name: String,
    dataset_description: String,
}

/// The mathematical value of a [`DatasetDetails`].
pub struct DatasetDetailsView {
    pub dataset_name: Seq<char>,
    pub dataset_description: Seq<char>,
}

impl View for DatasetDetails {
    type V = DatasetDetailsView;

    closed spec fn view(&self) -> DatasetDetailsView {
        DatasetDetailsView {
            dataset_name: self.dataset_name@,
            dataset_description: self.dataset_description@,
        }
    }
}

impl Clone for DatasetDetails {
    fn clone(&self) -> (r: Self)
        ensures
            r@ == self@,
    {
        DatasetDetails {
            dataset_name: self.dataset_name.clone(),
            dataset_description: self.dataset_description.clone(),
        }
    }
}

impl DatasetDetails {
    pub fn new(dataset_name: String, dataset_description: String) -> (r: Self)
        ensures
            r@ == (DatasetDetailsView {
                dataset_name: dataset_name@,
                dataset_description: dataset_description@,
            }),
    {
        DatasetDetails { dataset_name, dataset_description }
    }

    pub fn dataset_name(&self) -> (r: &String)
        ensures
            r@ == self@.dataset_name,
    {
        &self.dataset_name
    }

    pub fn dataset_description(&self) -> (r: &String)
        ensures
            r@ == self@.dataset_description,
    {
        &self.dataset_description
    }
}

impl Row for DatasetDetails {
    /// A dataset is an object with the keys `DatasetName` and
    /// `DatasetDescription`, both strings.
    open spec fn row_of(j: Json) -> Result<DatasetDetailsView, ErrorView> {
        match object_of(j, Origin::Datasets) {
            Err(e) => Err(e),
            Ok(m) => match text_pair_of(
                m,
                "DatasetName"@,
                "DatasetDescription"@,
                Origin::Datasets,
            ) {
                Err(e) => Err(e),
                Ok(pair) => Ok(DatasetDetailsView { dataset_name: pair.0, dataset_description: pair.1 }),
            },
        }
    }

    open spec fn origin() -> Origin {
        Origin::Datasets
    }

    proof fn lemma_row_is_object(j: Json) {
    }

    fn read(value: &serde_json::Value) -> (r: Result<Self, BeaErr>) {
        let m = object(value, Origin::Datasets)?;
        let pair = text_pair(m, "DatasetName", "DatasetDescription", Origin::Datasets)?;
        Ok(DatasetDetails { dataset_name: pair.0, dataset_description: pair.1 })
    }
}

impl Plain for DatasetDetails {
    type Form = (String, String);

    open spec fn form_of(value: DatasetDetailsView) -> (Seq<char>, Seq<char>) {
        (value.dataset_name, value.dataset_description)
    }

    open spec fn value_of(form: (Seq<char>, Seq<char>)) -> Option<DatasetDetailsView> {
        Some(DatasetDetailsView { dataset_name: form.0, dataset_description: form.1 })
    }

    proof fn lemma_value_of_form(value: DatasetDetailsView) {
    }

    fn to_form(&self) -> (r: (String, String)) {
        (self.dataset_name.clone(), self.dataset_description.clone())
    }

    fn from_form(form: &(String, String)) -> (r: Option<Self>) {
        Some(DatasetDetails { dataset_name: form.0.clone(), dataset_description: form.1.clone() })
    }
}

/// The catalog of datasets, in the order of the response.
#[derive(Debug, PartialEq, Eq, PartialOrd)]
pub struct Datasets {
    dataset: Vec<DatasetDetails>,
}

impl View for Datasets {
    type V = Seq<DatasetDetailsView>;

    closed spec fn view(&self) -> Seq<DatasetDetailsView> {
        row_views(self.dataset@)
    }
}

impl Clone for Datasets {
    fn clone(&self) -> (r: Self)
        ensures
            r@ == self@,
    {
        Datasets { dataset: clone_rows(&self.dataset) }
    }
}

/// What a results value holds where it is a catalog of datasets: an object
/// whose key `Dataset` holds an array of datasets.
pub open spec fn datasets_of(j: Json) -> Result<Seq<DatasetDetailsView>, ErrorView> {
    match object_of(j, Origin::Datasets) {
        Err(e) => Err(e),
        Ok(m) => match member_of(m, "Dataset"@, Origin::Datasets) {
            Err(e) => Err(e),
            Ok(table) => match array_of(table, Origin::Datasets) {
                Err(e) => Err(e),
                Ok(items) => rows_of::<DatasetDetails>(items),
            },
        },
    }
}

impl Datasets {
    pub fn new(dataset: Vec<DatasetDetails>) -> (r: Self)
        ensures
            r@ == row_views(dataset@),
    {
        Datasets { dataset }
    }

    /// The datasets, in the order of the response.
    pub fn dataset(&self) -> (r: &Vec<DatasetDetails>)
        ensures
            row_views(r@) == self@,
    {
        &self.dataset
    }
}

impl TryFrom<&serde_json::Value> for Datasets {
    type Error = BeaErr;

    /// Decodes a catalog of datasets.
    fn try_from(value: &serde_json::Value) -> (r: Result<Self, BeaErr>)
        ensures
            outcome(r) == datasets_of(value_json(*value)),
    {
        let m = object(value, Origin::Datasets)?;
        let table = member(m, "Dataset", Origin::Datasets)?;
        let items = array(table, Origin::Datasets)?;
        let dataset = rows::<DatasetDetails>(items)?;
        Ok(Datasets { dataset })
    }
}

/// The conversion follows no spec function: what it returns is stated in the
/// contract of `try_from`.
impl vstd::std_specs::convert::TryFromSpecImpl<&serde_json::Value> for Datasets {
    open spec fn obeys_try_from_spec() -> bool {
        false
    }

    open spec fn try_from_spec(value: &serde_json::Value) -> Result<Self, BeaErr> {
        arbitrary()
    }
}

impl Plain for Datasets {
    type Form = Vec<(String, String)>;

    open spec fn form_of(value: Seq<DatasetDetailsView>) -> Seq<(Seq<char>, Seq<char>)> {
        forms_of::<DatasetDetails>(value)
    }

    open spec fn value_of(form: Seq<(Seq<char>, Seq<char>)>) -> Option<Seq<DatasetDetailsView>> {
        values_of::<DatasetDetails>(form)
    }

    proof fn lemma_value_of_form(value: Seq<DatasetDetailsView>) {
        lemma_values_of_forms::<DatasetDetails>(value);
    }

    fn to_form(&self) -> (r: Vec<(String, String)>) {
        to_forms::<DatasetDetails>(&self.dataset)
    }

    fn from_form(form: &Vec<(String, String)>) -> (r: Option<Self>) {
        match from_forms::<DatasetDetails>(form) {
            Some(dataset) => Some(Datasets { dataset }),
            None => None,
        }
    }
}

} // verus!
