//! Tables of observations.

use crate::error::{outcome, BeaErr, ErrorView, Origin};
use crate::json::{
    array, array_of, member, member_of, object, object_entries, object_of, text, text_of,
    value_json, Json,
};
use crate::plain::{from_forms, forms_of, lemma_values_of_forms, to_forms, values_of, Plain};
use crate::rows::{clone_rows, row_views, rows, rows_of, Row};
use crate::text::{integer, integer_of};
use vstd::prelude::*;

verus! {

/// One observation of a national accounts table.
#[derive(Debug, PartialEq, Eq, PartialOrd)]
pub struct NipaDatum {
    table_name: String,
    series_code: String,
    line_number: i32,
    line_description: String,
    time_period: String,
    data_value: String,
}

/// The mathematical value of a [`NipaDatum`].
pub struct NipaDatumView {
    pub table_name: Seq<char>,
    pub series_code: Seq<char>,
    pub line_number: i32,
    pub line_description: Seq<char>,
    pub time_period: Seq<char>,
    pub data_value: Seq<char>,
}

impl View for NipaDatum {
    type V = NipaDatumView;

    closed spec fn view(&self) -> NipaDatumView {
        NipaDatumView {
            table_name: self.table_name@,
            series_code: self.series_code@,
            line_number: self.line_number,
            line_description: self.line_description@,
            time_period: self.time_period@,
            data_value: self.data_value@,
        }
    }
}

impl Clone for NipaDatum {
    fn clone(&self) -> (r: Self)
        ensures
            r@ == self@,
    {
        NipaDatum {
            table_name: self.table_name.clone(),
            series_code: self.series_code.clone(),
            line_number: self.line_number,
            line_description: self.line_description.clone(),
            time_period: self.time_period.clone(),
            data_value: self.data_value.clone(),
        }
    }
}

/// The six values that an observation must have, in the order in which
/// their keys are looked for: `TableName`, `SeriesCode`, `LineNumber`,
/// `LineDescription`, `TimePeriod`, `DataValue`. The first key that is absent
/// decides the error.
pub open spec fn nipa_datum_members_of(m: Map<Seq<char>, Json>) -> Result<
    (Json, Json, Json, Json, Json, Json),
    ErrorView,
> {
    match member_of(m, "TableName"@, Origin::Data) {
        Err(e) => Err(e),
        Ok(table) => match member_of(m, "SeriesCode"@, Origin::Data) {
            Err(e) => Err(e),
            Ok(series) => match member_of(m, "LineNumber"@, Origin::Data) {
                Err(e) => Err(e),
                Ok(line) => match member_of(m, "LineDescription"@, Origin::Data) {
                    Err(e) => Err(e),
                    Ok(description) => match member_of(m, "TimePeriod"@, Origin::Data) {
                        Err(e) => Err(e),
                        Ok(period) => match member_of(m, "DataValue"@, Origin::Data) {
                            Err(e) => Err(e),
                            Ok(value) => Ok((table, series, line, description, period, value)),
                        },
                    },
                },
            },
        },
    }
}

/// The six texts of an observation: each value read as a string, in the
/// order of [`nipa_datum_members_of`].
pub open spec fn nipa_datum_texts_of(found: (Json, Json, Json, Json, Json, Json)) -> Result<
    (Seq<char>, Seq<char>, Seq<char>, Seq<char>, Seq<char>, Seq<char>),
    ErrorView,
> {
    match text_of(found.0, "TableName"@, Origin::Data) {
        Err(e) => Err(e),
        Ok(table) => match text_of(found.1, "SeriesCode"@, Origin::Data) {
            Err(e) => Err(e),
            Ok(series) => match text_of(found.2, "LineNumber"@, Origin::Data) {
                Err(e) => Err(e),
                Ok(line) => match text_of(found.3, "LineDescription"@, Origin::Data) {
                    Err(e) => Err(e),
                    Ok(description) => match text_of(found.4, "TimePeriod"@, Origin::Data) {
                        Err(e) => Err(e),
                        Ok(period) => match text_of(found.5, "DataValue"@, Origin::Data) {
                            Err(e) => Err(e),
                            Ok(value) => Ok((table, series, line, description, period, value)),
                        },
                    },
                },
            },
        },
    }
}

/// What the entries of a row hold where the row is an observation. All keys
/// are looked for, then all values are read as strings, then the line number
/// is read as a decimal integer.
pub open spec fn nipa_datum_of(m: Map<Seq<char>, Json>) -> Result<NipaDatumView, ErrorView> {
    match nipa_datum_members_of(m) {
        Err(e) => Err(e),
        Ok(found) => match nipa_datum_texts_of(found) {
            Err(e) => Err(e),
            Ok(texts) => match integer_of(texts.2, Origin::Data) {
                Err(e) => Err(e),
                Ok(line_number) => Ok(
                    NipaDatumView {
                        table_name: texts.0,
                        series_code: texts.1,
                        line_number,
                        line_description: texts.3,
                        time_period: texts.4,
                        data_value: texts.5,
                    },
                ),
            },
        },
    }
}

impl NipaDatum {
    pub fn new(
        table_name: String,
        series_code: String,
        line_number: i32,
        line_description: String,
        time_period: String,
        data_value: String,
    ) -> (r: Self)
        ensures
            r@ == (NipaDatumView {
                table_name: table_name@,
                series_code: series_code@,
                line_number,
                line_description: line_description@,
                time_period: time_period@,
                data_value: data_value@,
            }),
    {
        NipaDatum {
            table_name,
            series_code,
            line_number,
            line_description,
            time_period,
            data_value,
        }
    }

    pub fn table_name(&self) -> (r: &String)
        ensures
            r@ == self@.table_name,
    {
        &self.table_name
    }

    pub fn series_code(&self) -> (r: &String)
        ensures
            r@ == self@.series_code,
    {
        &self.series_code
    }

    pub fn line_number(&self) -> (r: &i32)
        ensures
            *r == self@.line_number,
    {
        &self.line_number
    }

    pub fn line_description(&self) -> (r: &String)
        ensures
            r@ == self@.line_description,
    {
        &self.line_description
    }

    pub fn time_period(&self) -> (r: &String)
        ensures
            r@ == self@.time_period,
    {
        &self.time_period
    }

    pub fn data_value(&self) -> (r: &String)
        ensures
            r@ == self@.data_value,
    {
        &self.data_value
    }

    /// Decodes an observation from the entries of a row.
    pub fn read_json(m: &serde_json::Map<String, serde_json::Value>) -> (r: Result<Self, BeaErr>)
        ensures
            outcome(r) == nipa_datum_of(object_entries(*m)),
    {
        let table = member(m, "TableName", Origin::Data)?;
        let series = member(m, "SeriesCode", Origin::Data)?;
        let line = member(m, "LineNumber", Origin::Data)?;
        let description = member(m, "LineDescription", Origin::Data)?;
        let period = member(m, "TimePeriod", Origin::Data)?;
        let value = member(m, "DataValue", Origin::Data)?;
        let table_name = text(table, "TableName", Origin::Data)?;
        let series_code = text(series, "SeriesCode", Origin::Data)?;
        let line_text = text(line, "LineNumber", Origin::Data)?;
        let line_description = text(description, "LineDescription", Origin::Data)?;
        let time_period = text(period, "TimePeriod", Origin::Data)?;
        let data_value = text(value, "DataValue", Origin::Data)?;
        let line_number = integer(line_text.as_str(), Origin::Data)?;
        Ok(
            NipaDatum {
                table_name,
                series_code,
                line_number,
                line_description,
                time_period,
                data_value,
            },
        )
    }
}

impl Row for NipaDatum {
    /// A row of the table is an object that holds an observation.
    open spec fn row_of(j: Json) -> Result<NipaDatumView, ErrorView> {
        match object_of(j, Origin::Data) {
            Err(e) => Err(e),
            Ok(m) => nipa_datum_of(m),
        }
    }

    open spec fn origin() -> Origin {
        Origin::Data
    }

    proof fn lemma_row_is_object(j: Json) {
    }

    fn read(value: &serde_json::Value) -> (r: Result<Self, BeaErr>) {
        let m = object(value, Origin::Data)?;
        NipaDatum::read_json(m)
    }
}

/// The observations of a national accounts table, in the order of the
/// response.
#[derive(Debug, PartialEq, Eq, PartialOrd)]
pub struct NipaData {
    data: Vec<NipaDatum>,
}

impl View for NipaData {
    type V = Seq<NipaDatumView>;

    closed spec fn view(&self) -> Seq<NipaDatumView> {
        row_views(self.data@)
    }
}

impl Clone for NipaData {
    fn clone(&self) -> (r: Self)
        ensures
            r@ == self@,
    {
        NipaData { data: clone_rows(&self.data) }
    }
}

/// What a results value holds where it is a table of observations: an object
/// whose key `Data` holds an array of observations.
pub open spec fn nipa_data_of(j: Json) -> Result<Seq<NipaDatumView>, ErrorView> {
    match object_of(j, Origin::Data) {
        Err(e) => Err(e),
        Ok(m) => match member_of(m, "Data"@, Origin::Data) {
            Err(e) => Err(e),
            Ok(table) => match array_of(table, Origin::Data) {
                Err(e) => Err(e),
                Ok(items) => rows_of::<NipaDatum>(items),
            },
        },
    }
}

impl NipaData {
    pub fn new(data: Vec<NipaDatum>) -> (r: Self)
        ensures
            r@ == row_views(data@),
    {
        NipaData { data }
    }

    /// The observations, in the order of the response.
    pub fn data(&self) -> (r: &Vec<NipaDatum>)
        ensures
            row_views(r@) == self@,
    {
        &self.data
    }
}

impl TryFrom<&serde_json::Value> for NipaData {
    type Error = BeaErr;

    /// Decodes a table of observations.
    fn try_from(value: &serde_json::Value) -> (r: Result<Self, BeaErr>)
        ensures
            outcome(r) == nipa_data_of(value_json(*value)),
    {
        let m = object(value, Origin::Data)?;
        let table = member(m, "Data", Origin::Data)?;
        let items = array(table, Origin::Data)?;
        let data = rows::<NipaDatum>(items)?;
        Ok(NipaData { data })
    }
}

/// The conversion follows no spec function: what it returns is stated in the
/// contract of `try_from`.
impl vstd::std_specs::convert::TryFromSpecImpl<&serde_json::Value> for NipaData {
    open spec fn obeys_try_from_spec() -> bool {
        false
    }

    open spec fn try_from_spec(value: &serde_json::Value) -> Result<Self, BeaErr> {
        arbitrary()
    }
}

/// Observations, by the family of tables that they come from.
#[derive(Debug, PartialEq, Eq, PartialOrd)]
pub enum Data {
    Nipa(NipaData),
}

/// The mathematical value of a [`Data`].
pub enum DataView {
    Nipa(Seq<NipaDatumView>),
}

impl View for Data {
    type V = DataView;

    open spec fn view(&self) -> DataView {
        match self {
            Data::Nipa(data) => DataView::Nipa(data@),
        }
    }
}

impl Clone for Data {
    fn clone(&self) -> (r: Self)
        ensures
            r@ == self@,
    {
        match self {
            Data::Nipa(data) => Data::Nipa(data.clone()),
        }
    }
}

impl From<NipaData> for Data {
    /// Observations of the national accounts.
    fn from(data: NipaData) -> (r: Self)
        ensures
            r == Data::Nipa(data),
    {
        Data::Nipa(data)
    }
}

impl vstd::std_specs::convert::FromSpecImpl<NipaData> for Data {
    open spec fn obeys_from_spec() -> bool {
        true
    }

    open spec fn from_spec(data: NipaData) -> Self {
        Data::Nipa(data)
    }
}

impl Plain for NipaDatum {
    type Form = (String, String, i32, String, String, String);

    open spec fn form_of(value: NipaDatumView) -> (Seq<char>, Seq<char>, i32, Seq<char>, Seq<char>, Seq<char>) {
        (
            value.table_name,
            value.series_code,
            value.line_number,
            value.line_description,
            value.time_period,
            value.data_value,
        )
    }

    open spec fn value_of(form: (Seq<char>, Seq<char>, i32, Seq<char>, Seq<char>, Seq<char>)) -> Option<NipaDatumView> {
        Some(
            NipaDatumView {
                table_name: form.0,
                series_code: form.1,
                line_number: form.2,
                line_description: form.3,
                time_period: form.4,
                data_value: form.5,
            },
        )
    }

    proof fn lemma_value_of_form(value: NipaDatumView) {
    }

    fn to_form(&self) -> (r: (String, String, i32, String, String, String)) {
        let form = (
            self.table_name.clone(),
            self.series_code.clone(),
            self.line_number,
            self.line_description.clone(),
            self.time_period.clone(),
            self.data_value.clone(),
        );
        assert(form.deep_view() == Self::form_of(self@));
        form
    }

    fn from_form(form: &(String, String, i32, String, String, String)) -> (r: Option<Self>) {
        Some(
            NipaDatum {
                table_name: form.0.clone(),
                series_code: form.1.clone(),
                line_number: form.2,
                line_description: form.3.clone(),
                time_period: form.4.clone(),
                data_value: form.5.clone(),
            },
        )
    }
}

impl Plain for NipaData {
    type Form = Vec<(String, String, i32, String, String, String)>;

    open spec fn form_of(value: Seq<NipaDatumView>) -> Seq<(Seq<char>, Seq<char>, i32, Seq<char>, Seq<char>, Seq<char>)> {
        forms_of::<NipaDatum>(value)
    }

    open spec fn value_of(form: Seq<(Seq<char>, Seq<char>, i32, Seq<char>, Seq<char>, Seq<char>)>) -> Option<Seq<NipaDatumView>> {
        values_of::<NipaDatum>(form)
    }

    proof fn lemma_value_of_form(value: Seq<NipaDatumView>) {
        lemma_values_of_forms::<NipaDatum>(value);
    }

    fn to_form(&self) -> (r: Vec<(String, String, i32, String, String, String)>) {
        to_forms::<NipaDatum>(&self.data)
    }

    fn from_form(form: &Vec<(String, String, i32, String, String, String)>) -> (r: Option<Self>) {
        match from_forms::<NipaDatum>(form) {
            Some(data) => Some(NipaData { data }),
            None => None,
        }
    }
}

impl Plain for Data {
    type Form = Vec<(String, String, i32, String, String, String)>;

    open spec fn form_of(value: DataView) -> Seq<(Seq<char>, Seq<char>, i32, Seq<char>, Seq<char>, Seq<char>)> {
        match value {
            DataView::Nipa(data) => NipaData::form_of(data),
        }
    }

    open spec fn value_of(form: Seq<(Seq<char>, Seq<char>, i32, Seq<char>, Seq<char>, Seq<char>)>) -> Option<DataView> {
        match NipaData::value_of(form) {
            Some(data) => Some(DataView::Nipa(data)),
            None => None,
        }
    }

    proof fn lemma_value_of_form(value: DataView) {
        match value {
            DataView::Nipa(data) => NipaData::lemma_value_of_form(data),
        }
    }

    fn to_form(&self) -> (r: Vec<(String, String, i32, String, String, String)>) {
        match self {
            Data::Nipa(data) => data.to_form(),
        }
    }

    fn from_form(form: &Vec<(String, String, i32, String, String, String)>) -> (r: Option<Self>) {
        match NipaData::from_form(form) {
            Some(data) => Some(Data::Nipa(data)),
            None => None,
        }
    }
}

} // verus!
