//! The values that a parameter accepts.

use crate::error::{outcome, BeaErr, ErrorView, Origin};
use crate::json::{
    array, array_of, member, member_of, object, object_entries, object_of, text_pair,
    text_pair_of, value_json, Json,
};
use crate::plain::{from_forms, forms_of, lemma_values_of_forms, to_forms, values_of, Plain};
use crate::rows::{clone_rows, row_views, rows, rows_of, Row};
use vstd::prelude::*;

verus! {

/// A value of a parameter as a key with its description.
#[derive(Debug, PartialEq, Eq, PartialOrd)]
pub struct ParameterFields {
    key: String,
    desc: String,
}

/// The mathematical value of a [`ParameterFields`].
pub struct ParameterFieldsView {
    pub key: Seq<char>,
    pub desc: Seq<char>,
}

impl View for ParameterFields {
    type V = ParameterFieldsView;

    closed spec fn view(&self) -> ParameterFieldsView {
        ParameterFieldsView { key: self.key@, desc: self.desc@ }
    }
}

impl Clone for ParameterFields {
    fn clone(&self) -> (r: Self)
        ensures
            r@ == self@,
    {
        ParameterFields { key: self.key.clone(), desc: self.desc.clone() }
    }
}

/// What an object holds where it is a key with its description: the keys
/// `Key` and `Desc`, both strings.
pub open spec fn parameter_fields_of(m: Map<Seq<char>, Json>) -> Result<
    ParameterFieldsView,
    ErrorView,
> {
    match text_pair_of(m, "Key"@, "Desc"@, Origin::ParameterValues) {
        Err(e) => Err(e),
        Ok(pair) => Ok(ParameterFieldsView { key: pair.0, desc: pair.1 }),
    }
}

impl ParameterFields {
    pub fn new(key: String, desc: String) -> (r: Self)
        ensures
            r@ == (ParameterFieldsView { key: key@, desc: desc@ }),
    {
        ParameterFields { key, desc }
    }

    pub fn key(&self) -> (r: &String)
        ensures
            r@ == self@.key,
    {
        &self.key
    }

    pub fn desc(&self) -> (r: &String)
        ensures
            r@ == self@.desc,
    {
        &self.desc
    }

    /// Decodes a key with its description from the entries of a row.
    pub fn read_json(m: &serde_json::Map<String, serde_json::Value>) -> (r: Result<Self, BeaErr>)
        ensures
            outcome(r) == parameter_fields_of(object_entries(*m)),
    {
        let pair = text_pair(m, "Key", "Desc", Origin::ParameterValues)?;
        Ok(ParameterFields { key: pair.0, desc: pair.1 })
    }
}

/// A value of the parameter that asks for figures in millions: the code of
/// the choice, as the service sent it, with its description.
#[derive(Debug, PartialEq, Eq, PartialOrd)]
pub struct NipaShowMillions {
    show_millions_id: String,
    description: String,
}

/// The mathematical value of a [`NipaShowMillions`].
pub struct NipaShowMillionsView {
    pub show_millions_id: Seq<char>,
    pub description: Seq<char>,
}

impl View for NipaShowMillions {
    type V = NipaShowMillionsView;

    closed spec fn view(&self) -> NipaShowMillionsView {
        NipaShowMillionsView {
            show_millions_id: self.show_millions_id@,
            description: self.description@,
        }
    }
}

impl Clone for NipaShowMillions {
    fn clone(&self) -> (r: Self)
        ensures
            r@ == self@,
    {
        NipaShowMillions {
            show_millions_id: self.show_millions_id.clone(),
            description: self.description.clone(),
        }
    }
}

/// What an object holds where it is a choice of figures in millions: the
/// keys `ShowMillionsID` and `Description`, both strings.
pub open spec fn nipa_show_millions_of(m: Map<Seq<char>, Json>) -> Result<
    NipaShowMillionsView,
    ErrorView,
> {
    match text_pair_of(m, "ShowMillionsID"@, "Description"@, Origin::ParameterValues) {
        Err(e) => Err(e),
        Ok(pair) => Ok(NipaShowMillionsView { show_millions_id: pair.0, description: pair.1 }),
    }
}

impl NipaShowMillions {
    pub fn new(show_millions_id: String, description: String) -> (r: Self)
        ensures
            r@ == (NipaShowMillionsView {
                show_millions_id: show_millions_id@,
                description: description@,
            }),
    {
        NipaShowMillions { show_millions_id, description }
    }

    pub fn show_millions_id(&self) -> (r: &String)
        ensures
            r@ == self@.show_millions_id,
    {
        &self.show_millions_id
    }

    pub fn description(&self) -> (r: &String)
        ensures
            r@ == self@.description,
    {
        &self.description
    }

    /// Decodes a choice of figures in millions from the entries of a row.
    pub fn read_json(m: &serde_json::Map<String, serde_json::Value>) -> (r: Result<Self, BeaErr>)
        ensures
            outcome(r) == nipa_show_millions_of(object_entries(*m)),
    {
        let pair = text_pair(m, "ShowMillionsID", "Description", Origin::ParameterValues)?;
        Ok(NipaShowMillions { show_millions_id: pair.0, description: pair.1 })
    }
}

/// One row of a table of parameter values.
#[derive(Debug, PartialEq, Eq, PartialOrd)]
pub enum ParameterValueTable {
    NipaShowMillions(NipaShowMillions),
    ParameterFields(ParameterFields),
}

/// The mathematical value of a [`ParameterValueTable`].
pub enum ParameterValueTableView {
    NipaShowMillions(NipaShowMillionsView),
    ParameterFields(ParameterFieldsView),
}

impl View for ParameterValueTable {
    type V = ParameterValueTableView;

    open spec fn view(&self) -> ParameterValueTableView {
        match self {
            ParameterValueTable::NipaShowMillions(row) => ParameterValueTableView::NipaShowMillions(
                row@,
            ),
            ParameterValueTable::ParameterFields(row) => ParameterValueTableView::ParameterFields(
                row@,
            ),
        }
    }
}

impl Clone for ParameterValueTable {
    fn clone(&self) -> (r: Self)
        ensures
            r@ == self@,
    {
        match self {
            ParameterValueTable::NipaShowMillions(row) => ParameterValueTable::NipaShowMillions(
                row.clone(),
            ),
            ParameterValueTable::ParameterFields(row) => ParameterValueTable::ParameterFields(
                row.clone(),
            ),
        }
    }
}

impl Row for ParameterValueTable {
    /// A row is an object. One with the key `ShowMillionsID` is a choice of
    /// figures in millions; every other is a key with its description.
    open spec fn row_of(j: Json) -> Result<ParameterValueTableView, ErrorView> {
        match object_of(j, Origin::ParameterValues) {
            Err(e) => Err(e),
            Ok(m) => if m.contains_key("ShowMillionsID"@) {
                match nipa_show_millions_of(m) {
                    Err(e) => Err(e),
                    Ok(row) => Ok(ParameterValueTableView::NipaShowMillions(row)),
                }
            } else {
                match parameter_fields_of(m) {
                    Err(e) => Err(e),
                    Ok(row) => Ok(ParameterValueTableView::ParameterFields(row)),
                }
            },
        }
    }

    open spec fn origin() -> Origin {
        Origin::ParameterValues
    }

    proof fn lemma_row_is_object(j: Json) {
    }

    fn read(value: &serde_json::Value) -> (r: Result<Self, BeaErr>) {
        let m = object(value, Origin::ParameterValues)?;
        if member(m, "ShowMillionsID", Origin::ParameterValues).is_ok() {
            let row = NipaShowMillions::read_json(m)?;
            Ok(ParameterValueTable::NipaShowMillions(row))
        } else {
            let row = ParameterFields::read_json(m)?;
            Ok(ParameterValueTable::ParameterFields(row))
        }
    }
}

/// The values that a parameter accepts, in the order of the response.
#[derive(Debug, PartialEq, Eq, PartialOrd)]
pub struct ParameterValues {
    param_value: Vec<ParameterValueTable>,
}

impl View for ParameterValues {
    type V = Seq<ParameterValueTableView>;

    closed spec fn view(&self) -> Seq<ParameterValueTableView> {
        row_views(self.param_value@)
    }
}

impl Clone for ParameterValues {
    fn clone(&self) -> (r: Self)
        ensures
            r@ == self@,
    {
        ParameterValues { param_value: clone_rows(&self.param_value) }
    }
}

/// What a results value holds where it is a table of parameter values: an
/// object whose key `ParamValue` holds an array of rows.
pub open spec fn parameter_values_of(j: Json) -> Result<Seq<ParameterValueTableView>, ErrorView> {
    match object_of(j, Origin::ParameterValues) {
        Err(e) => Err(e),
        Ok(m) => match member_of(m, "ParamValue"@, Origin::ParameterValues) {
            Err(e) => Err(e),
            Ok(table) => match array_of(table, Origin::ParameterValues) {
                Err(e) => Err(e),
                Ok(items) => rows_of::<ParameterValueTable>(items),
            },
        },
    }
}

impl ParameterValues {
    pub fn new(param_value: Vec<ParameterValueTable>) -> (r: Self)
        ensures
            r@ == row_views(param_value@),
    {
        ParameterValues { param_value }
    }

    /// The rows, in the order of the response.
    pub fn param_value(&self) -> (r: &Vec<ParameterValueTable>)
        ensures
            row_views(r@) == self@,
    {
        &self.param_value
    }
}

impl TryFrom<&serde_json::Value> for ParameterValues {
    type Error = BeaErr;

    /// Decodes a table of parameter values.
    fn try_from(value: &serde_json::Value) -> (r: Result<Self, BeaErr>)
        ensures
            outcome(r) == parameter_values_of(value_json(*value)),
    {
        let m = object(value, Origin::ParameterValues)?;
        let table = member(m, "ParamValue", Origin::ParameterValues)?;
        let items = array(table, Origin::ParameterValues)?;
        let param_value = rows::<ParameterValueTable>(items)?;
        Ok(ParameterValues { param_value })
    }
}

/// The conversion follows no spec function: what it returns is stated in the
/// contract of `try_from`.
impl vstd::std_specs::convert::TryFromSpecImpl<&serde_json::Value> for ParameterValues {
    open spec fn obeys_try_from_spec() -> bool {
        false
    }

    open spec fn try_from_spec(value: &serde_json::Value) -> Result<Self, BeaErr> {
        arbitrary()
    }
}

impl Plain for ParameterValueTable {
    /// The kind of the row, `0` for a choice of figures in millions and `1`
    /// for a key with its description, and then its two texts.
    type Form = (u8, String, String);

    open spec fn form_of(value: ParameterValueTableView) -> (u8, Seq<char>, Seq<char>) {
        match value {
            ParameterValueTableView::NipaShowMillions(row) => (
                0u8,
                row.show_millions_id,
                row.description,
            ),
            ParameterValueTableView::ParameterFields(row) => (1u8, row.key, row.desc),
        }
    }

    open spec fn value_of(form: (u8, Seq<char>, Seq<char>)) -> Option<ParameterValueTableView> {
        if form.0 == 0 {
            Some(
                ParameterValueTableView::NipaShowMillions(
                    NipaShowMillionsView { show_millions_id: form.1, description: form.2 },
                ),
            )
        } else if form.0 == 1 {
            Some(
                ParameterValueTableView::ParameterFields(
                    ParameterFieldsView { key: form.1, desc: form.2 },
                ),
            )
        } else {
            None
        }
    }

    proof fn lemma_value_of_form(value: ParameterValueTableView) {
    }

    fn to_form(&self) -> (r: (u8, String, String)) {
        let form = match self {
            ParameterValueTable::NipaShowMillions(row) => (
                0,
                row.show_millions_id.clone(),
                row.description.clone(),
            ),
            ParameterValueTable::ParameterFields(row) => (1, row.key.clone(), row.desc.clone()),
        };
        assert(form.deep_view() == Self::form_of(self@));
        form
    }

    fn from_form(form: &(u8, String, String)) -> (r: Option<Self>) {
        if form.0 == 0 {
            Some(
                ParameterValueTable::NipaShowMillions(
                    NipaShowMillions {
                        show_millions_id: form.1.clone(),
                        description: form.2.clone(),
                    },
                ),
            )
        } else if form.0 == 1 {
            Some(
                ParameterValueTable::ParameterFields(
                    ParameterFields { key: form.1.clone(), desc: form.2.clone() },
                ),
            )
        } else {
            None
        }
    }
}

impl Plain for ParameterValues {
    type Form = Vec<(u8, String, String)>;

    open spec fn form_of(value: Seq<ParameterValueTableView>) -> Seq<(u8, Seq<char>, Seq<char>)> {
        forms_of::<ParameterValueTable>(value)
    }

    open spec fn value_of(form: Seq<(u8, Seq<char>, Seq<char>)>) -> Option<Seq<ParameterValueTableView>> {
        values_of::<ParameterValueTable>(form)
    }

    proof fn lemma_value_of_form(value: Seq<ParameterValueTableView>) {
        lemma_values_of_forms::<ParameterValueTable>(value);
    }

    fn to_form(&self) -> (r: Vec<(u8, String, String)>) {
        to_forms::<ParameterValueTable>(&self.param_value)
    }

    fn from_form(form: &Vec<(u8, String, String)>) -> (r: Option<Self>) {
        match from_forms::<ParameterValueTable>(form) {
            Some(param_value) => Some(ParameterValues { param_value }),
            None => None,
        }
    }
}

} // verus!
