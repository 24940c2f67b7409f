//! The catalog of the parameters of a dataset.

use crate::error::{outcome, BeaErr, ErrorView, Origin};
use crate::json::{
    array, array_of, member, member_of, object, object_entries, object_of, optional_text,
    optional_text_of, text, text_of, value_json, Json,
};
use crate::plain::{from_forms, forms_of, lemma_values_of_forms, to_forms, values_of, Plain};
use crate::rows::{clone_rows, row_views, rows, rows_of, Row};
use crate::text::{decode_flag, flag_of};
use vstd::prelude::*;

verus! {

/// One parameter of a dataset.
#[derive(Debug, PartialEq, Eq, PartialOrd)]
pub struct Parameter {
    parameter_name: String,
    parameter_data_type: String,
    parameter_description: String,
    parameter_is_required_flag: bool,
    parameter_default_value: Option<String>,
    multiple_accepted_flag: bool,
    all_value: Option<String>,
}

/// The mathematical value of a [`Parameter`].
pub struct ParameterView {
    pub parameter_name: Seq<char>,
    pub parameter_data_type: Seq<char>,
    pub parameter_description: Seq<char>,
    pub parameter_is_required_flag: bool,
    pub parameter_default_value: Option<Seq<char>>,
    pub multiple_accepted_flag: bool,
    pub all_value: Option<Seq<char>>,
}

/// The view of a text that may be absent.
pub open spec fn optional_view(text: Option<String>) -> Option<Seq<char>> {
    match text {
        Some(s) => Some(s@),
        None => None,
    }
}

impl View for Parameter {
    type V = ParameterView;

    closed spec fn view(&self) -> ParameterView {
        ParameterView {
            parameter_name: self.parameter_name@,
            parameter_data_type: self.parameter_data_type@,
            parameter_description: self.parameter_description@,
            parameter_is_required_flag: self.parameter_is_required_flag,
            parameter_default_value: optional_view(self.parameter_default_value),
            multiple_accepted_flag: self.multiple_accepted_flag,
            all_value: optional_view(self.all_value),
        }
    }
}

/// A copy of a text that may be absent.
fn clone_optional(text: &Option<String>) -> (r: Option<String>)
    ensures
        optional_view(r) == optional_view(*text),
{
    match text {
        Some(s) => Some(s.clone()),
        None => None,
    }
}

impl Clone for Parameter {
    fn clone(&self) -> (r: Self)
        ensures
            r@ == self@,
    {
        Parameter {
            parameter_name: self.parameter_name.clone(),
            parameter_data_type: self.parameter_data_type.clone(),
            parameter_description: self.parameter_description.clone(),
            parameter_is_required_flag: self.parameter_is_required_flag,
            parameter_default_value: clone_optional(&self.parameter_default_value),
            multiple_accepted_flag: self.multiple_accepted_flag,
            all_value: clone_optional(&self.all_value),
        }
    }
}

/// The texts of the fields of a parameter, before its flags are decoded.
pub struct ParameterTexts {
    pub parameter_name: Seq<char>,
    pub parameter_data_type: Seq<char>,
    pub parameter_description: Seq<char>,
    pub parameter_is_required_flag: Seq<char>,
    pub parameter_default_value: Option<Seq<char>>,
    pub multiple_accepted_flag: Seq<char>,
    pub all_value: Option<Seq<char>>,
}

/// The five values that a parameter must have, in the order in which their
/// keys are looked for: `ParameterName`, `ParameterDataType`,
/// `ParameterDescription`, `ParameterIsRequiredFlag`, `MultipleAcceptedFlag`.
/// The first key that is absent decides the error.
pub open spec fn parameter_members_of(m: Map<Seq<char>, Json>) -> Result<
    (Json, Json, Json, Json, Json),
    ErrorView,
> {
    match member_of(m, "ParameterName"@, Origin::Parameters) {
        Err(e) => Err(e),
        Ok(name) => match member_of(m, "ParameterDataType"@, Origin::Parameters) {
            Err(e) => Err(e),
            Ok(data_type) => match member_of(m, "ParameterDescription"@, Origin::Parameters) {
                Err(e) => Err(e),
                Ok(description) => match member_of(
                    m,
                    "ParameterIsRequiredFlag"@,
                    Origin::Parameters,
                ) {
                    Err(e) => Err(e),
                    Ok(required) => match member_of(
                        m,
                        "MultipleAcceptedFlag"@,
                        Origin::Parameters,
                    ) {
                        Err(e) => Err(e),
                        Ok(multiple) => Ok((name, data_type, description, required, multiple)),
                    },
                },
            },
        }
    }
}

/// The texts of a parameter. All required keys are looked for first. Then
/// each required value is read as a string, in the same order, and after
/// them the two that may be absent, `ParameterDefaultValue` and `AllValue`.
pub open spec fn parameter_texts_of(m: Map<Seq<char>, Json>) -> Result<ParameterTexts, ErrorView> {
    match parameter_members_of(m) {
        Err(e) => Err(e),
        Ok(found) => match text_of(found.0, "ParameterName"@, Origin::Parameters) {
            Err(e) => Err(e),
            Ok(parameter_name) => match text_of(
                found.1,
                "ParameterDataType"@,
                Origin::Parameters,
            ) {
                Err(e) => Err(e),
                Ok(parameter_data_type) => match text_of(
                    found.2,
                    "ParameterDescription"@,
                    Origin::Parameters,
                ) {
                    Err(e) => Err(e),
                    Ok(parameter_description) => match text_of(
                        found.3,
                        "ParameterIsRequiredFlag"@,
                        Origin::Parameters,
                    ) {
                        Err(e) => Err(e),
                        Ok(parameter_is_required_flag) => match text_of(
                            found.4,
                            "MultipleAcceptedFlag"@,
                            Origin::Parameters,
                        ) {
                            Err(e) => Err(e),
                            Ok(multiple_accepted_flag) => match optional_text_of(
                                m,
                                "ParameterDefaultValue"@,
                                Origin::Parameters,
                            ) {
                                Err(e) => Err(e),
                                Ok(parameter_default_value) => match optional_text_of(
                                    m,
                                    "AllValue"@,
                                    Origin::Parameters,
                                ) {
                                    Err(e) => Err(e),
                                    Ok(all_value) => Ok(
                                        ParameterTexts {
                                            parameter_name,
                                            parameter_data_type,
                                            parameter_description,
                                            parameter_is_required_flag,
                                            parameter_default_value,
                                            multiple_accepted_flag,
                                            all_value,
                                        },
                                    ),
                                },
                            },
                        },
                    },
                },
            },
        },
    }
}

/// What a flag of a parameter stands for: the code `1` is `true`, the code
/// `0` is `false`, and every other code is refused with `VariantMissing`.
pub open spec fn parameter_flag_of(code: Seq<char>) -> Result<bool, ErrorView> {
    flag_of(code, "1"@, "0"@, "value of '1' or '0' expected"@, Origin::Parameters)
}

/// The parameter that its texts stand for: the flag of `ParameterIsRequiredFlag`
/// is decoded first, then that of `MultipleAcceptedFlag`.
pub open spec fn parameter_from_texts(texts: ParameterTexts) -> Result<ParameterView, ErrorView> {
    match parameter_flag_of(texts.parameter_is_required_flag) {
        Err(e) => Err(e),
        Ok(parameter_is_required_flag) => match parameter_flag_of(texts.multiple_accepted_flag) {
            Err(e) => Err(e),
            Ok(multiple_accepted_flag) => Ok(
                ParameterView {
                    parameter_name: texts.parameter_name,
                    parameter_data_type: texts.parameter_data_type,
                    parameter_description: texts.parameter_description,
                    parameter_is_required_flag,
                    parameter_default_value: texts.parameter_default_value,
                    multiple_accepted_flag,
                    all_value: texts.all_value,
                },
            ),
        },
    }
}

/// What the entries of a row hold where the row is a parameter.
pub open spec fn parameter_of(m: Map<Seq<char>, Json>) -> Result<ParameterView, ErrorView> {
    match parameter_texts_of(m) {
        Err(e) => Err(e),
        Ok(texts) => parameter_from_texts(texts),
    }
}

/// Decodes a flag of a parameter.
fn parameter_flag(code: &str) -> (r: Result<bool, BeaErr>)
    ensures
        outcome(r) == parameter_flag_of(code@),
{
    decode_flag(code, "1", "0", "value of '1' or '0' expected", Origin::Parameters)
}

impl Parameter {
    pub fn new(
        parameter_name: String,
        parameter_data_type: String,
        parameter_description: String,
        parameter_is_required_flag: bool,
        parameter_default_value: Option<String>,
        multiple_accepted_flag: bool,
        all_value: Option<String>,
    ) -> (r: Self)
        ensures
            r@ == (ParameterView {
                parameter_name: parameter_name@,
                parameter_data_type: parameter_data_type@,
                parameter_description: parameter_description@,
                parameter_is_required_flag,
                parameter_default_value: optional_view(parameter_default_value),
                multiple_accepted_flag,
                all_value: optional_view(all_value),
            }),
    {
        Parameter {
            parameter_name,
            parameter_data_type,
            parameter_description,
            parameter_is_required_flag,
            parameter_default_value,
            multiple_accepted_flag,
            all_value,
        }
    }

    pub fn parameter_name(&self) -> (r: &String)
        ensures
            r@ == self@.parameter_name,
    {
        &self.parameter_name
    }

    pub fn parameter_data_type(&self) -> (r: &String)
        ensures
            r@ == self@.parameter_data_type,
    {
        &self.parameter_data_type
    }

    pub fn parameter_description(&self) -> (r: &String)
        ensures
            r@ == self@.parameter_description,
    {
        &self.parameter_description
    }

    pub fn parameter_is_required_flag(&self) -> (r: &bool)
        ensures
            *r == self@.parameter_is_required_flag,
    {
        &self.parameter_is_required_flag
    }

    pub fn parameter_default_value(&self) -> (r: &Option<String>)
        ensures
            optional_view(*r) == self@.parameter_default_value,
    {
        &self.parameter_default_value
    }

    pub fn multiple_accepted_flag(&self) -> (r: &bool)
        ensures
            *r == self@.multiple_accepted_flag,
    {
        &self.multiple_accepted_flag
    }

    pub fn all_value(&self) -> (r: &Option<String>)
        ensures
            optional_view(*r) == self@.all_value,
    {
        &self.all_value
    }

    /// Decodes a parameter from the entries of a row.
    pub fn read_json(m: &serde_json::Map<String, serde_json::Value>) -> (r: Result<Self, BeaErr>)
        ensures
            outcome(r) == parameter_of(object_entries(*m)),
    {
        let name = member(m, "ParameterName", Origin::Parameters)?;
        let data_type = member(m, "ParameterDataType", Origin::Parameters)?;
        let description = member(m, "ParameterDescription", Origin::Parameters)?;
        let required = member(m, "ParameterIsRequiredFlag", Origin::Parameters)?;
        let multiple = member(m, "MultipleAcceptedFlag", Origin::Parameters)?;
        let parameter_name = text(name, "ParameterName", Origin::Parameters)?;
        let parameter_data_type = text(data_type, "ParameterDataType", Origin::Parameters)?;
        let parameter_description = text(description, "ParameterDescription", Origin::Parameters)?;
        let required_code = text(required, "ParameterIsRequiredFlag", Origin::Parameters)?;
        let multiple_code = text(multiple, "MultipleAcceptedFlag", Origin::Parameters)?;
        let parameter_default_value = optional_text(
            m,
            "ParameterDefaultValue",
            Origin::Parameters,
        )?;
        let all_value = optional_text(m, "AllValue", Origin::Parameters)?;
        let parameter_is_required_flag = parameter_flag(required_code.as_str())?;
        let multiple_accepted_flag = parameter_flag(multiple_code.as_str())?;
        Ok(
            Parameter {
                parameter_name,
                parameter_data_type,
                parameter_description,
                parameter_is_required_flag,
                parameter_default_value,
                multiple_accepted_flag,
                all_value,
            },
        )
    }
}

impl Row for Parameter {
    /// A row of the catalog is an object that holds a parameter.
    open spec fn row_of(j: Json) -> Result<ParameterView, ErrorView> {
        match object_of(j, Origin::Parameters) {
            Err(e) => Err(e),
            Ok(m) => parameter_of(m),
        }
    }

    open spec fn origin() -> Origin {
        Origin::Parameters
    }

    proof fn lemma_row_is_object(j: Json) {
    }

    fn read(value: &serde_json::Value) -> (r: Result<Self, BeaErr>) {
        let m = object(value, Origin::Parameters)?;
        Parameter::read_json(m)
    }
}

/// The catalog of parameters, in the order of the response.
#[derive(Debug, PartialEq, Eq, PartialOrd)]
pub struct Parameters {
    parameter: Vec<Parameter>,
}

impl View for Parameters {
    type V = Seq<ParameterView>;

    closed spec fn view(&self) -> Seq<ParameterView> {
        row_views(self.parameter@)
    }
}

impl Clone for Parameters {
    fn clone(&self) -> (r: Self)
        ensures
            r@ == self@,
    {
        Parameters { parameter: clone_rows(&self.parameter) }
    }
}

/// What a results value holds where it is a catalog of parameters: an object
/// whose key `Parameter` holds an array of parameters.
pub open spec fn parameters_of(j: Json) -> Result<Seq<ParameterView>, ErrorView> {
    match object_of(j, Origin::Parameters) {
        Err(e) => Err(e),
        Ok(m) => match member_of(m, "Parameter"@, Origin::Parameters) {
            Err(e) => Err(e),
            Ok(table) => match array_of(table, Origin::Parameters) {
                Err(e) => Err(e),
                Ok(items) => rows_of::<Parameter>(items),
            },
        },
    }
}

impl Parameters {
    pub fn new(parameter: Vec<Parameter>) -> (r: Self)
        ensures
            r@ == row_views(parameter@),
    {
        Parameters { parameter }
    }

    /// The parameters, in the order of the response.
    pub fn parameter(&self) -> (r: &Vec<Parameter>)
        ensures
            row_views(r@) == self@,
    {
        &self.parameter
    }
}

impl TryFrom<&serde_json::Value> for Parameters {
    type Error = BeaErr;

    /// Decodes a catalog of parameters.
    fn try_from(value: &serde_json::Value) -> (r: Result<Self, BeaErr>)
        ensures
            outcome(r) == parameters_of(value_json(*value)),
    {
        let m = object(value, Origin::Parameters)?;
        let table = member(m, "Parameter", Origin::Parameters)?;
        let items = array(table, Origin::Parameters)?;
        let parameter = rows::<Parameter>(items)?;
        Ok(Parameters { parameter })
    }
}

/// The conversion follows no spec function: what it returns is stated in the
/// contract of `try_from`.
impl vstd::std_specs::convert::TryFromSpecImpl<&serde_json::Value> for Parameters {
    open spec fn obeys_try_from_spec() -> bool {
        false
    }

    open spec fn try_from_spec(value: &serde_json::Value) -> Result<Self, BeaErr> {
        arbitrary()
    }
}

impl Plain for Parameter {
    type Form = (String, String, String, bool, Option<String>, bool, Option<String>);

    open spec fn form_of(value: ParameterView) -> (Seq<char>, Seq<char>, Seq<char>, bool, Option<Seq<char>>, bool, Option<Seq<char>>) {
        (
            value.parameter_name,
            value.parameter_data_type,
            value.parameter_description,
            value.parameter_is_required_flag,
            value.parameter_default_value,
            value.multiple_accepted_flag,
            value.all_value,
        )
    }

    open spec fn value_of(form: (Seq<char>, Seq<char>, Seq<char>, bool, Option<Seq<char>>, bool, Option<Seq<char>>)) -> Option<ParameterView> {
        Some(
            ParameterView {
                parameter_name: form.0,
                parameter_data_type: form.1,
                parameter_description: form.2,
                parameter_is_required_flag: form.3,
                parameter_default_value: form.4,
                multiple_accepted_flag: form.5,
                all_value: form.6,
            },
        )
    }

    proof fn lemma_value_of_form(value: ParameterView) {
    }

    fn to_form(&self) -> (r: (String, String, String, bool, Option<String>, bool, Option<String>)) {
        let form = (
            self.parameter_name.clone(),
            self.parameter_data_type.clone(),
            self.parameter_description.clone(),
            self.parameter_is_required_flag,
            clone_optional(&self.parameter_default_value),
            self.multiple_accepted_flag,
            clone_optional(&self.all_value),
        );
        assert(form.deep_view() == Self::form_of(self@));
        form
    }

    fn from_form(form: &(String, String, String, bool, Option<String>, bool, Option<String>)) -> (r: Option<Self>) {
        Some(
            Parameter {
                parameter_name: form.0.clone(),
                parameter_data_type: form.1.clone(),
                parameter_description: form.2.clone(),
                parameter_is_required_flag: form.3,
                parameter_default_value: clone_optional(&form.4),
                multiple_accepted_flag: form.5,
                all_value: clone_optional(&form.6),
            },
        )
    }
}

impl Plain for Parameters {
    type Form = Vec<(String, String, String, bool, Option<String>, bool, Option<String>)>;

    open spec fn form_of(value: Seq<ParameterView>) -> Seq<(Seq<char>, Seq<char>, Seq<char>, bool, Option<Seq<char>>, bool, Option<Seq<char>>)> {
        forms_of::<Parameter>(value)
    }

    open spec fn value_of(form: Seq<(Seq<char>, Seq<char>, Seq<char>, bool, Option<Seq<char>>, bool, Option<Seq<char>>)>) -> Option<Seq<ParameterView>> {
        values_of::<Parameter>(form)
    }

    proof fn lemma_value_of_form(value: Seq<ParameterView>) {
        lemma_values_of_forms::<Parameter>(value);
    }

    fn to_form(&self) -> (r: Vec<(String, String, String, bool, Option<String>, bool, Option<String>)>) {
        to_forms::<Parameter>(&self.parameter)
    }

    fn from_form(form: &Vec<(String, String, String, bool, Option<String>, bool, Option<String>)>) -> (r: Option<Self>) {
        match from_forms::<Parameter>(form) {
            Some(parameter) => Some(Parameters { parameter }),
            None => None,
        }
    }
}

} // verus!
