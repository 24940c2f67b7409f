//! The echo of the request that a response carries.

use crate::error::{outcome, BeaErr, ErrorView, Origin};
use crate::json::{
    array, array_of, member, member_of, object, object_of, text_pair, text_pair_of, value_json,
    Json,
};
use crate::plain::{from_forms, forms_of, lemma_values_of_forms, to_forms, values_of, Plain};
use crate::rows::{clone_rows, row_views, rows, rows_of, Row};
use crate::text::same_text;
use vstd::prelude::*;

verus! {

/// The operations of the service.
#[derive(Clone, Copy, Debug, PartialEq, Eq, Structural)]
pub enum Method {
    GetData,
    GetDataSetList,
    GetParameterList,
    GetParameterValues,
    GetParameterValuesFiltered,
}

/// The operation that the service names `name` in its echo. The service
/// writes the names in capitals.
pub open spec fn method_named(name: Seq<char>) -> Option<Method> {
    if name == "GETDATA"@ {
        Some(Method::GetData)
    } else if name == "GETDATASETLIST"@ {
        Some(Method::GetDataSetList)
    } else if name == "GETPARAMETERLIST"@ {
        Some(Method::GetParameterList)
    } else if name == "GETPARAMETERVALUES"@ {
        Some(Method::GetParameterValues)
    } else if name == "GETPARAMETERVALUESFILTERED"@ {
        Some(Method::GetParameterValuesFiltered)
    } else {
        None
    }
}

impl Method {
    /// The operation with the name `name`, if there is one.
    pub fn from_name(name: &str) -> (r: Option<Method>)
        ensures
            r == method_named(name@),
    {
        if same_text(name, "GETDATA") {
            Some(Method::GetData)
        } else if same_text(name, "GETDATASETLIST") {
            Some(Method::GetDataSetList)
        } else if same_text(name, "GETPARAMETERLIST") {
            Some(Method::GetParameterList)
        } else if same_text(name, "GETPARAMETERVALUES") {
            Some(Method::GetParameterValues)
        } else if same_text(name, "GETPARAMETERVALUESFILTERED") {
            Some(Method::GetParameterValuesFiltered)
        } else {
            None
        }
    }
}

/// One parameter of the request, as the service echoes it.
#[derive(Debug, PartialEq, Eq, PartialOrd)]
pub struct RequestParameter {
    parameter_name: String,
    parameter_value: String,
}

/// The mathematical value of a [`RequestParameter`].
pub struct RequestParameterView {
    pub parameter_name: Seq<char>,
    pub parameter_value: Seq<char>,
}

impl View for RequestParameter {
    type V = RequestParameterView;

    closed spec fn view(&self) -> RequestParameterView {
        RequestParameterView {
            parameter_name: self.parameter_name@,
            parameter_value: self.parameter_value@,
        }
    }
}

impl Clone for RequestParameter {
    fn clone(&self) -> (r: Self)
        ensures
            r@ == self@,
    {
        RequestParameter {
            parameter_name: self.parameter_name.clone(),
            parameter_value: self.parameter_value.clone(),
        }
    }
}

impl RequestParameter {
    pub fn new(parameter_name: String, parameter_value: String) -> (r: Self)
        ensures
            r@ == (RequestParameterView {
                parameter_name: parameter_name@,
                parameter_value: parameter_value@,
            }),
    {
        RequestParameter { parameter_name, parameter_value }
    }

    pub fn parameter_name(&self) -> (r: &String)
        ensures
            r@ == self@.parameter_name,
    {
        &self.parameter_name
    }

    pub fn parameter_value(&self) -> (r: &String)
        ensures
            r@ == self@.parameter_value,
    {
        &self.parameter_value
    }
}

impl Row for RequestParameter {
    /// A parameter of the echo is an object with the keys `ParameterName`
    /// and `ParameterValue`, both strings.
    open spec fn row_of(j: Json) -> Result<RequestParameterView, ErrorView> {
        match object_of(j, Origin::RequestParameters) {
            Err(e) => Err(e),
            Ok(m) => match text_pair_of(
                m,
                "ParameterName"@,
                "ParameterValue"@,
                Origin::RequestParameters,
            ) {
                Err(e) => Err(e),
                Ok(pair) => Ok(
                    RequestParameterView { parameter_name: pair.0, parameter_value: pair.1 },
                ),
            },
        }
    }

    open spec fn origin() -> Origin {
        Origin::RequestParameters
    }

    proof fn lemma_row_is_object(j: Json) {
    }

    fn read(value: &serde_json::Value) -> (r: Result<Self, BeaErr>) {
        let m = object(value, Origin::RequestParameters)?;
        let pair = text_pair(m, "ParameterName", "ParameterValue", Origin::RequestParameters)?;
        Ok(RequestParameter { parameter_name: pair.0, parameter_value: pair.1 })
    }
}

/// The echo of the request: its parameters, in the order of the response.
#[derive(Debug, PartialEq, Eq, PartialOrd)]
pub struct RequestParameters {
    request_param: Vec<RequestParameter>,
}

impl View for RequestParameters {
    type V = Seq<RequestParameterView>;

    closed spec fn view(&self) -> Seq<RequestParameterView> {
        row_views(self.request_param@)
    }
}

impl Clone for RequestParameters {
    fn clone(&self) -> (r: Self)
        ensures
            r@ == self@,
    {
        RequestParameters { request_param: clone_rows(&self.request_param) }
    }
}

/// What a value holds where it is the echo of a request: an object whose key
/// `RequestParam` holds an array of parameters.
pub open spec fn request_parameters_of(j: Json) -> Result<Seq<RequestParameterView>, ErrorView> {
    match object_of(j, Origin::RequestParameters) {
        Err(e) => Err(e),
        Ok(m) => match member_of(m, "RequestParam"@, Origin::RequestParameters) {
            Err(e) => Err(e),
            Ok(table) => match array_of(table, Origin::RequestParameters) {
                Err(e) => Err(e),
                Ok(items) => rows_of::<RequestParameter>(items),
            },
        },
    }
}

/// The operation that the echo declares: what the first parameter with the
/// name `METHOD` names. There is none where no parameter has that name, or
/// where the first that has it names no operation.
pub open spec fn method_of(request: Seq<RequestParameterView>) -> Option<Method>
    decreases request.len(),
{
    if request.len() == 0 {
        None
    } else if request[0].parameter_name == "METHOD"@ {
        method_named(request[0].parameter_value)
    } else {
        method_of(request.drop_first())
    }
}

impl RequestParameters {
    pub fn new(request_param: Vec<RequestParameter>) -> (r: Self)
        ensures
            r@ == row_views(request_param@),
    {
        RequestParameters { request_param }
    }

    /// The parameters, in the order of the response.
    pub fn request_param(&self) -> (r: &Vec<RequestParameter>)
        ensures
            row_views(r@) == self@,
    {
        &self.request_param
    }

    /// The operation that the echo declares, if it declares one.
    pub fn method(&self) -> (r: Option<Method>)
        ensures
            r == method_of(self@),
    {
        let ghost all = self@;
        let mut i: usize = 0;
        assert(all.skip(0) =~= all);
        while i < self.request_param.len()
            invariant
                i <= self.request_param.len(),
                all == row_views(self.request_param@),
                method_of(all) == method_of(all.skip(i as int)),
            decreases self.request_param.len() - i,
        {
            assert(all.skip(i as int)[0] == all[i as int]);
            assert(all.skip(i as int).drop_first() =~= all.skip(i + 1));
            let parameter = &self.request_param[i];
            if same_text(parameter.parameter_name.as_str(), "METHOD") {
                return Method::from_name(parameter.parameter_value.as_str());
            }
            i += 1;
        }
        None
    }
}

impl TryFrom<&serde_json::Value> for RequestParameters {
    type Error = BeaErr;

    /// Decodes the echo of a request.
    fn try_from(value: &serde_json::Value) -> (r: Result<Self, BeaErr>)
        ensures
            outcome(r) == request_parameters_of(value_json(*value)),
    {
        let m = object(value, Origin::RequestParameters)?;
        let table = member(m, "RequestParam", Origin::RequestParameters)?;
        let items = array(table, Origin::RequestParameters)?;
        let request_param = rows::<RequestParameter>(items)?;
        Ok(RequestParameters { request_param })
    }
}

/// The conversion follows no spec function: what it returns is stated in the
/// contract of `try_from`.
impl vstd::std_specs::convert::TryFromSpecImpl<&serde_json::Value> for RequestParameters {
    open spec fn obeys_try_from_spec() -> bool {
        false
    }

    open spec fn try_from_spec(value: &serde_json::Value) -> Result<Self, BeaErr> {
        arbitrary()
    }
}

impl Plain for RequestParameter {
    type Form = (String, String);

    open spec fn form_of(value: RequestParameterView) -> (Seq<char>, Seq<char>) {
        (value.parameter_name, value.parameter_value)
    }

    open spec fn value_of(form: (Seq<char>, Seq<char>)) -> Option<RequestParameterView> {
        Some(RequestParameterView { parameter_name: form.0, parameter_value: form.1 })
    }

    proof fn lemma_value_of_form(value: RequestParameterView) {
    }

    fn to_form(&self) -> (r: (String, String)) {
        (self.parameter_name.clone(), self.parameter_value.clone())
    }

    fn from_form(form: &(String, String)) -> (r: Option<Self>) {
        Some(RequestParameter { parameter_name: form.0.clone(), parameter_value: form.1.clone() })
    }
}

impl Plain for RequestParameters {
    type Form = Vec<(String, String)>;

    open spec fn form_of(value: Seq<RequestParameterView>) -> Seq<(Seq<char>, Seq<char>)> {
        forms_of::<RequestParameter>(value)
    }

    open spec fn value_of(form: Seq<(Seq<char>, Seq<char>)>) -> Option<Seq<RequestParameterView>> {
        values_of::<RequestParameter>(form)
    }

    proof fn lemma_value_of_form(value: Seq<RequestParameterView>) {
        lemma_values_of_forms::<RequestParameter>(value);
    }

    fn to_form(&self) -> (r: Vec<(String, String)>) {
        to_forms::<RequestParameter>(&self.request_param)
    }

    fn from_form(form: &Vec<(String, String)>) -> (r: Option<Self>) {
        match from_forms::<RequestParameter>(form) {
            Some(request_param) => Some(RequestParameters { request_param }),
            None => None,
        }
    }
}

} // verus!
