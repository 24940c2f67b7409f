//! The results of a response, the classifier that tells their shapes apart,
//! and the envelope around them.

use crate::cache::{
    bincode_bytes, bincode_form, decode_error, encoded, from_bytes, to_bytes,
    ApiErrorForm, ApiErrorFormView, BeaapiForm, BeaapiFormView, EnvelopeForm, EnvelopeFormView,
    ResultsForm, ResultsFormView, FORMAT,
};
use crate::data::{nipa_data_of, Data, DataView, NipaData};
use crate::datasets::{datasets_of, DatasetDetailsView, Datasets};
use crate::error::{outcome, BeaErr, ErrorView, Origin};
use crate::json::{
    member, member_of, object, object_entries, object_of, text_pair, text_pair_of, value_json,
    Json,
};
use crate::parameter_values::{parameter_values_of, ParameterValueTableView, ParameterValues};
use crate::parameters::{parameters_of, ParameterView, Parameters};
use crate::plain::Plain;
use crate::request::{
    method_of, request_parameters_of, Method, RequestParameterView, RequestParameters,
};
use crate::text::{decimal, decimal_of, integer, integer_of};
use vstd::string::StringExecFns;
use vstd::prelude::*;

verus! {

/// A failure that the service reports in place of results.
#[derive(Debug, PartialEq, Eq, PartialOrd, Ord, Hash)]
pub struct ApiError {
    code: i32,
    description: String,
}

/// The mathematical value of an [`ApiError`].
pub struct ApiErrorView {
    pub code: i32,
    pub description: Seq<char>,
}

impl View for ApiError {
    type V = ApiErrorView;

    closed spec fn view(&self) -> ApiErrorView {
        ApiErrorView { code: self.code, description: self.description@ }
    }
}

impl Clone for ApiError {
    fn clone(&self) -> (r: Self)
        ensures
            r@ == self@,
    {
        ApiError { code: self.code, description: self.description.clone() }
    }
}

impl Default for ApiError {
    /// The code `0` with no description.
    fn default() -> (r: Self)
        ensures
            r@ == (ApiErrorView { code: 0, description: Seq::empty() }),
    {
        ApiError { code: 0, description: String::new() }
    }
}

/// What the entries of a results object hold where the object reports a
/// failure: the key `Error` holds an object with the keys
/// `APIErrorDescription` and `APIErrorCode`, both strings, and the code is
/// the decimal form of an integer.
pub open spec fn api_error_of_entries(m: Map<Seq<char>, Json>) -> Result<ApiErrorView, ErrorView> {
    match member_of(m, "Error"@, Origin::ApiError) {
        Err(e) => Err(e),
        Ok(error) => match object_of(error, Origin::ApiError) {
            Err(e) => Err(e),
            Ok(fields) => match text_pair_of(
                fields,
                "APIErrorDescription"@,
                "APIErrorCode"@,
                Origin::ApiError,
            ) {
                Err(e) => Err(e),
                Ok(pair) => match integer_of(pair.1, Origin::ApiError) {
                    Err(e) => Err(e),
                    Ok(code) => Ok(ApiErrorView { code, description: pair.0 }),
                },
            },
        },
    }
}

/// A reported failure in words: its code in decimal form, then its
/// description.
pub open spec fn api_error_text(error: ApiErrorView) -> Seq<char> {
    "API Error - Code: "@ + decimal_of(error.code) + " - Description: "@ + error.description
}

/// What a results value holds where it reports a failure.
pub open spec fn api_error_of(j: Json) -> Result<ApiErrorView, ErrorView> {
    match object_of(j, Origin::ApiError) {
        Err(e) => Err(e),
        Ok(m) => api_error_of_entries(m),
    }
}

impl ApiError {
    pub fn new(code: i32, description: String) -> (r: Self)
        ensures
            r@ == (ApiErrorView { code, description: description@ }),
    {
        ApiError { code, description }
    }

    pub fn code(&self) -> (r: &i32)
        ensures
            *r == self@.code,
    {
        &self.code
    }

    pub fn description(&self) -> (r: &String)
        ensures
            r@ == self@.description,
    {
        &self.description
    }

    /// The failure in words, as it is shown to a reader.
    pub fn to_string(&self) -> (r: String)
        ensures
            r@ == api_error_text(self@),
    {
        let mut text = "API Error - Code: ".to_owned();
        text.append(decimal(self.code).as_str());
        text.append(" - Description: ");
        text.append(self.description.as_str());
        text
    }

    /// Decodes a reported failure from the entries of a results object.
    pub fn read_json(mp: &serde_json::Map<String, serde_json::Value>) -> (r: Result<Self, BeaErr>)
        ensures
            outcome(r) == api_error_of_entries(object_entries(*mp)),
    {
        let error = member(mp, "Error", Origin::ApiError)?;
        let fields = object(error, Origin::ApiError)?;
        let pair = text_pair(fields, "APIErrorDescription", "APIErrorCode", Origin::ApiError)?;
        let code = integer(pair.1.as_str(), Origin::ApiError)?;
        Ok(ApiError { code, description: pair.0 })
    }
}

impl TryFrom<&serde_json::Value> for ApiError {
    type Error = BeaErr;

    /// Decodes a reported failure.
    fn try_from(value: &serde_json::Value) -> (r: Result<Self, BeaErr>)
        ensures
            outcome(r) == api_error_of(value_json(*value)),
    {
        let m = object(value, Origin::ApiError)?;
        ApiError::read_json(m)
    }
}

/// The conversion follows no spec function: what it returns is stated in the
/// contract of `try_from`.
impl vstd::std_specs::convert::TryFromSpecImpl<&serde_json::Value> for ApiError {
    open spec fn obeys_try_from_spec() -> bool {
        false
    }

    open spec fn try_from_spec(value: &serde_json::Value) -> Result<Self, BeaErr> {
        arbitrary()
    }
}

/// The shapes that results come in.
#[derive(Clone, Copy, Debug, PartialEq, Eq, Structural)]
pub enum Shape {
    Datasets,
    Parameters,
    ParameterValues,
    Data,
    ApiError,
}

/// The results of a response: exactly one of the known shapes.
#[derive(Debug, PartialEq, Eq, PartialOrd)]
pub enum Results {
    ApiError(ApiError),
    Data(Data),
    Datasets(Datasets),
    Parameters(Parameters),
    ParameterValues(ParameterValues),
}

/// The mathematical value of a [`Results`].
pub enum ResultsView {
    ApiError(ApiErrorView),
    Data(DataView),
    Datasets(Seq<DatasetDetailsView>),
    Parameters(Seq<ParameterView>),
    ParameterValues(Seq<ParameterValueTableView>),
}

impl View for Results {
    type V = ResultsView;

    open spec fn view(&self) -> ResultsView {
        match self {
            Results::ApiError(e) => ResultsView::ApiError(e@),
            Results::Data(d) => ResultsView::Data(d@),
            Results::Datasets(d) => ResultsView::Datasets(d@),
            Results::Parameters(p) => ResultsView::Parameters(p@),
            Results::ParameterValues(p) => ResultsView::ParameterValues(p@),
        }
    }
}

impl Clone for Results {
    fn clone(&self) -> (r: Self)
        ensures
            r@ == self@,
    {
        match self {
            Results::ApiError(e) => Results::ApiError(e.clone()),
            Results::Data(d) => Results::Data(d.clone()),
            Results::Datasets(d) => Results::Datasets(d.clone()),
            Results::Parameters(p) => Results::Parameters(p.clone()),
            Results::ParameterValues(p) => Results::ParameterValues(p.clone()),
        }
    }
}

impl From<ApiError> for Results {
    /// Results of the shape of `ApiError`.
    fn from(value: ApiError) -> (r: Self)
        ensures
            r == Results::ApiError(value),
    {
        Results::ApiError(value)
    }
}

impl vstd::std_specs::convert::FromSpecImpl<ApiError> for Results {
    open spec fn obeys_from_spec() -> bool {
        true
    }

    open spec fn from_spec(value: ApiError) -> Self {
        Results::ApiError(value)
    }
}

impl From<Data> for Results {
    /// Results of the shape of `Data`.
    fn from(value: Data) -> (r: Self)
        ensures
            r == Results::Data(value),
    {
        Results::Data(value)
    }
}

impl vstd::std_specs::convert::FromSpecImpl<Data> for Results {
    open spec fn obeys_from_spec() -> bool {
        true
    }

    open spec fn from_spec(value: Data) -> Self {
        Results::Data(value)
    }
}

impl From<Datasets> for Results {
    /// Results of the shape of `Datasets`.
    fn from(value: Datasets) -> (r: Self)
        ensures
            r == Results::Datasets(value),
    {
        Results::Datasets(value)
    }
}

impl vstd::std_specs::convert::FromSpecImpl<Datasets> for Results {
    open spec fn obeys_from_spec() -> bool {
        true
    }

    open spec fn from_spec(value: Datasets) -> Self {
        Results::Datasets(value)
    }
}

impl From<Parameters> for Results {
    /// Results of the shape of `Parameters`.
    fn from(value: Parameters) -> (r: Self)
        ensures
            r == Results::Parameters(value),
    {
        Results::Parameters(value)
    }
}

impl vstd::std_specs::convert::FromSpecImpl<Parameters> for Results {
    open spec fn obeys_from_spec() -> bool {
        true
    }

    open spec fn from_spec(value: Parameters) -> Self {
        Results::Parameters(value)
    }
}

impl From<ParameterValues> for Results {
    /// Results of the shape of `ParameterValues`.
    fn from(value: ParameterValues) -> (r: Self)
        ensures
            r == Results::ParameterValues(value),
    {
        Results::ParameterValues(value)
    }
}

impl vstd::std_specs::convert::FromSpecImpl<ParameterValues> for Results {
    open spec fn obeys_from_spec() -> bool {
        true
    }

    open spec fn from_spec(value: ParameterValues) -> Self {
        Results::ParameterValues(value)
    }
}

/// The shape of results.
pub open spec fn shape_of(results: ResultsView) -> Shape {
    match results {
        ResultsView::ApiError(_) => Shape::ApiError,
        ResultsView::Data(_) => Shape::Data,
        ResultsView::Datasets(_) => Shape::Datasets,
        ResultsView::Parameters(_) => Shape::Parameters,
        ResultsView::ParameterValues(_) => Shape::ParameterValues,
    }
}

/// The shape that a request for `method` should be answered with.
pub open spec fn preferred(method: Method) -> Shape {
    match method {
        Method::GetData => Shape::Data,
        Method::GetDataSetList => Shape::Datasets,
        Method::GetParameterList => Shape::Parameters,
        Method::GetParameterValues => Shape::ParameterValues,
        Method::GetParameterValuesFiltered => Shape::ParameterValues,
    }
}

/// The order in which the shapes are tried where nothing is preferred. A
/// reported failure comes last: it asks least of the value, and would hide
/// real results if it came sooner.
pub open spec fn fixed_order() -> Seq<Shape> {
    seq![Shape::Datasets, Shape::Parameters, Shape::ParameterValues, Shape::Data, Shape::ApiError]
}

/// The shapes to try, in order: the preferred one where the request declares
/// an operation, then all of them in the fixed order.
pub open spec fn candidates(hint: Option<Method>) -> Seq<Shape> {
    match hint {
        Some(method) => seq![preferred(method)] + fixed_order(),
        None => fixed_order(),
    }
}

/// What `j` holds where it is read as results of the shape `shape`.
pub open spec fn decoded_as(shape: Shape, j: Json) -> Result<ResultsView, ErrorView> {
    match shape {
        Shape::Datasets => match datasets_of(j) {
            Ok(d) => Ok(ResultsView::Datasets(d)),
            Err(e) => Err(e),
        },
        Shape::Parameters => match parameters_of(j) {
            Ok(p) => Ok(ResultsView::Parameters(p)),
            Err(e) => Err(e),
        },
        Shape::ParameterValues => match parameter_values_of(j) {
            Ok(p) => Ok(ResultsView::ParameterValues(p)),
            Err(e) => Err(e),
        },
        Shape::Data => match nipa_data_of(j) {
            Ok(d) => Ok(ResultsView::Data(DataView::Nipa(d))),
            Err(e) => Err(e),
        },
        Shape::ApiError => match api_error_of(j) {
            Ok(e) => Ok(ResultsView::ApiError(e)),
            Err(e) => Err(e),
        },
    }
}

/// The results that the first shape of `shapes` gives that `j` decodes as.
pub open spec fn first_decoded(j: Json, shapes: Seq<Shape>) -> Option<ResultsView>
    decreases shapes.len(),
{
    if shapes.len() == 0 {
        None
    } else {
        match decoded_as(shapes[0], j) {
            Ok(results) => Some(results),
            Err(_) => first_decoded(j, shapes.drop_first()),
        }
    }
}

/// The error of a value that decodes as no shape.
pub open spec fn not_results() -> ErrorView {
    ErrorView::KeyMissing { key: "Not results table"@, origin: Origin::Results }
}

/// The results that `j` holds, for a request whose echo declares `hint`:
/// what the first candidate gives that `j` decodes as, and
/// [`not_results`] where it decodes as none.
pub open spec fn classified(j: Json, hint: Option<Method>) -> Result<ResultsView, ErrorView> {
    match first_decoded(j, candidates(hint)) {
        Some(results) => Ok(results),
        None => Err(not_results()),
    }
}

impl Shape {
    /// The shape that a request for `method` should be answered with.
    pub fn preferred(method: Method) -> (r: Shape)
        ensures
            r == preferred(method),
    {
        match method {
            Method::GetData => Shape::Data,
            Method::GetDataSetList => Shape::Datasets,
            Method::GetParameterList => Shape::Parameters,
            Method::GetParameterValues => Shape::ParameterValues,
            Method::GetParameterValuesFiltered => Shape::ParameterValues,
        }
    }

    /// The shapes to try for a request whose echo declares `hint`, in order.
    pub fn candidates(hint: Option<Method>) -> (r: Vec<Shape>)
        ensures
            r@ == candidates(hint),
    {
        let mut shapes: Vec<Shape> = Vec::new();
        match hint {
            Some(method) => {
                shapes.push(Shape::preferred(method));
            },
            None => {},
        }
        shapes.push(Shape::Datasets);
        shapes.push(Shape::Parameters);
        shapes.push(Shape::ParameterValues);
        shapes.push(Shape::Data);
        shapes.push(Shape::ApiError);
        assert(shapes@ =~= candidates(hint));
        shapes
    }
}

impl Results {
    /// The catalog of datasets, where the results are one.
    pub fn into_datasets(&self) -> (r: Option<Datasets>)
        ensures
            match self@ {
                ResultsView::Datasets(d) => r matches Some(x) && x@ == d,
                _ => r is None,
            },
    {
        match self {
            Results::Datasets(d) => Some(d.clone()),
            _ => None,
        }
    }

    /// The catalog of parameters, where the results are one.
    pub fn into_parameters(&self) -> (r: Option<Parameters>)
        ensures
            match self@ {
                ResultsView::Parameters(p) => r matches Some(x) && x@ == p,
                _ => r is None,
            },
    {
        match self {
            Results::Parameters(p) => Some(p.clone()),
            _ => None,
        }
    }

    /// The table of parameter values, where the results are one.
    pub fn into_parameter_values(&self) -> (r: Option<ParameterValues>)
        ensures
            match self@ {
                ResultsView::ParameterValues(p) => r matches Some(x) && x@ == p,
                _ => r is None,
            },
    {
        match self {
            Results::ParameterValues(p) => Some(p.clone()),
            _ => None,
        }
    }

    /// The shape of these results.
    pub fn shape(&self) -> (r: Shape)
        ensures
            r == shape_of(self@),
    {
        match self {
            Results::ApiError(_) => Shape::ApiError,
            Results::Data(_) => Shape::Data,
            Results::Datasets(_) => Shape::Datasets,
            Results::Parameters(_) => Shape::Parameters,
            Results::ParameterValues(_) => Shape::ParameterValues,
        }
    }

    /// Decodes `value` as results of the shape `shape`.
    pub fn read_as(shape: Shape, value: &serde_json::Value) -> (r: Result<Self, BeaErr>)
        ensures
            outcome(r) == decoded_as(shape, value_json(*value)),
    {
        match shape {
            Shape::Datasets => match Datasets::try_from(value) {
                Ok(d) => Ok(Results::from(d)),
                Err(e) => Err(e),
            },
            Shape::Parameters => match Parameters::try_from(value) {
                Ok(p) => Ok(Results::from(p)),
                Err(e) => Err(e),
            },
            Shape::ParameterValues => match ParameterValues::try_from(value) {
                Ok(p) => Ok(Results::from(p)),
                Err(e) => Err(e),
            },
            Shape::Data => match NipaData::try_from(value) {
                Ok(d) => Ok(Results::from(Data::from(d))),
                Err(e) => Err(e),
            },
            Shape::ApiError => match ApiError::try_from(value) {
                Ok(e) => Ok(Results::from(e)),
                Err(e) => Err(e),
            },
        }
    }

    /// Classifies and decodes the results of a response. The shape that the
    /// request's operation prefers is tried first, then every shape in the
    /// fixed order; the first that decodes is returned and no later one is
    /// tried. A value that decodes as none is refused with `KeyMissing`.
    pub fn read_json(value: &serde_json::Value, request: &RequestParameters) -> (r: Result<
        Self,
        BeaErr,
    >)
        ensures
            outcome(r) == classified(value_json(*value), method_of(request@)),
            r matches Err(e) ==> e@ == not_results(),
    {
        let shapes = Shape::candidates(request.method());
        let ghost j = value_json(*value);
        let mut i: usize = 0;
        assert(shapes@.skip(0) =~= shapes@);
        while i < shapes.len()
            invariant
                i <= shapes.len(),
                j == value_json(*value),
                shapes@ == candidates(method_of(request@)),
                first_decoded(j, shapes@) == first_decoded(j, shapes@.skip(i as int)),
            decreases shapes.len() - i,
        {
            assert(shapes@.skip(i as int)[0] == shapes@[i as int]);
            assert(shapes@.skip(i as int).drop_first() =~= shapes@.skip(i + 1));
            match Results::read_as(shapes[i], value) {
                Ok(results) => {
                    return Ok(results);
                },
                Err(_) => {},
            }
            i += 1;
        }
        Err(BeaErr::KeyMissing { key: "Not results table".to_owned(), origin: Origin::Results })
    }
}

/// The inside of the envelope: the echo of the request and the results.
#[derive(Debug, PartialEq, Eq, PartialOrd)]
pub struct Beaapi {
    request: RequestParameters,
    results: Results,
}

/// The mathematical value of a [`Beaapi`].
pub struct BeaapiView {
    pub request: Seq<RequestParameterView>,
    pub results: ResultsView,
}

impl View for Beaapi {
    type V = BeaapiView;

    closed spec fn view(&self) -> BeaapiView {
        BeaapiView { request: self.request@, results: self.results@ }
    }
}

impl Clone for Beaapi {
    fn clone(&self) -> (r: Self)
        ensures
            r@ == self@,
    {
        Beaapi { request: self.request.clone(), results: self.results.clone() }
    }
}

/// What the entries of the inner object hold: the key `Request` holds the
/// echo, and the key `Results` holds results, which are classified with the
/// operation that the echo declares. The echo is read before `Results` is
/// looked for.
pub open spec fn beaapi_of_entries(m: Map<Seq<char>, Json>) -> Result<BeaapiView, ErrorView> {
    match member_of(m, "Request"@, Origin::Beaapi) {
        Err(e) => Err(e),
        Ok(echo) => match request_parameters_of(echo) {
            Err(e) => Err(e),
            Ok(request) => match member_of(m, "Results"@, Origin::Beaapi) {
                Err(e) => Err(e),
                Ok(found) => match classified(found, method_of(request)) {
                    Err(e) => Err(e),
                    Ok(results) => Ok(BeaapiView { request, results }),
                },
            },
        },
    }
}

/// What a value holds where it is the inside of an envelope.
pub open spec fn beaapi_of(j: Json) -> Result<BeaapiView, ErrorView> {
    match object_of(j, Origin::Beaapi) {
        Err(e) => Err(e),
        Ok(m) => beaapi_of_entries(m),
    }
}

impl Beaapi {
    pub fn new(request: RequestParameters, results: Results) -> (r: Self)
        ensures
            r@ == (BeaapiView { request: request@, results: results@ }),
    {
        Beaapi { request, results }
    }

    pub fn request(&self) -> (r: &RequestParameters)
        ensures
            r@ == self@.request,
    {
        &self.request
    }

    pub fn results(&self) -> (r: &Results)
        ensures
            r@ == self@.results,
    {
        &self.results
    }

    /// Decodes the inside of an envelope from the entries of its object.
    pub fn read_json(m: &serde_json::Map<String, serde_json::Value>) -> (r: Result<Self, BeaErr>)
        ensures
            outcome(r) == beaapi_of_entries(object_entries(*m)),
    {
        let echo = member(m, "Request", Origin::Beaapi)?;
        let request = RequestParameters::try_from(echo)?;
        let found = member(m, "Results", Origin::Beaapi)?;
        let results = Results::read_json(found, &request)?;
        Ok(Beaapi { request, results })
    }
}

impl TryFrom<&serde_json::Value> for Beaapi {
    type Error = BeaErr;

    /// Decodes the inside of an envelope.
    fn try_from(value: &serde_json::Value) -> (r: Result<Self, BeaErr>)
        ensures
            outcome(r) == beaapi_of(value_json(*value)),
    {
        let m = object(value, Origin::Beaapi)?;
        Beaapi::read_json(m)
    }
}

/// The conversion follows no spec function: what it returns is stated in the
/// contract of `try_from`.
impl vstd::std_specs::convert::TryFromSpecImpl<&serde_json::Value> for Beaapi {
    open spec fn obeys_try_from_spec() -> bool {
        false
    }

    open spec fn try_from_spec(value: &serde_json::Value) -> Result<Self, BeaErr> {
        arbitrary()
    }
}

/// A decoded response: the envelope with what it holds.
#[derive(Debug, PartialEq, Eq, PartialOrd)]
pub struct BeaResponse {
    beaapi: Beaapi,
}

/// The mathematical value of a [`BeaResponse`].
pub struct BeaResponseView {
    pub beaapi: BeaapiView,
}

impl View for BeaResponse {
    type V = BeaResponseView;

    closed spec fn view(&self) -> BeaResponseView {
        BeaResponseView { beaapi: self.beaapi@ }
    }
}

impl Clone for BeaResponse {
    fn clone(&self) -> (r: Self)
        ensures
            r@ == self@,
    {
        BeaResponse { beaapi: self.beaapi.clone() }
    }
}

impl From<Beaapi> for BeaResponse {
    /// The envelope around `value`.
    fn from(value: Beaapi) -> (r: Self)
        ensures
            r@ == (BeaResponseView { beaapi: value@ }),
    {
        BeaResponse { beaapi: value }
    }
}

impl vstd::std_specs::convert::FromSpecImpl<Beaapi> for BeaResponse {
    open spec fn obeys_from_spec() -> bool {
        true
    }

    closed spec fn from_spec(value: Beaapi) -> Self {
        BeaResponse { beaapi: value }
    }
}

/// What a value holds where it is a response: an object whose key `BEAAPI`
/// holds the inside of the envelope.
pub open spec fn bea_response_of(j: Json) -> Result<BeaResponseView, ErrorView> {
    match object_of(j, Origin::BeaResponse) {
        Err(e) => Err(e),
        Ok(m) => match member_of(m, "BEAAPI"@, Origin::BeaResponse) {
            Err(e) => Err(e),
            Ok(inner) => match beaapi_of(inner) {
                Err(e) => Err(e),
                Ok(beaapi) => Ok(BeaResponseView { beaapi }),
            },
        },
    }
}

impl BeaResponse {
    pub fn new(beaapi: Beaapi) -> (r: Self)
        ensures
            r@ == (BeaResponseView { beaapi: beaapi@ }),
    {
        BeaResponse { beaapi }
    }

    pub fn beaapi(&self) -> (r: &Beaapi)
        ensures
            r@ == self@.beaapi,
    {
        &self.beaapi
    }

    pub fn request(&self) -> (r: &RequestParameters)
        ensures
            r@ == self@.beaapi.request,
    {
        self.beaapi.request()
    }

    pub fn results(&self) -> (r: &Results)
        ensures
            r@ == self@.beaapi.results,
    {
        self.beaapi.results()
    }

    /// The catalog of datasets, where the response holds one.
    pub fn datasets(&self) -> (r: Option<Datasets>)
        ensures
            match self@.beaapi.results {
                ResultsView::Datasets(d) => r matches Some(x) && x@ == d,
                _ => r is None,
            },
    {
        self.beaapi.results.into_datasets()
    }

    /// The catalog of parameters, where the response holds one.
    pub fn parameters(&self) -> (r: Option<Parameters>)
        ensures
            match self@.beaapi.results {
                ResultsView::Parameters(p) => r matches Some(x) && x@ == p,
                _ => r is None,
            },
    {
        self.beaapi.results.into_parameters()
    }

    /// The table of parameter values, where the response holds one.
    pub fn parameter_values(&self) -> (r: Option<ParameterValues>)
        ensures
            match self@.beaapi.results {
                ResultsView::ParameterValues(p) => r matches Some(x) && x@ == p,
                _ => r is None,
            },
    {
        self.beaapi.results.into_parameter_values()
    }

    /// Copies of the echo and of the results.
    pub fn into_parts(&self) -> (r: (RequestParameters, Results))
        ensures
            r.0@ == self@.beaapi.request,
            r.1@ == self@.beaapi.results,
    {
        let req = self.request().clone();
        let res = self.results().clone();
        (req, res)
    }
}

impl TryFrom<&serde_json::Value> for BeaResponse {
    type Error = BeaErr;

    /// Decodes a response.
    fn try_from(value: &serde_json::Value) -> (r: Result<Self, BeaErr>)
        ensures
            outcome(r) == bea_response_of(value_json(*value)),
    {
        let m = object(value, Origin::BeaResponse)?;
        let inner = member(m, "BEAAPI", Origin::BeaResponse)?;
        let beaapi = Beaapi::try_from(inner)?;
        Ok(BeaResponse { beaapi })
    }
}

/// The conversion follows no spec function: what it returns is stated in the
/// contract of `try_from`.
impl vstd::std_specs::convert::TryFromSpecImpl<&serde_json::Value> for BeaResponse {
    open spec fn obeys_try_from_spec() -> bool {
        false
    }

    open spec fn try_from_spec(value: &serde_json::Value) -> Result<Self, BeaErr> {
        arbitrary()
    }
}

impl Plain for ApiError {
    type Form = ApiErrorForm;

    open spec fn form_of(value: ApiErrorView) -> ApiErrorFormView {
        (value.code, value.description)
    }

    open spec fn value_of(form: ApiErrorFormView) -> Option<ApiErrorView> {
        Some(ApiErrorView { code: form.0, description: form.1 })
    }

    proof fn lemma_value_of_form(value: ApiErrorView) {
    }

    fn to_form(&self) -> (r: ApiErrorForm) {
        let form = (self.code, self.description.clone());
        assert(form.deep_view() == Self::form_of(self@));
        form
    }

    fn from_form(form: &ApiErrorForm) -> (r: Option<Self>) {
        Some(ApiError { code: form.0, description: form.1.clone() })
    }
}

impl Plain for Results {
    type Form = ResultsForm;

    open spec fn form_of(value: ResultsView) -> ResultsFormView {
        match value {
            ResultsView::ApiError(e) => (Some(ApiError::form_of(e)), None, None, None, None),
            ResultsView::Data(d) => (None, Some(Data::form_of(d)), None, None, None),
            ResultsView::Datasets(d) => (None, None, Some(Datasets::form_of(d)), None, None),
            ResultsView::Parameters(p) => (None, None, None, Some(Parameters::form_of(p)), None),
            ResultsView::ParameterValues(p) => (
                None,
                None,
                None,
                None,
                Some(ParameterValues::form_of(p)),
            ),
        }
    }

    /// A form stands for results where exactly one of its places is filled,
    /// and what fills it stands for a value.
    open spec fn value_of(form: ResultsFormView) -> Option<ResultsView> {
        match form {
            (Some(e), None, None, None, None) => match ApiError::value_of(e) {
                Some(e) => Some(ResultsView::ApiError(e)),
                None => None,
            },
            (None, Some(d), None, None, None) => match Data::value_of(d) {
                Some(d) => Some(ResultsView::Data(d)),
                None => None,
            },
            (None, None, Some(d), None, None) => match Datasets::value_of(d) {
                Some(d) => Some(ResultsView::Datasets(d)),
                None => None,
            },
            (None, None, None, Some(p), None) => match Parameters::value_of(p) {
                Some(p) => Some(ResultsView::Parameters(p)),
                None => None,
            },
            (None, None, None, None, Some(p)) => match ParameterValues::value_of(p) {
                Some(p) => Some(ResultsView::ParameterValues(p)),
                None => None,
            },
            _ => None,
        }
    }

    proof fn lemma_value_of_form(value: ResultsView) {
        match value {
            ResultsView::ApiError(e) => ApiError::lemma_value_of_form(e),
            ResultsView::Data(d) => Data::lemma_value_of_form(d),
            ResultsView::Datasets(d) => Datasets::lemma_value_of_form(d),
            ResultsView::Parameters(p) => Parameters::lemma_value_of_form(p),
            ResultsView::ParameterValues(p) => ParameterValues::lemma_value_of_form(p),
        }
    }

    fn to_form(&self) -> (r: ResultsForm) {
        let form = match self {
            Results::ApiError(e) => (Some(e.to_form()), None, None, None, None),
            Results::Data(d) => (None, Some(d.to_form()), None, None, None),
            Results::Datasets(d) => (None, None, Some(d.to_form()), None, None),
            Results::Parameters(p) => (None, None, None, Some(p.to_form()), None),
            Results::ParameterValues(p) => (None, None, None, None, Some(p.to_form())),
        };
        assert(form.deep_view() == Self::form_of(self@));
        form
    }

    fn from_form(form: &ResultsForm) -> (r: Option<Self>) {
        match (&form.0, &form.1, &form.2, &form.3, &form.4) {
            (Some(e), None, None, None, None) => match ApiError::from_form(e) {
                Some(e) => Some(Results::ApiError(e)),
                None => None,
            },
            (None, Some(d), None, None, None) => match Data::from_form(d) {
                Some(d) => Some(Results::Data(d)),
                None => None,
            },
            (None, None, Some(d), None, None) => match Datasets::from_form(d) {
                Some(d) => Some(Results::Datasets(d)),
                None => None,
            },
            (None, None, None, Some(p), None) => match Parameters::from_form(p) {
                Some(p) => Some(Results::Parameters(p)),
                None => None,
            },
            (None, None, None, None, Some(p)) => match ParameterValues::from_form(p) {
                Some(p) => Some(Results::ParameterValues(p)),
                None => None,
            },
            _ => None,
        }
    }
}

impl Plain for Beaapi {
    type Form = BeaapiForm;

    open spec fn form_of(value: BeaapiView) -> BeaapiFormView {
        (RequestParameters::form_of(value.request), Results::form_of(value.results))
    }

    open spec fn value_of(form: BeaapiFormView) -> Option<BeaapiView> {
        match RequestParameters::value_of(form.0) {
            None => None,
            Some(request) => match Results::value_of(form.1) {
                None => None,
                Some(results) => Some(BeaapiView { request, results }),
            },
        }
    }

    proof fn lemma_value_of_form(value: BeaapiView) {
        RequestParameters::lemma_value_of_form(value.request);
        Results::lemma_value_of_form(value.results);
    }

    fn to_form(&self) -> (r: BeaapiForm) {
        let form = (self.request.to_form(), self.results.to_form());
        assert(form.deep_view() == Self::form_of(self@));
        form
    }

    fn from_form(form: &BeaapiForm) -> (r: Option<Self>) {
        let request = RequestParameters::from_form(&form.0)?;
        let results = Results::from_form(&form.1)?;
        Some(Beaapi { request, results })
    }
}

impl Plain for BeaResponse {
    type Form = EnvelopeForm;

    open spec fn form_of(value: BeaResponseView) -> EnvelopeFormView {
        (FORMAT, Beaapi::form_of(value.beaapi))
    }

    /// A form stands for a response where it carries the number of the
    /// format that this crate writes, and its inside stands for a value.
    open spec fn value_of(form: EnvelopeFormView) -> Option<BeaResponseView> {
        if form.0 == FORMAT {
            match Beaapi::value_of(form.1) {
                Some(beaapi) => Some(BeaResponseView { beaapi }),
                None => None,
            }
        } else {
            None
        }
    }

    proof fn lemma_value_of_form(value: BeaResponseView) {
        Beaapi::lemma_value_of_form(value.beaapi);
    }

    fn to_form(&self) -> (r: EnvelopeForm) {
        let form = (FORMAT, self.beaapi.to_form());
        assert(form.deep_view() == Self::form_of(self@));
        form
    }

    fn from_form(form: &EnvelopeForm) -> (r: Option<Self>) {
        if form.0 == FORMAT {
            match Beaapi::from_form(&form.1) {
                Some(beaapi) => Some(BeaResponse { beaapi }),
                None => None,
            }
        } else {
            None
        }
    }
}

/// The response that a plain form stands for, or `Decode` where it stands
/// for none.
pub open spec fn restored_of(form: EnvelopeFormView) -> Result<BeaResponseView, ErrorView> {
    match BeaResponse::value_of(form) {
        Some(response) => Ok(response),
        None => Err(decode_error()),
    }
}

/// The response that bytes of the cache hold: what the plain form stands for
/// that `bincode` reads from them, or `Decode` where it reads none or the
/// form stands for no response.
pub open spec fn cached(bytes: Seq<u8>) -> Result<BeaResponseView, ErrorView> {
    match bincode_form(bytes) {
        Some(form) => restored_of(form),
        None => Err(decode_error()),
    }
}

impl BeaResponse {
    /// Rebuilds the response that a plain form stands for. A form with
    /// another number of format, with no place or more than one place of its
    /// results filled, or with a row of an unknown kind is refused.
    pub fn restored(form: &EnvelopeForm) -> (r: Result<Self, BeaErr>)
        ensures
            outcome(r) == restored_of(form.deep_view()),
    {
        match BeaResponse::from_form(form) {
            Some(response) => Ok(response),
            None => Err(
                BeaErr::Decode {
                    clue: "deserializing BeaResponse".to_owned(),
                    origin: Origin::Cache,
                },
            ),
        }
    }

    /// Turns the response into the bytes of the cache. It succeeds on every
    /// response, the bytes are not empty, and [`BeaResponse::deserialize`]
    /// reads this response from them.
    pub fn serialize(&self) -> (r: Result<Vec<u8>, BeaErr>)
        ensures
            r is Ok,
            r matches Ok(bytes) ==> bytes@ == bincode_bytes(BeaResponse::form_of(self@)),
            r matches Ok(bytes) ==> cached(bytes@) == Ok::<_, ErrorView>(self@),
            r matches Ok(bytes) ==> bytes@.len() > 0,
    {
        let form = self.to_form();
        proof {
            BeaResponse::lemma_value_of_form(self@);
        }
        encoded(to_bytes(&form))
    }

    /// Reads a response from the bytes of the cache.
    pub fn deserialize(bytes: &[u8]) -> (r: Result<Self, BeaErr>)
        ensures
            outcome(r) == cached(bytes@),
    {
        match from_bytes(bytes) {
            Ok(form) => BeaResponse::restored(&form),
            Err(_) => Err(
                BeaErr::Decode {
                    clue: "deserializing BeaResponse".to_owned(),
                    origin: Origin::Cache,
                },
            ),
        }
    }
}

} // verus!
