use bears::datasets::{DatasetDetails, Datasets};
use bears::error::{BeaErr, Origin};
use bears::parameters::{Parameter, Parameters};
use bears::request::{Method, RequestParameter, RequestParameters};
use bears::results::{ApiError, BeaResponse, Beaapi, Results};

fn json(text: &str) -> serde_json::Value {
    serde_json::from_str(text).unwrap()
}

#[test]
fn parameter_list_is_classified_by_the_hint() {
    let value = json(
        r#"{"BEAAPI":{"Request":{"RequestParam":[{"ParameterName":"METHOD","ParameterValue":"GETPARAMETERLIST"}]},"Results":{"Parameter":[{"ParameterName":"Frequency","ParameterDataType":"string","ParameterDescription":"A - Annual, Q-Quarterly, M-Monthly","ParameterIsRequiredFlag":"1","ParameterDefaultValue":"","MultipleAcceptedFlag":"1","AllValue":""}]}}}"#,
    );
    let response = BeaResponse::try_from(&value).unwrap();
    assert_eq!(response.request().method(), Some(Method::GetParameterList));
    let expected = Parameters::new(vec![Parameter::new(
        "Frequency".to_string(),
        "string".to_string(),
        "A - Annual, Q-Quarterly, M-Monthly".to_string(),
        true,
        Some(String::new()),
        true,
        Some(String::new()),
    )]);
    assert_eq!(response.results(), &Results::Parameters(expected.clone()));
    assert_eq!(response.parameters(), Some(expected));
    assert_eq!(response.datasets(), None);
    assert_eq!(response.parameter_values(), None);
}

#[test]
fn reported_failure_is_classified_after_the_data_shapes() {
    let value = json(
        r#"{"BEAAPI":{"Request":{"RequestParam":[{"ParameterName":"METHOD","ParameterValue":"GETDATA"}]},"Results":{"Error":{"APIErrorCode":"400","APIErrorDescription":"bad param"}}}}"#,
    );
    let response = BeaResponse::try_from(&value).unwrap();
    assert_eq!(
        response.results(),
        &Results::ApiError(ApiError::new(400, "bad param".to_string()))
    );
    match response.results() {
        Results::ApiError(e) => {
            assert_eq!(*e.code(), 400);
            assert_eq!(e.description(), "bad param");
        }
        other => panic!("unexpected results {other:?}"),
    }
}

#[test]
fn missing_request_is_named() {
    let value = json(r#"{"BEAAPI":{"Results":{"Dataset":[]}}}"#);
    assert_eq!(
        BeaResponse::try_from(&value),
        Err(BeaErr::KeyMissing { key: "Request".to_string(), origin: Origin::Beaapi })
    );
}

#[test]
fn missing_results_is_named() {
    let value = json(r#"{"BEAAPI":{"Request":{"RequestParam":[]}}}"#);
    assert_eq!(
        BeaResponse::try_from(&value),
        Err(BeaErr::KeyMissing { key: "Results".to_string(), origin: Origin::Beaapi })
    );
}

#[test]
fn missing_wrapper_is_named() {
    let value = json(r#"{"beaapi":{}}"#);
    assert_eq!(
        BeaResponse::try_from(&value),
        Err(BeaErr::KeyMissing { key: "BEAAPI".to_string(), origin: Origin::BeaResponse })
    );
}

#[test]
fn outer_value_must_be_an_object() {
    for text in ["[]", "1", "\"BEAAPI\"", "null", "true", "[{\"BEAAPI\":{}}]"] {
        assert_eq!(
            BeaResponse::try_from(&json(text)),
            Err(BeaErr::NotObject { origin: Origin::BeaResponse }),
            "{text}"
        );
    }
}

#[test]
fn wrapper_value_must_be_an_object() {
    for text in [r#"{"BEAAPI":[]}"#, r#"{"BEAAPI":3}"#, r#"{"BEAAPI":"x"}"#] {
        assert_eq!(
            BeaResponse::try_from(&json(text)),
            Err(BeaErr::NotObject { origin: Origin::Beaapi }),
            "{text}"
        );
    }
    assert_eq!(
        Beaapi::try_from(&json("[1, 2]")),
        Err(BeaErr::NotObject { origin: Origin::Beaapi })
    );
}

#[test]
fn request_value_must_be_an_object() {
    let value = json(r#"{"BEAAPI":{"Request":[1],"Results":{"Dataset":[]}}}"#);
    assert_eq!(
        BeaResponse::try_from(&value),
        Err(BeaErr::NotObject { origin: Origin::RequestParameters })
    );
}

#[test]
fn request_is_read_before_results_is_looked_for() {
    let value = json(r#"{"BEAAPI":{"Request":{"Param":[]}}}"#);
    assert_eq!(
        BeaResponse::try_from(&value),
        Err(BeaErr::KeyMissing {
            key: "RequestParam".to_string(),
            origin: Origin::RequestParameters
        })
    );
}

#[test]
fn results_that_are_no_object_hold_no_results_table() {
    let value = json(r#"{"BEAAPI":{"Request":{"RequestParam":[]},"Results":[1,2]}}"#);
    assert_eq!(
        BeaResponse::try_from(&value),
        Err(BeaErr::KeyMissing { key: "Not results table".to_string(), origin: Origin::Results })
    );
}

#[test]
fn envelope_keeps_the_echo_in_order() {
    let value = json(
        r#"{"BEAAPI":{"Request":{"RequestParam":[{"ParameterName":"USERID","ParameterValue":"SECRET-REDACTED"},{"ParameterName":"METHOD","ParameterValue":"GETDATASETLIST"},{"ParameterName":"RESULTFORMAT","ParameterValue":"JSON"}]},"Results":{"Dataset":[{"DatasetName":"NIPA","DatasetDescription":"Standard NIPA tables"},{"DatasetName":"MNE","DatasetDescription":"Multinational Enterprises"}]}}}"#,
    );
    let response = BeaResponse::try_from(&value).unwrap();
    let request = RequestParameters::new(vec![
        RequestParameter::new("USERID".to_string(), "SECRET-REDACTED".to_string()),
        RequestParameter::new("METHOD".to_string(), "GETDATASETLIST".to_string()),
        RequestParameter::new("RESULTFORMAT".to_string(), "JSON".to_string()),
    ]);
    let datasets = Datasets::new(vec![
        DatasetDetails::new("NIPA".to_string(), "Standard NIPA tables".to_string()),
        DatasetDetails::new("MNE".to_string(), "Multinational Enterprises".to_string()),
    ]);
    assert_eq!(response.request(), &request);
    assert_eq!(response.datasets(), Some(datasets.clone()));
    let (req, res) = response.into_parts();
    assert_eq!(req, request);
    assert_eq!(res, Results::Datasets(datasets.clone()));
    assert_eq!(
        response,
        BeaResponse::from(Beaapi::new(request.clone(), Results::from(datasets)))
    );
    assert_eq!(response.beaapi().request(), &request);
    assert_eq!(response.clone(), response);
}

#[test]
fn extra_keys_are_ignored() {
    let value = json(
        r#"{"Other":1,"BEAAPI":{"Notes":[],"Request":{"Extra":true,"RequestParam":[{"ParameterName":"METHOD","ParameterValue":"GETDATASETLIST","More":null}]},"Results":{"Dataset":[{"DatasetName":"ITA","Unknown":[1,2],"DatasetDescription":"International Transactions"}],"Count":1}}}"#,
    );
    let response = BeaResponse::try_from(&value).unwrap();
    assert_eq!(
        response.datasets(),
        Some(Datasets::new(vec![DatasetDetails::new(
            "ITA".to_string(),
            "International Transactions".to_string()
        )]))
    );
}
