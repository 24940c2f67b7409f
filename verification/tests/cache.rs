use bears::cache::{encoded, EnvelopeForm, ResultsForm, FORMAT};
use bears::data::{Data, NipaData, NipaDatum};
use bears::datasets::{DatasetDetails, Datasets};
use bears::error::{BeaErr, Origin};
use bears::parameter_values::{
    NipaShowMillions, ParameterFields, ParameterValueTable, ParameterValues,
};
use bears::parameters::{Parameter, Parameters};
use bears::plain::{from_forms, to_forms, Plain};
use bears::request::{RequestParameter, RequestParameters};
use bears::results::{ApiError, BeaResponse, Beaapi, Results};

fn echo() -> RequestParameters {
    RequestParameters::new(vec![
        RequestParameter::new("METHOD".to_string(), "GETDATA".to_string()),
        RequestParameter::new("RESULTFORMAT".to_string(), "JSON".to_string()),
    ])
}

fn response(results: Results) -> BeaResponse {
    BeaResponse::new(Beaapi::new(echo(), results))
}

fn every_shape() -> Vec<Results> {
    vec![
        Results::ApiError(ApiError::new(-400, "bad \u{201c}param\u{201d}".to_string())),
        Results::Datasets(Datasets::new(vec![
            DatasetDetails::new("NIPA".to_string(), "Standard NIPA tables".to_string()),
            DatasetDetails::new("".to_string(), "".to_string()),
        ])),
        Results::Datasets(Datasets::new(vec![])),
        Results::Parameters(Parameters::new(vec![
            Parameter::new(
                "Year".to_string(),
                "integer".to_string(),
                "Year requested".to_string(),
                true,
                None,
                false,
                Some("ALL".to_string()),
            ),
            Parameter::new(
                "Frequency".to_string(),
                "string".to_string(),
                "A, Q, M".to_string(),
                false,
                Some("".to_string()),
                true,
                None,
            ),
        ])),
        Results::ParameterValues(ParameterValues::new(vec![
            ParameterValueTable::ParameterFields(ParameterFields::new(
                "A".to_string(),
                "Annual".to_string(),
            )),
            ParameterValueTable::NipaShowMillions(NipaShowMillions::new(
                "Y".to_string(),
                "Millions".to_string(),
            )),
        ])),
        Results::Data(Data::Nipa(NipaData::new(vec![
            NipaDatum::new(
                "T10101".to_string(),
                "A191RL".to_string(),
                i32::MIN,
                "Gross domestic product".to_string(),
                "2020".to_string(),
                "-2.2".to_string(),
            ),
            NipaDatum::new(
                "T10101".to_string(),
                "A191RL".to_string(),
                i32::MAX,
                "Gross domestic product".to_string(),
                "2021".to_string(),
                "5.8".to_string(),
            ),
        ]))),
    ]
}

fn decode_error() -> BeaErr {
    BeaErr::Decode { clue: "deserializing BeaResponse".to_string(), origin: Origin::Cache }
}

fn empty_results() -> ResultsForm {
    (None, None, None, None, None)
}

#[test]
fn cache_gives_back_what_was_put_in() {
    for results in every_shape() {
        let stored = response(results);
        let before = stored.clone();
        let bytes = stored.serialize().unwrap();
        assert!(!bytes.is_empty());
        assert_eq!(stored, before);
        assert_eq!(BeaResponse::deserialize(&bytes), Ok(stored.clone()), "{stored:?}");
    }
}

#[test]
fn cache_gives_back_a_decoded_response() {
    let text = r#"{"BEAAPI":{"Request":{"RequestParam":[{"ParameterName":"METHOD","ParameterValue":"GETPARAMETERVALUES"}]},"Results":{"ParamValue":[{"ShowMillionsID":"N","Description":"Units"},{"ShowMillionsID":"Y","Description":"Millions"}]}}}"#;
    let value: serde_json::Value = serde_json::from_str(text).unwrap();
    let decoded = BeaResponse::try_from(&value).unwrap();
    let bytes = decoded.serialize().unwrap();
    let restored = BeaResponse::deserialize(&bytes).unwrap();
    assert_eq!(restored, decoded);
    assert_eq!(restored.parameter_values(), decoded.parameter_values());
}

#[test]
fn equal_responses_have_equal_bytes() {
    for results in every_shape() {
        let a = response(results.clone()).serialize().unwrap();
        let b = response(results).serialize().unwrap();
        assert_eq!(a, b);
    }
    let a = response(Results::ApiError(ApiError::new(1, "e".to_string()))).serialize().unwrap();
    let b = response(Results::ApiError(ApiError::new(2, "e".to_string()))).serialize().unwrap();
    assert_ne!(a, b);
}

#[test]
fn bytes_begin_with_the_number_of_the_format() {
    let bytes = response(Results::Datasets(Datasets::new(vec![]))).serialize().unwrap();
    assert_eq!(FORMAT, 1);
    assert_eq!(&bytes[..4], &[1, 0, 0, 0]);
    let form: EnvelopeForm = bincode::deserialize(&bytes).unwrap();
    assert_eq!(form.0, 1);
    assert_eq!(form.1 .1, (None, None, Some(vec![]), None, None));
}

#[test]
fn bytes_that_hold_no_form_are_refused() {
    let bytes = response(Results::ApiError(ApiError::new(7, "seven".to_string())))
        .serialize()
        .unwrap();
    assert_eq!(BeaResponse::deserialize(&[]), Err(decode_error()));
    assert_eq!(BeaResponse::deserialize(&[1, 2, 3]), Err(decode_error()));
    assert_eq!(BeaResponse::deserialize(&bytes[..bytes.len() - 1]), Err(decode_error()));
    assert_eq!(BeaResponse::deserialize(&bytes[1..]), Err(decode_error()));
    assert_eq!(BeaResponse::deserialize(b"{\"BEAAPI\":{}}"), Err(decode_error()));
}

#[test]
fn another_number_of_format_is_refused() {
    let stored = response(Results::ApiError(ApiError::new(7, "seven".to_string())));
    let mut bytes = stored.serialize().unwrap();
    bytes[0] = 2;
    assert_eq!(BeaResponse::deserialize(&bytes), Err(decode_error()));
    bytes[0] = 1;
    assert_eq!(BeaResponse::deserialize(&bytes), Ok(stored.clone()));
    let mut form = stored.to_form();
    form.0 = 0;
    assert_eq!(BeaResponse::restored(&form), Err(decode_error()));
    assert_eq!(BeaResponse::from_form(&form), None);
}

#[test]
fn results_need_exactly_one_place_filled() {
    let request = echo().to_form();
    let none: EnvelopeForm = (FORMAT, (request.clone(), empty_results()));
    assert_eq!(BeaResponse::restored(&none), Err(decode_error()));
    let two: EnvelopeForm =
        (FORMAT, (request.clone(), (Some((1, "e".to_string())), None, Some(vec![]), None, None)));
    assert_eq!(BeaResponse::restored(&two), Err(decode_error()));
    let bytes = bincode::serialize(&two).unwrap();
    assert_eq!(BeaResponse::deserialize(&bytes), Err(decode_error()));
    let one: EnvelopeForm =
        (FORMAT, (request, (Some((1, "e".to_string())), None, None, None, None)));
    assert_eq!(
        BeaResponse::restored(&one),
        Ok(response(Results::ApiError(ApiError::new(1, "e".to_string()))))
    );
    assert_eq!(Results::from_form(&empty_results()), None);
}

#[test]
fn row_of_an_unknown_kind_is_refused() {
    let good = (1u8, "A".to_string(), "Annual".to_string());
    let bad = (2u8, "A".to_string(), "Annual".to_string());
    assert_eq!(
        ParameterValueTable::from_form(&good),
        Some(ParameterValueTable::ParameterFields(ParameterFields::new(
            "A".to_string(),
            "Annual".to_string()
        )))
    );
    assert_eq!(
        ParameterValueTable::from_form(&(0u8, "Y".to_string(), "Millions".to_string())),
        Some(ParameterValueTable::NipaShowMillions(NipaShowMillions::new(
            "Y".to_string(),
            "Millions".to_string()
        )))
    );
    assert_eq!(ParameterValueTable::from_form(&bad), None);
    assert_eq!(ParameterValues::from_form(&vec![good.clone(), bad.clone()]), None);
    assert_eq!(from_forms::<ParameterValueTable>(&vec![bad.clone(), good.clone()]), None);
    let form: EnvelopeForm =
        (FORMAT, (vec![], (None, None, None, None, Some(vec![good, bad]))));
    assert_eq!(BeaResponse::restored(&form), Err(decode_error()));
}

#[test]
fn plain_forms_hold_the_fields_in_order() {
    let dataset = DatasetDetails::new("NIPA".to_string(), "Standard".to_string());
    assert_eq!(dataset.to_form(), ("NIPA".to_string(), "Standard".to_string()));
    assert_eq!(DatasetDetails::from_form(&dataset.to_form()), Some(dataset.clone()));
    assert_eq!(
        to_forms(&vec![dataset.clone(), dataset.clone()]),
        vec![dataset.to_form(), dataset.to_form()]
    );
    assert_eq!(ApiError::new(3, "three".to_string()).to_form(), (3, "three".to_string()));
    let parameter = Parameter::new(
        "a".to_string(),
        "b".to_string(),
        "c".to_string(),
        true,
        None,
        false,
        Some("d".to_string()),
    );
    assert_eq!(
        parameter.to_form(),
        ("a".to_string(), "b".to_string(), "c".to_string(), true, None, false, Some("d".to_string()))
    );
    assert_eq!(Parameter::from_form(&parameter.to_form()), Some(parameter));
    let datum = NipaDatum::new(
        "t".to_string(),
        "s".to_string(),
        9,
        "l".to_string(),
        "p".to_string(),
        "v".to_string(),
    );
    assert_eq!(
        datum.to_form(),
        ("t".to_string(), "s".to_string(), 9, "l".to_string(), "p".to_string(), "v".to_string())
    );
    assert_eq!(NipaDatum::from_form(&datum.to_form()), Some(datum));
    let request = RequestParameter::new("METHOD".to_string(), "GETDATA".to_string());
    assert_eq!(request.to_form(), ("METHOD".to_string(), "GETDATA".to_string()));
    for results in every_shape() {
        assert_eq!(Results::from_form(&results.to_form()), Some(results.clone()));
        let envelope = response(results);
        assert_eq!(BeaResponse::from_form(&envelope.to_form()), Some(envelope.clone()));
        assert_eq!(Beaapi::from_form(&envelope.beaapi().to_form()), Some(envelope.beaapi().clone()));
    }
}

#[test]
fn encoding_follows_what_the_serializer_gave() {
    assert_eq!(encoded(Ok(vec![1, 2, 3])), Ok(vec![1, 2, 3]));
    let failure: bincode::Error = Box::new(bincode::ErrorKind::SizeLimit);
    assert_eq!(
        encoded(Err(failure)),
        Err(BeaErr::Encode { clue: "serializing BeaResponse".to_string(), origin: Origin::Cache })
    );
}

#[test]
fn bytes_after_the_form_are_not_read() {
    let stored = response(Results::Datasets(Datasets::new(vec![])));
    let mut bytes = stored.serialize().unwrap();
    bytes.extend_from_slice(&[0, 1, 2]);
    assert_eq!(BeaResponse::deserialize(&bytes), Ok(stored));
}

#[test]
fn responses_are_ordered_field_by_field() {
    let a = response(Results::ApiError(ApiError::new(1, "e".to_string())));
    let b = response(Results::ApiError(ApiError::new(2, "a".to_string())));
    assert!(a < b);
    assert!(a <= a.clone());
    let small = Results::Datasets(Datasets::new(vec![]));
    let large = Results::Datasets(Datasets::new(vec![DatasetDetails::new(
        "NIPA".to_string(),
        "d".to_string(),
    )]));
    assert!(small < large);
    assert!(Results::ApiError(ApiError::new(9, "z".to_string())) < small);
    assert!(
        DatasetDetails::new("a".to_string(), "z".to_string())
            < DatasetDetails::new("b".to_string(), "a".to_string())
    );
}
