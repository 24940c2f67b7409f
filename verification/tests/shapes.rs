use bears::data::{NipaData, NipaDatum};
use bears::datasets::{DatasetDetails, Datasets};
use bears::error::{BeaErr, Origin};
use bears::parameter_values::{
    NipaShowMillions, ParameterFields, ParameterValueTable, ParameterValues,
};
use bears::parameters::{Parameter, Parameters};
use bears::request::{RequestParameter, RequestParameters};
use bears::results::ApiError;
use bears::rows::{rows, Row};

fn value(text: &str) -> serde_json::Value {
    serde_json::from_str(text).unwrap()
}

fn missing(key: &str, origin: Origin) -> BeaErr {
    BeaErr::KeyMissing { key: key.to_string(), origin }
}

fn not_string(key: &str, origin: Origin) -> BeaErr {
    BeaErr::NotString { key: key.to_string(), origin }
}

#[test]
fn api_error_is_decoded() {
    let v = value(r#"{"Error":{"APIErrorCode":"-3","APIErrorDescription":"bad param","x":1}}"#);
    assert_eq!(ApiError::try_from(&v), Ok(ApiError::new(-3, "bad param".to_string())));
    assert_eq!(
        ApiError::read_json(v.as_object().unwrap()),
        Ok(ApiError::new(-3, "bad param".to_string()))
    );
    assert_eq!(ApiError::default(), ApiError::new(0, String::new()));
}

#[test]
fn api_error_names_what_is_wrong() {
    let o = Origin::ApiError;
    for (text, expected) in [
        ("[]", BeaErr::NotObject { origin: o }),
        ("{}", missing("Error", o)),
        (r#"{"Error":"x"}"#, BeaErr::NotObject { origin: o }),
        (r#"{"Error":[]}"#, BeaErr::NotObject { origin: o }),
        (r#"{"Error":{}}"#, missing("APIErrorDescription", o)),
        (r#"{"Error":{"APIErrorDescription":1}}"#, missing("APIErrorCode", o)),
        (r#"{"Error":{"APIErrorCode":"1"}}"#, missing("APIErrorDescription", o)),
        (
            r#"{"Error":{"APIErrorCode":1,"APIErrorDescription":2}}"#,
            not_string("APIErrorDescription", o),
        ),
        (
            r#"{"Error":{"APIErrorCode":1,"APIErrorDescription":"d"}}"#,
            not_string("APIErrorCode", o),
        ),
        (
            r#"{"Error":{"APIErrorCode":"four","APIErrorDescription":"d"}}"#,
            BeaErr::ParseInt { raw: "four".to_string(), origin: o },
        ),
    ] {
        assert_eq!(ApiError::try_from(&value(text)), Err(expected), "{text}");
    }
}

#[test]
fn datasets_are_decoded_in_order() {
    let v = value(
        r#"{"Dataset":[{"DatasetName":"NIPA","DatasetDescription":"a"},{"DatasetName":"ITA","DatasetDescription":"b"},{"DatasetName":"NIPA","DatasetDescription":"c"}]}"#,
    );
    let datasets = Datasets::try_from(&v).unwrap();
    assert_eq!(datasets.dataset().len(), 3);
    assert_eq!(datasets.dataset()[1].dataset_name(), "ITA");
    assert_eq!(datasets.dataset()[2].dataset_description(), "c");
    assert_eq!(
        datasets,
        Datasets::new(vec![
            DatasetDetails::new("NIPA".to_string(), "a".to_string()),
            DatasetDetails::new("ITA".to_string(), "b".to_string()),
            DatasetDetails::new("NIPA".to_string(), "c".to_string()),
        ])
    );
    assert_eq!(Datasets::try_from(&value(r#"{"Dataset":[]}"#)), Ok(Datasets::new(vec![])));
}

#[test]
fn datasets_name_what_is_wrong() {
    let o = Origin::Datasets;
    for (text, expected) in [
        ("3", BeaErr::NotObject { origin: o }),
        ("{}", missing("Dataset", o)),
        (r#"{"Dataset":{}}"#, BeaErr::NotArray { origin: o }),
        (r#"{"Dataset":"x"}"#, BeaErr::NotArray { origin: o }),
        (r#"{"Dataset":[1]}"#, BeaErr::NotObject { origin: o }),
        (r#"{"Dataset":[[]]}"#, BeaErr::NotObject { origin: o }),
        (r#"{"Dataset":[{}]}"#, missing("DatasetName", o)),
        (r#"{"Dataset":[{"DatasetName":1}]}"#, missing("DatasetDescription", o)),
        (
            r#"{"Dataset":[{"DatasetName":1,"DatasetDescription":2}]}"#,
            not_string("DatasetName", o),
        ),
        (
            r#"{"Dataset":[{"DatasetName":"n","DatasetDescription":2}]}"#,
            not_string("DatasetDescription", o),
        ),
    ] {
        assert_eq!(Datasets::try_from(&value(text)), Err(expected), "{text}");
    }
}

#[test]
fn first_bad_row_decides_the_error() {
    let v = value(
        r#"[{"DatasetName":"a","DatasetDescription":"b"},{"DatasetName":"a"},7,{"DatasetDescription":"b"}]"#,
    );
    assert_eq!(
        rows::<DatasetDetails>(v.as_array().unwrap()),
        Err(missing("DatasetDescription", Origin::Datasets))
    );
    let v = value(r#"[{"DatasetName":"a","DatasetDescription":"b"},7,{"DatasetName":"a"}]"#);
    assert_eq!(
        rows::<DatasetDetails>(v.as_array().unwrap()),
        Err(BeaErr::NotObject { origin: Origin::Datasets })
    );
    let v = value(r#"[{"DatasetName":"a","DatasetDescription":"b"}]"#);
    assert_eq!(
        rows::<DatasetDetails>(v.as_array().unwrap()),
        Ok(vec![DatasetDetails::new("a".to_string(), "b".to_string())])
    );
    assert_eq!(
        DatasetDetails::read(&v.as_array().unwrap()[0]),
        Ok(DatasetDetails::new("a".to_string(), "b".to_string()))
    );
}

const PARAMETER: &str = r#"{"ParameterName":"Year","ParameterDataType":"integer","ParameterDescription":"Year requested","ParameterIsRequiredFlag":"1","ParameterDefaultValue":"X","MultipleAcceptedFlag":"0","AllValue":"ALL"}"#;

fn without(text: &str, key: &str) -> serde_json::Value {
    let mut v = value(text);
    v.as_object_mut().unwrap().remove(key).unwrap();
    v
}

fn with(text: &str, key: &str, replacement: &str) -> serde_json::Value {
    let mut v = value(text);
    v.as_object_mut().unwrap().insert(key.to_string(), value(replacement)).unwrap();
    v
}

#[test]
fn parameter_is_decoded() {
    let parameter = Parameter::read(&value(PARAMETER)).unwrap();
    assert_eq!(parameter.parameter_name(), "Year");
    assert_eq!(parameter.parameter_data_type(), "integer");
    assert_eq!(parameter.parameter_description(), "Year requested");
    assert_eq!(*parameter.parameter_is_required_flag(), true);
    assert_eq!(parameter.parameter_default_value(), &Some("X".to_string()));
    assert_eq!(*parameter.multiple_accepted_flag(), false);
    assert_eq!(parameter.all_value(), &Some("ALL".to_string()));
    let table = value(&format!(r#"{{"Parameter":[{PARAMETER},{PARAMETER}]}}"#));
    assert_eq!(
        Parameters::try_from(&table),
        Ok(Parameters::new(vec![parameter.clone(), parameter.clone()]))
    );
    assert_eq!(Parameters::try_from(&table).unwrap().parameter().len(), 2);
}

#[test]
fn parameter_may_leave_out_its_default_and_all_value() {
    let v = without(PARAMETER, "ParameterDefaultValue");
    let parameter = Parameter::read(&v).unwrap();
    assert_eq!(parameter.parameter_default_value(), &None);
    assert_eq!(parameter.all_value(), &Some("ALL".to_string()));
    let v = without(PARAMETER, "AllValue");
    let parameter = Parameter::read(&v).unwrap();
    assert_eq!(parameter.parameter_default_value(), &Some("X".to_string()));
    assert_eq!(parameter.all_value(), &None);
}

#[test]
fn parameter_looks_for_all_keys_before_it_reads_a_value() {
    let o = Origin::Parameters;
    let required = [
        "ParameterName",
        "ParameterDataType",
        "ParameterDescription",
        "ParameterIsRequiredFlag",
        "MultipleAcceptedFlag",
    ];
    for key in required {
        assert_eq!(Parameter::read(&without(PARAMETER, key)), Err(missing(key, o)), "{key}");
        assert_eq!(Parameter::read(&with(PARAMETER, key, "1")), Err(not_string(key, o)), "{key}");
    }
    let mut v = with(PARAMETER, "ParameterName", "1");
    v.as_object_mut().unwrap().remove("MultipleAcceptedFlag").unwrap();
    assert_eq!(Parameter::read(&v), Err(missing("MultipleAcceptedFlag", o)));
    let mut v = with(PARAMETER, "ParameterName", "1");
    v.as_object_mut().unwrap().insert("ParameterDataType".to_string(), value("2"));
    assert_eq!(Parameter::read(&v), Err(not_string("ParameterName", o)));
    for key in ["ParameterDefaultValue", "AllValue"] {
        assert_eq!(
            Parameter::read(&with(PARAMETER, key, "null")),
            Err(not_string(key, o)),
            "{key}"
        );
    }
    assert_eq!(Parameter::read(&value("[]")), Err(BeaErr::NotObject { origin: o }));
}

#[test]
fn parameter_flags_are_one_and_zero() {
    let refused = |code: &str| BeaErr::VariantMissing {
        clue: "value of '1' or '0' expected".to_string(),
        input: code.to_string(),
        expected: vec!["1".to_string(), "0".to_string()],
        origin: Origin::Parameters,
    };
    let v = with(PARAMETER, "ParameterIsRequiredFlag", "\"0\"");
    assert_eq!(*Parameter::read(&v).unwrap().parameter_is_required_flag(), false);
    let v = with(PARAMETER, "MultipleAcceptedFlag", "\"1\"");
    assert_eq!(*Parameter::read(&v).unwrap().multiple_accepted_flag(), true);
    let v = with(PARAMETER, "ParameterIsRequiredFlag", "\"Y\"");
    assert_eq!(Parameter::read(&v), Err(refused("Y")));
    let v = with(PARAMETER, "MultipleAcceptedFlag", "\"\"");
    assert_eq!(Parameter::read(&v), Err(refused("")));
    let mut v = with(PARAMETER, "ParameterIsRequiredFlag", "\"a\"");
    v.as_object_mut().unwrap().insert("MultipleAcceptedFlag".to_string(), value("\"b\""));
    assert_eq!(Parameter::read(&v), Err(refused("a")));
    let mut v = with(PARAMETER, "ParameterIsRequiredFlag", "\"a\"");
    v.as_object_mut().unwrap().insert("AllValue".to_string(), value("3"));
    assert_eq!(Parameter::read(&v), Err(not_string("AllValue", Origin::Parameters)));
}

#[test]
fn parameters_name_what_is_wrong() {
    let o = Origin::Parameters;
    for (text, expected) in [
        ("\"x\"", BeaErr::NotObject { origin: o }),
        ("{}", missing("Parameter", o)),
        (r#"{"Parameter":{}}"#, BeaErr::NotArray { origin: o }),
        (r#"{"Parameter":[null]}"#, BeaErr::NotObject { origin: o }),
        (r#"{"Parameter":[{"ParameterName":"Frequency","...":"..."}]}"#, missing("ParameterDataType", o)),
    ] {
        assert_eq!(Parameters::try_from(&value(text)), Err(expected), "{text}");
    }
}

#[test]
fn parameter_values_tell_their_rows_apart() {
    let v = value(
        r#"{"ParamValue":[{"Key":"A","Desc":"Annual"},{"ShowMillionsID":"Y","Description":"Millions","Key":"k","Desc":"d"},{"Desc":"Quarterly","Key":"Q"}]}"#,
    );
    let values = ParameterValues::try_from(&v).unwrap();
    assert_eq!(
        values,
        ParameterValues::new(vec![
            ParameterValueTable::ParameterFields(ParameterFields::new(
                "A".to_string(),
                "Annual".to_string()
            )),
            ParameterValueTable::NipaShowMillions(NipaShowMillions::new(
                "Y".to_string(),
                "Millions".to_string()
            )),
            ParameterValueTable::ParameterFields(ParameterFields::new(
                "Q".to_string(),
                "Quarterly".to_string()
            )),
        ])
    );
    assert_eq!(values.param_value().len(), 3);
    match &values.param_value()[1] {
        ParameterValueTable::NipaShowMillions(row) => {
            assert_eq!(row.show_millions_id(), "Y");
            assert_eq!(row.description(), "Millions");
        }
        other => panic!("unexpected row {other:?}"),
    }
    match &values.param_value()[2] {
        ParameterValueTable::ParameterFields(row) => {
            assert_eq!(row.key(), "Q");
            assert_eq!(row.desc(), "Quarterly");
        }
        other => panic!("unexpected row {other:?}"),
    }
}

#[test]
fn parameter_values_name_what_is_wrong() {
    let o = Origin::ParameterValues;
    for (text, expected) in [
        ("null", BeaErr::NotObject { origin: o }),
        ("{}", missing("ParamValue", o)),
        (r#"{"ParamValue":1}"#, BeaErr::NotArray { origin: o }),
        (r#"{"ParamValue":["A"]}"#, BeaErr::NotObject { origin: o }),
        (r#"{"ParamValue":[{}]}"#, missing("Key", o)),
        (r#"{"ParamValue":[{"Key":"A"}]}"#, missing("Desc", o)),
        (r#"{"ParamValue":[{"Key":1,"Desc":"d"}]}"#, not_string("Key", o)),
        (r#"{"ParamValue":[{"Key":"A","Desc":[]}]}"#, not_string("Desc", o)),
        (r#"{"ParamValue":[{"ShowMillionsID":"Y","Key":"A","Desc":"d"}]}"#, missing("Description", o)),
        (r#"{"ParamValue":[{"ShowMillionsID":1,"Description":"d"}]}"#, not_string("ShowMillionsID", o)),
        (r#"{"ParamValue":[{"ShowMillionsID":null,"Description":2}]}"#, not_string("ShowMillionsID", o)),
    ] {
        assert_eq!(ParameterValues::try_from(&value(text)), Err(expected), "{text}");
    }
    let v = value(r#"{"Key":"A","Desc":"Annual"}"#);
    assert_eq!(
        ParameterFields::read_json(v.as_object().unwrap()),
        Ok(ParameterFields::new("A".to_string(), "Annual".to_string()))
    );
    assert_eq!(
        NipaShowMillions::read_json(v.as_object().unwrap()),
        Err(missing("ShowMillionsID", o))
    );
}

const DATUM: &str = r#"{"TableName":"T10101","SeriesCode":"A191RL","LineNumber":"12","LineDescription":"Gross domestic product","TimePeriod":"2020Q1","METRIC_NAME":"Fisher Quantity Index","DataValue":"-2.2","NoteRef":"T10101"}"#;

#[test]
fn observations_are_decoded() {
    let datum = NipaDatum::read(&value(DATUM)).unwrap();
    assert_eq!(datum.table_name(), "T10101");
    assert_eq!(datum.series_code(), "A191RL");
    assert_eq!(*datum.line_number(), 12);
    assert_eq!(datum.line_description(), "Gross domestic product");
    assert_eq!(datum.time_period(), "2020Q1");
    assert_eq!(datum.data_value(), "-2.2");
    let table = value(&format!(r#"{{"Notes":[],"Data":[{DATUM}]}}"#));
    let data = NipaData::try_from(&table).unwrap();
    assert_eq!(data, NipaData::new(vec![datum.clone()]));
    assert_eq!(data.data()[0], datum);
    assert_eq!(
        NipaDatum::read_json(value(DATUM).as_object().unwrap()),
        Ok(NipaDatum::new(
            "T10101".to_string(),
            "A191RL".to_string(),
            12,
            "Gross domestic product".to_string(),
            "2020Q1".to_string(),
            "-2.2".to_string()
        ))
    );
}

#[test]
fn observations_name_what_is_wrong() {
    let o = Origin::Data;
    let keys =
        ["TableName", "SeriesCode", "LineNumber", "LineDescription", "TimePeriod", "DataValue"];
    for key in keys {
        assert_eq!(NipaDatum::read(&without(DATUM, key)), Err(missing(key, o)), "{key}");
        assert_eq!(NipaDatum::read(&with(DATUM, key, "12")), Err(not_string(key, o)), "{key}");
    }
    assert_eq!(
        NipaDatum::read(&with(DATUM, "LineNumber", "\"1.5\"")),
        Err(BeaErr::ParseInt { raw: "1.5".to_string(), origin: o })
    );
    let mut v = with(DATUM, "LineNumber", "\"one\"");
    v.as_object_mut().unwrap().insert("DataValue".to_string(), value("3"));
    assert_eq!(NipaDatum::read(&v), Err(not_string("DataValue", o)));
    let mut v = with(DATUM, "LineNumber", "\"one\"");
    v.as_object_mut().unwrap().remove("DataValue").unwrap();
    assert_eq!(NipaDatum::read(&v), Err(missing("DataValue", o)));
    for (text, expected) in [
        ("1", BeaErr::NotObject { origin: o }),
        ("{}", missing("Data", o)),
        (r#"{"Data":{}}"#, BeaErr::NotArray { origin: o }),
        (r#"{"Data":[[]]}"#, BeaErr::NotObject { origin: o }),
    ] {
        assert_eq!(NipaData::try_from(&value(text)), Err(expected), "{text}");
    }
}

#[test]
fn echo_is_decoded() {
    let v = value(
        r#"{"RequestParam":[{"ParameterName":"METHOD","ParameterValue":"GETDATA"},{"ParameterValue":"JSON","ParameterName":"RESULTFORMAT"}]}"#,
    );
    let echo = RequestParameters::try_from(&v).unwrap();
    assert_eq!(echo.request_param().len(), 2);
    assert_eq!(echo.request_param()[1].parameter_name(), "RESULTFORMAT");
    assert_eq!(echo.request_param()[1].parameter_value(), "JSON");
    assert_eq!(
        echo,
        RequestParameters::new(vec![
            RequestParameter::new("METHOD".to_string(), "GETDATA".to_string()),
            RequestParameter::new("RESULTFORMAT".to_string(), "JSON".to_string()),
        ])
    );
}

#[test]
fn echo_names_what_is_wrong() {
    let o = Origin::RequestParameters;
    for (text, expected) in [
        ("[]", BeaErr::NotObject { origin: o }),
        ("{}", missing("RequestParam", o)),
        (r#"{"RequestParam":{}}"#, BeaErr::NotArray { origin: o }),
        (r#"{"RequestParam":["METHOD"]}"#, BeaErr::NotObject { origin: o }),
        (r#"{"RequestParam":[{"ParameterValue":"v"}]}"#, missing("ParameterName", o)),
        (r#"{"RequestParam":[{"ParameterName":"n"}]}"#, missing("ParameterValue", o)),
        (
            r#"{"RequestParam":[{"ParameterName":"n","ParameterValue":1}]}"#,
            not_string("ParameterValue", o),
        ),
    ] {
        assert_eq!(RequestParameters::try_from(&value(text)), Err(expected), "{text}");
    }
}

#[test]
fn api_error_is_shown_with_code_and_description() {
    assert_eq!(
        ApiError::new(400, "bad param".to_string()).to_string(),
        "API Error - Code: 400 - Description: bad param"
    );
    assert_eq!(
        ApiError::new(-2147483648, String::new()).to_string(),
        "API Error - Code: -2147483648 - Description: "
    );
    assert_eq!(ApiError::default().to_string(), "API Error - Code: 0 - Description: ");
}
