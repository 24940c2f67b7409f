use bears::check::datasets::{check_datasets, first_unknown, Dataset};
use bears::check::parameter_values::{
    datasets_path, json_to_bin, parameter_values_path, parsed, response_from_slice, written,
};
use bears::datasets::{DatasetDetails, Datasets};
use bears::error::{BeaErr, Origin};
use bears::request::RequestParameters;
use bears::results::{ApiError, BeaResponse, Beaapi, Results};

fn catalog(names: &[&str]) -> Datasets {
    Datasets::new(
        names.iter().map(|n| DatasetDetails::new(n.to_string(), "d".to_string())).collect(),
    )
}

fn envelope(results: Results) -> BeaResponse {
    BeaResponse::new(Beaapi::new(RequestParameters::new(vec![]), results))
}

fn read_error() -> BeaErr {
    BeaErr::SerdeJson { clue: "reading JSON".to_string(), origin: Origin::Check }
}

#[test]
fn thirteen_datasets_are_known() {
    let all = Dataset::iter();
    assert_eq!(all.len(), 13);
    assert_eq!(all[0], Dataset::ApiDatasetMetadata);
    assert_eq!(all[10], Dataset::Nipa);
    assert_eq!(all[12], Dataset::UnderlyingGdpByIndustry);
    assert_eq!(Dataset::Nipa.lower(), "nipa");
    assert_eq!(Dataset::NiUnderlyingDetail.lower(), "niunderlyingdetail");
    assert_eq!(Dataset::GdpByIndustry.lower(), "gdpbyindustry");
    for dataset in all {
        let lower = dataset.lower();
        assert_eq!(lower, lower.to_lowercase());
        assert_eq!(lower, format!("{dataset:?}").to_lowercase());
    }
}

#[test]
fn catalog_of_the_service_is_known() {
    let names = [
        "NIPA",
        "NIUnderlyingDetail",
        "MNE",
        "FixedAssets",
        "ITA",
        "IIP",
        "InputOutput",
        "IntlServTrade",
        "IntlServSTA",
        "GDPbyIndustry",
        "Regional",
        "UnderlyingGDPbyIndustry",
        "APIDatasetMetaData",
    ];
    assert_eq!(first_unknown(&catalog(&names)), None);
    assert_eq!(check_datasets(&envelope(Results::Datasets(catalog(&names)))), Ok(()));
    assert_eq!(first_unknown(&catalog(&[])), None);
}

#[test]
fn first_unknown_dataset_is_named() {
    let names = ["NIPA", "Census", "ITA", "Other"];
    assert_eq!(first_unknown(&catalog(&names)), Some("Census".to_string()));
    assert_eq!(
        check_datasets(&envelope(Results::Datasets(catalog(&names)))),
        Err(BeaErr::DatasetMissing { name: "Census".to_string(), origin: Origin::Check })
    );
    assert_eq!(first_unknown(&catalog(&["nipa "])), Some("nipa ".to_string()));
    assert_eq!(first_unknown(&catalog(&[""])), Some("".to_string()));
}

#[test]
fn response_without_a_catalog_passes_the_check() {
    let response = envelope(Results::ApiError(ApiError::new(1, "Census".to_string())));
    assert_eq!(check_datasets(&response), Ok(()));
}

#[test]
fn response_is_read_from_text() {
    let text = br#" {"BEAAPI": {"Request": {"RequestParam": []},
        "Results": {"Dataset": [{"DatasetName": "NIPA", "DatasetDescription": "d"}]}}} "#;
    assert_eq!(
        response_from_slice(text),
        Ok(envelope(Results::Datasets(catalog(&["NIPA"]))))
    );
}

#[test]
fn text_that_is_no_json_is_refused() {
    for text in ["", "{", "{\"BEAAPI\":}", "{} {}", "BEAAPI", "\u{feff}{}"] {
        assert_eq!(response_from_slice(text.as_bytes()), Err(read_error()), "{text:?}");
        assert_eq!(json_to_bin(text.as_bytes()), Err(read_error()), "{text:?}");
    }
    assert_eq!(response_from_slice(&[0xff, 0xfe]), Err(read_error()));
}

#[test]
fn json_that_is_no_response_is_refused_by_the_decoder() {
    assert_eq!(
        response_from_slice(b"[1, 2]"),
        Err(BeaErr::NotObject { origin: Origin::BeaResponse })
    );
    assert_eq!(
        response_from_slice(b"{\"BEAAPI\": {}}"),
        Err(BeaErr::KeyMissing { key: "Request".to_string(), origin: Origin::Beaapi })
    );
}

#[test]
fn json_is_stored_compactly() {
    let text = b" { \"b\" : [ 1 , 2.5, \"x\" ] ,\n \"a\" : { \"c\" : null , \"d\" : true } } ";
    assert_eq!(
        json_to_bin(text),
        Ok(b"{\"a\":{\"c\":null,\"d\":true},\"b\":[1,2.5,\"x\"]}".to_vec())
    );
    let compact = json_to_bin(text).unwrap();
    assert_eq!(json_to_bin(&compact), Ok(compact.clone()));
    assert_eq!(json_to_bin(b"\"a\""), Ok(b"\"a\"".to_vec()));
}

#[test]
fn stored_response_reads_like_its_source() {
    let text = br#"{ "BEAAPI": { "Results": { "Error": { "APIErrorDescription": "e",
        "APIErrorCode": "3" } }, "Request": { "RequestParam": [] } } }"#;
    let compact = json_to_bin(text).unwrap();
    assert_ne!(compact.as_slice(), text.as_slice());
    assert_eq!(response_from_slice(&compact), response_from_slice(text));
    assert_eq!(
        response_from_slice(&compact),
        Ok(envelope(Results::ApiError(ApiError::new(3, "e".to_string()))))
    );
}

#[test]
fn outcomes_follow_what_serde_json_gave() {
    let value: serde_json::Value = serde_json::from_str("[1]").unwrap();
    assert_eq!(parsed(Ok(value.clone())), Ok(value));
    let failure = serde_json::from_str::<serde_json::Value>("[").unwrap_err();
    assert_eq!(parsed(Err(failure)), Err(read_error()));
    assert_eq!(written(Ok(vec![7])), Ok(vec![7]));
    let failure = serde_json::from_str::<serde_json::Value>("]").unwrap_err();
    assert_eq!(
        written(Err(failure)),
        Err(BeaErr::SerdeJson { clue: "writing JSON".to_string(), origin: Origin::Check })
    );
}

#[test]
fn files_are_named_by_dataset_and_parameter() {
    assert_eq!(
        parameter_values_path("/data/parameter_values", "NIPA", "Frequency", "bin"),
        "/data/parameter_values/NIPA_Frequency_parameter_values.bin"
    );
    assert_eq!(
        parameter_values_path("base", "MNE", "Year", "json"),
        "base/MNE_Year_parameter_values.json"
    );
    assert_eq!(parameter_values_path("", "", "", ""), "/__parameter_values.");
    assert_eq!(datasets_path("/data", "json"), "/data/datasets.json");
    assert_eq!(datasets_path("", "bin"), "/datasets.bin");
}
