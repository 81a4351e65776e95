use fusionsolar_rs::api::response::get_device_list::GetDevicesList;
use fusionsolar_rs::api::response::get_device_real_kpi::{GetDeviceRealKpi, StringInverter};
use fusionsolar_rs::api::response::get_station_real_kpi::GetStationRealKpi;
use fusionsolar_rs::api::response::get_stations_list::GetStationsList;
use fusionsolar_rs::api::response::FailCode;
use fusionsolar_rs::api::Error;
use fusionsolar_rs::model::Quantity;
use serde_json::Value;

const GET_STATION_LIST: &str = r#"{
  "success": true,
  "failCode": 0,
  "params": { "currentTime": 1503046597854 },
  "message": null,
  "data": [
    {
      "stationCode": "StationCode",
      "stationName": "StationName",
      "stationAddr": "StationAddr",
      "capacity": 0.005,
      "buildState": "1",
      "combineType": "1",
      "aidType": 1,
      "stationLinkman": "Linkman",
      "linkmanPho": "123456"
    }
  ]
}"#;

const GET_DEV_LIST: &str = r#"{
  "success": true,
  "failCode": 0,
  "params": { "stationCodes": "StationCode", "currentTime": 1503046597854 },
  "message": null,
  "data": [
    {
      "id": 1000000012345678,
      "devName": "devName1",
      "stationCode": "StationCode",
      "esnCode": "esn1",
      "devTypeId": 1,
      "softwareVersion": "V100",
      "invType": "SUN2000",
      "longitude": null,
      "latitude": null
    },
    {
      "id": 1000000012345679,
      "devName": "devName2",
      "stationCode": "StationCode",
      "esnCode": "esn2",
      "devTypeId": 62,
      "softwareVersion": "V100",
      "invType": null,
      "longitude": null,
      "latitude": null
    }
  ]
}"#;

const GET_DEVICE_REAL_KPI: &str = r#"{
  "success": true,
  "failCode": 0,
  "params": { "devIds": "1000000012345678", "devTypeId": 1, "currentTime": 1503046597854 },
  "message": null,
  "data": [
    {
      "devId": 1000000012345678,
      "dataItemMap": {
        "inverter_state": 512,
        "temperature": 42.5,
        "active_power": 2.053,
        "mppt_power": 2.122,
        "efficiency": 98.1
      }
    }
  ]
}"#;

const GET_DEVICE_REAL_KPI_UNSUPPORTED: &str = r#"{
  "success": true,
  "failCode": 0,
  "params": { "devIds": "1000000012345679", "devTypeId": 62, "currentTime": 1503046597854 },
  "message": null,
  "data": [
    {
      "devId": 1000000012345679,
      "dataItemMap": { "run_state": 1 }
    }
  ]
}"#;

const VALID_JSON: &str = r#"{ "valid": "json", "of": ["another", "shape"] }"#;

const INVALID_JSON: &str = r#"{ "success": true, "data": [ { "devId": 1000000012345678, "#;

fn parse(text: &str) -> Value {
    serde_json::from_str(text).unwrap()
}

fn number(quantity: &Quantity) -> f64 {
    quantity.numeral.parse::<f64>().unwrap() * 10f64.powi(quantity.scale as i32)
}

#[test]
fn response_get_stations_list() {
    let output = GetStationsList::decode(&parse(GET_STATION_LIST)).unwrap();
    assert_eq!("StationCode", output.data[0].station_code);
    assert_eq!("StationName", output.data[0].station_name);
    assert_eq!(0.005, number(&output.data[0].capacity));
}

#[test]
fn response_get_dev_list() {
    let output = GetDevicesList::decode(&parse(GET_DEV_LIST)).unwrap();
    assert_eq!("devName1", output.data[0].dev_name);
    assert_eq!("devName2", output.data[1].dev_name);
}

#[test]
fn response_get_device_real_kpi() {
    let output = GetDeviceRealKpi::decode(&parse(GET_DEVICE_REAL_KPI)).unwrap();
    match output {
        GetDeviceRealKpi::StringInverter(i) => {
            assert_eq!(2.053, number(&i.data[0].data_item_map.active_power));
        }
    }
}

#[test]
#[should_panic]
fn response_get_device_real_kpi_unsupported() {
    let unsupported_type_output =
        GetDeviceRealKpi::decode(&parse(GET_DEVICE_REAL_KPI_UNSUPPORTED)).unwrap();
    match unsupported_type_output {
        GetDeviceRealKpi::StringInverter(i) => {
            assert_eq!(2.053, number(&i.data[0].data_item_map.active_power));
        }
    }
}

#[test]
#[should_panic]
fn response_get_device_real_kpi_valid_json() {
    let _valid_json_output = GetDeviceRealKpi::decode(&parse(VALID_JSON)).unwrap();
}

#[test]
#[should_panic]
fn response_get_device_real_kpi_invalid_json() {
    let _invalid_json_output = GetDeviceRealKpi::decode(&parse(INVALID_JSON)).unwrap();
}

#[test]
fn mod_get_stations_list() {
    let output = GetStationsList::decode(&parse(GET_STATION_LIST)).unwrap();
    assert_eq!("StationCode", output.data[0].station_code);
    assert_eq!("StationName", output.data[0].station_name);
    assert_eq!(0.005, number(&output.data[0].capacity));
}

#[test]
fn mod_get_dev_list() {
    let output = GetDevicesList::decode(&parse(GET_DEV_LIST)).unwrap();
    assert_eq!("devName1", output.data[0].dev_name);
    assert_eq!("devName2", output.data[1].dev_name);
}

#[test]
fn mod_get_device_real_kpi() {
    let output = StringInverter::decode(&parse(GET_DEVICE_REAL_KPI)).unwrap();
    assert_eq!(2.053, number(&output.data[0].data_item_map.active_power));
}

#[test]
#[should_panic]
fn mod_get_device_real_kpi_unsupported() {
    StringInverter::decode(&parse(GET_DEVICE_REAL_KPI_UNSUPPORTED)).unwrap();
}

#[test]
#[should_panic]
fn mod_get_device_real_kpi_valid_json() {
    StringInverter::decode(&parse(VALID_JSON)).unwrap();
}

#[test]
#[should_panic]
fn mod_get_device_real_kpi_invalid_json() {
    StringInverter::decode(&parse(INVALID_JSON)).unwrap();
}

#[test]
fn unsupported_device_type_is_reported_with_its_code() {
    let outcome = GetDeviceRealKpi::decode(&parse(GET_DEVICE_REAL_KPI_UNSUPPORTED));
    assert!(matches!(outcome, Err(Error::UnknownDeviceType(62))));
}

#[test]
fn answer_without_device_type_is_not_of_the_expected_shape() {
    let outcome = GetDeviceRealKpi::decode(&parse(VALID_JSON));
    assert!(matches!(outcome, Err(Error::UnexpectedApiResponse)));
    let negative = r#"{"params": {"devTypeId": -1}, "data": []}"#;
    assert!(matches!(
        GetDeviceRealKpi::decode(&parse(negative)),
        Err(Error::UnexpectedApiResponse)
    ));
    let fraction = r#"{"params": {"devTypeId": 1.0}, "data": []}"#;
    assert!(matches!(
        GetDeviceRealKpi::decode(&parse(fraction)),
        Err(Error::UnexpectedApiResponse)
    ));
}

#[test]
fn string_inverter_answer_of_another_shape_is_not_of_the_expected_shape() {
    let text = r#"{"params": {"devTypeId": 1}, "data": [{"devId": 7, "dataItemMap": {"temperature": 1}}]}"#;
    assert!(matches!(
        GetDeviceRealKpi::decode(&parse(text)),
        Err(Error::UnexpectedApiResponse)
    ));
    let no_data = r#"{"params": {"devTypeId": 1}}"#;
    assert!(matches!(
        GetDeviceRealKpi::decode(&parse(no_data)),
        Err(Error::UnexpectedApiResponse)
    ));
}

#[test]
fn string_inverter_answer_may_be_empty() {
    let text = r#"{"params": {"devTypeId": 1}, "data": []}"#;
    match GetDeviceRealKpi::decode(&parse(text)).unwrap() {
        GetDeviceRealKpi::StringInverter(list) => assert!(list.data.is_empty()),
    }
}

#[test]
fn string_inverter_record_is_decoded_field_by_field() {
    let output = StringInverter::decode(&parse(GET_DEVICE_REAL_KPI)).unwrap();
    assert_eq!(1, output.data.len());
    assert_eq!(1000000012345678, output.data[0].dev_id);
    assert_eq!("42.5", output.data[0].data_item_map.temperature.numeral);
    assert_eq!("2.053", output.data[0].data_item_map.active_power.numeral);
    assert_eq!("2.122", output.data[0].data_item_map.mppt_power.numeral);
    assert_eq!(0, output.data[0].data_item_map.mppt_power.scale);
}

#[test]
fn integers_are_numbers_too() {
    let text = r#"{"data": [{"devId": 7, "dataItemMap": {"temperature": -3, "active_power": 0, "mppt_power": 12}}]}"#;
    let output = StringInverter::decode(&parse(text)).unwrap();
    assert_eq!(-3.0, number(&output.data[0].data_item_map.temperature));
    assert_eq!(0.0, number(&output.data[0].data_item_map.active_power));
    assert_eq!(12.0, number(&output.data[0].data_item_map.mppt_power));
}

#[test]
fn device_listing_keeps_ids_and_types() {
    let output = GetDevicesList::decode(&parse(GET_DEV_LIST)).unwrap();
    assert_eq!(2, output.data.len());
    assert_eq!(1000000012345678, output.data[0].id);
    assert_eq!(1, output.data[0].dev_type_id.code());
    assert!(output.data[0].dev_type_id.is_supported());
    assert_eq!(62, output.data[1].dev_type_id.code());
    assert!(!output.data[1].dev_type_id.is_supported());
}

#[test]
fn device_listing_rejects_records_of_another_shape() {
    assert!(GetDevicesList::decode(&parse(r#"{"data": [{"id": 1, "devTypeId": 1}]}"#)).is_none());
    assert!(GetDevicesList::decode(
        &parse(r#"{"data": [{"devName": "a", "id": "1", "devTypeId": 1}]}"#)
    )
    .is_none());
    assert!(GetDevicesList::decode(&parse(r#"{"data": {"devName": "a"}}"#)).is_none());
    assert!(GetDevicesList::decode(&parse(r#"[1, 2]"#)).is_none());
}

#[test]
fn station_listing_rejects_records_of_another_shape() {
    assert!(GetStationsList::decode(&parse(VALID_JSON)).is_none());
    assert!(GetStationsList::decode(
        &parse(r#"{"data": [{"stationCode": "a", "stationName": "b", "capacity": "1"}]}"#)
    )
    .is_none());
    assert!(GetStationsList::decode(
        &parse(r#"{"data": [{"stationCode": "a", "stationName": "b", "capacity": 1}, 5]}"#)
    )
    .is_none());
}

#[test]
fn station_key_figures_are_decoded() {
    let text = r#"{"success": true, "data": [
        {"stationCode": "S1", "dataItemMap": {"day_power": 17.25, "month_power": 120.0}},
        {"stationCode": "S2", "dataItemMap": {"day_power": 3}}
    ]}"#;
    let output = GetStationRealKpi::decode(&parse(text)).unwrap();
    assert_eq!(2, output.data.len());
    assert_eq!("S1", output.data[0].station_code);
    assert_eq!(17.25, number(&output.data[0].data_item_map.day_power));
    assert_eq!("S2", output.data[1].station_code);
    assert_eq!(3.0, number(&output.data[1].data_item_map.day_power));
    assert!(GetStationRealKpi::decode(
        &parse(r#"{"data": [{"stationCode": "S1", "dataItemMap": {}}]}"#)
    )
    .is_none());
}

#[test]
fn fail_code_407_is_known() {
    assert_eq!(Some(FailCode::AccessFrequencyIsTooHigh), FailCode::from_u64(407));
    assert_eq!(None, FailCode::from_u64(406));
    assert_eq!(None, FailCode::from_u64(0));
}
