use octopower::api::{auth_decision, rest_response, ApiError, Grouping, MeterType};
use octopower::config::{default_num_readings, InfluxDbConfig};
use octopower::consumption::Consumption;
use octopower::consumption_points::{point_for_reading, readings_to_points};
use octopower::envoy::inventory_query;
use octopower::inventory::AdminState;
use octopower::numeral::format_u64;
use octopower::point::{FieldValue, Point};
use octopower::requests::{
    account_request, account_url, consumption_request, consumption_url, unit_rates_url,
};
use octopower::values::FloatBits;

#[test]
fn format_u64_renders_decimal() {
    assert_eq!(format_u64(0), "0");
    assert_eq!(format_u64(7), "7");
    assert_eq!(format_u64(305), "305");
    assert_eq!(format_u64(1000), "1000");
    assert_eq!(format_u64(u64::MAX), "18446744073709551615");
}

#[test]
fn account_url_shape() {
    assert_eq!(
        account_url("A-1234ABCD"),
        "https://api.octopus.energy/v1/accounts/A-1234ABCD/"
    );
}

#[test]
fn consumption_url_first_page() {
    assert_eq!(
        consumption_url(MeterType::Electricity, "1234567890123", "SER123", 0, 1000, None),
        "https://api.octopus.energy/v1/electricity-meter-points/1234567890123/meters/SER123/consumption/?page=1&page_size=1000"
    );
}

#[test]
fn consumption_url_gas_with_grouping() {
    assert_eq!(
        consumption_url(MeterType::Gas, "987", "G1", 4, 25, Some(Grouping::Day)),
        "https://api.octopus.energy/v1/gas-meter-points/987/meters/G1/consumption/?page=5&page_size=25&group_by=day"
    );
}

#[test]
fn unit_rates_url_shape() {
    assert_eq!(
        unit_rates_url("AGILE-24-10-01", MeterType::Electricity, "E-1R-AGILE-24-10-01-C", 0, 100),
        "https://api.octopus.energy/v1/products/AGILE-24-10-01/electricity-tariffs/E-1R-AGILE-24-10-01-C/standard-unit-rates/?page=1&page_size=100"
    );
}

#[test]
fn requests_parse_to_urls() {
    let url = consumption_request(MeterType::Electricity, "123", "S1", 0, 10, Some(Grouping::Hour))
        .unwrap();
    assert_eq!(
        url.as_str(),
        "https://api.octopus.energy/v1/electricity-meter-points/123/meters/S1/consumption/?page=1&page_size=10&group_by=hour"
    );
    let url = account_request("A-1").unwrap();
    assert_eq!(url.as_str(), "https://api.octopus.energy/v1/accounts/A-1/");
}

#[test]
fn meter_type_paths_and_labels() {
    assert_eq!(MeterType::Electricity.path_component(), "electricity-meter-points");
    assert_eq!(MeterType::Gas.path_component(), "gas-meter-points");
    assert_eq!(MeterType::Electricity.tariffs_path(), "electricity-tariffs");
    assert_eq!(MeterType::Gas.tariffs_path(), "gas-tariffs");
    assert_eq!(MeterType::Electricity.as_str(), "electricity");
    assert_eq!(MeterType::Gas.as_str(), "gas");
}

#[test]
fn grouping_labels() {
    assert_eq!(Grouping::Hour.as_str(), "hour");
    assert_eq!(Grouping::Day.as_str(), "day");
    assert_eq!(Grouping::Week.as_str(), "week");
    assert_eq!(Grouping::Month.as_str(), "month");
    assert_eq!(Grouping::Quarter.as_str(), "quarter");
}

#[test]
fn rest_response_success_hands_body_on() {
    assert_eq!(rest_response(200, "{}".to_string()), Ok("{}".to_string()));
    assert_eq!(rest_response(299, "x".to_string()), Ok("x".to_string()));
}

#[test]
fn rest_response_error_keeps_status_and_body() {
    assert_eq!(
        rest_response(404, "missing".to_string()),
        Err(ApiError::RestError { status: 404, body: "missing".to_string() })
    );
    assert_eq!(
        rest_response(199, "early".to_string()),
        Err(ApiError::RestError { status: 199, body: "early".to_string() })
    );
    assert_eq!(
        rest_response(300, "redirect".to_string()),
        Err(ApiError::RestError { status: 300, body: "redirect".to_string() })
    );
}

#[test]
fn auth_decision_token_wins() {
    let r = auth_decision(Some("jwt".to_string()), None).unwrap();
    assert_eq!(r.0, "jwt");
}

#[test]
fn auth_decision_without_token_reports_errors() {
    let errors = Some(vec!["bad password".to_string()]);
    assert_eq!(
        auth_decision(None, errors.clone()),
        Err(ApiError::GraphQlErrors(errors))
    );
}

#[test]
fn point_for_reading_shape() {
    let reading = Consumption {
        consumption: FloatBits { bits: (0.42f64).to_bits() },
        interval_start: 1640988000,
        interval_end: 1640989800,
    };
    let point = point_for_reading("octopower", MeterType::Electricity, "123", "S1", reading);
    assert_eq!(
        point,
        Point::new("octopower")
            .add_timestamp(1640989800)
            .add_tag("type", "electricity")
            .add_tag("mpxn", "123")
            .add_tag("serial", "S1")
            .add_field("consumption", FieldValue::Float(FloatBits { bits: (0.42f64).to_bits() }))
    );
}

#[test]
fn readings_to_points_maps_each_record_in_order() {
    let readings = [
        Consumption {
            consumption: FloatBits { bits: (0.5f64).to_bits() },
            interval_start: 100,
            interval_end: 1900,
        },
        Consumption {
            consumption: FloatBits { bits: (0.25f64).to_bits() },
            interval_start: 1900,
            interval_end: 3700,
        },
    ];
    let points = readings_to_points("octopower", MeterType::Gas, "987", "G1", &readings);
    assert_eq!(
        points,
        vec![
            point_for_reading("octopower", MeterType::Gas, "987", "G1", readings[0]),
            point_for_reading("octopower", MeterType::Gas, "987", "G1", readings[1]),
        ]
    );
    assert_eq!(points[0].timestamp, Some(1900));
    assert_eq!(points[1].timestamp, Some(3700));
}

#[test]
fn inventory_query_switch() {
    assert_eq!(inventory_query(true), "deleted=1");
    assert_eq!(inventory_query(false), "deleted=0");
}

#[test]
fn admin_state_codes() {
    assert_eq!(AdminState::Discovered.code(), 1);
    assert_eq!(AdminState::Verified.code(), 2);
    assert_eq!(AdminState::Deleted.code(), 3);
}

#[test]
fn influxdb_config_defaults() {
    let config = InfluxDbConfig::default();
    assert_eq!(config.url, "http://localhost:8086");
    assert_eq!(config.username, None);
    assert_eq!(config.password, None);
    assert_eq!(config.database, "octopower");
    assert_eq!(config.measurement, "octopower");
}

#[test]
fn default_num_readings_is_one_thousand() {
    assert_eq!(default_num_readings(), 1000);
}
