//! Request URLs for the Octopus Energy API.
//!
//! The URL strings are built and pinned down here; parsing them into a
//! transport URL is the one outside call, and the only thing left to the
//! HTTP layer is to send the request.

use vstd::prelude::*;
use vstd::string::StringExecFns;

use crate::api::{
    grouping_label, meter_type_path, meter_type_tariffs_path, ApiError, Grouping, MeterType,
};
use crate::numeral::{decimal_digits, format_u64};

verus! {

#[verifier::external_type_specification]
#[verifier::external_body]
pub struct ExUrl(url::Url);

#[verifier::external_type_specification]
#[verifier::external_body]
pub struct ExUrlParseError(url::ParseError);

/// Whether url::Url::parse accepts a string as an absolute URL. The
/// parser's outcome depends on the string alone.
pub uninterp spec fn url_parses(input: Seq<char>) -> bool;

/// Relies on url::Url::parse: parses an absolute URL from a string, and
/// whether it succeeds depends only on the string. Nothing is assumed
/// about the parsed value.
#[verifier::external_body]
fn parse_url(input: &str) -> (r: Result<url::Url, url::ParseError>)
    ensures
        r is Ok <==> url_parses(input@),
{
    url::Url::parse(input)
}

/// Relies on url::ParseError's Display implementation for the diagnostic
/// text kept when a URL cannot be parsed.
#[verifier::external_body]
fn parse_error_text(error: &url::ParseError) -> String {
    format!("{}", error)
}

/// The account information URL for an account id.
pub open spec fn account_url_chars(account_id: Seq<char>) -> Seq<char> {
    "https://api.octopus.energy/v1/accounts/"@ + account_id + "/"@
}

/// Builds the account information URL.
pub fn account_url(account_id: &str) -> (s: String)
    ensures
        s@ == account_url_chars(account_id@),
{
    let mut s = "https://api.octopus.energy/v1/accounts/".to_owned();
    s.append(account_id);
    s.append("/");
    proof {
        assert(s@ =~= account_url_chars(account_id@));
    }
    s
}

/// The consumption query URL for a meter. Pages are numbered from 0 by the
/// caller; the wire query carries the page number plus one. A grouping, if
/// given, is named in a trailing `group_by` parameter; without one the API
/// returns raw half-hourly records.
pub open spec fn consumption_url_chars(
    meter_type: MeterType,
    mpxn: Seq<char>,
    serial: Seq<char>,
    page: u32,
    page_size: usize,
    grouping: Option<Grouping>,
) -> Seq<char> {
    "https://api.octopus.energy/v1/"@ + meter_type_path(meter_type) + "/"@ + mpxn + "/meters/"@
        + serial + "/consumption/?page="@ + decimal_digits((page + 1) as nat) + "&page_size="@
        + decimal_digits(page_size as nat) + match grouping {
        Some(g) => "&group_by="@ + grouping_label(g),
        None => Seq::empty(),
    }
}

/// Builds the consumption query URL for the meter with the given `mpxn`
/// (MPAN or MPRN: the meter point administration or reference number) and
/// serial number.
pub fn consumption_url(
    meter_type: MeterType,
    mpxn: &str,
    serial: &str,
    page: u32,
    page_size: usize,
    grouping: Option<Grouping>,
) -> (s: String)
    ensures
        s@ == consumption_url_chars(meter_type, mpxn@, serial@, page, page_size, grouping),
{
    let mut s = "https://api.octopus.energy/v1/".to_owned();
    s.append(meter_type.path_component());
    s.append("/");
    s.append(mpxn);
    s.append("/meters/");
    s.append(serial);
    s.append("/consumption/?page=");
    let page_number = format_u64(page as u64 + 1);
    s.append(page_number.as_str());
    s.append("&page_size=");
    let size = format_u64(page_size as u64);
    s.append(size.as_str());
    match grouping {
        Some(g) => {
            s.append("&group_by=");
            s.append(g.as_str());
        },
        None => {},
    }
    proof {
        assert(s@ =~= consumption_url_chars(meter_type, mpxn@, serial@, page, page_size, grouping));
    }
    s
}

/// The standard-unit-rates URL for a tariff. Pages are numbered from 0 by
/// the caller; the wire query carries the page number plus one.
pub open spec fn unit_rates_url_chars(
    product_code: Seq<char>,
    meter_type: MeterType,
    tariff_code: Seq<char>,
    page: u32,
    page_size: usize,
) -> Seq<char> {
    "https://api.octopus.energy/v1/products/"@ + product_code + "/"@ + meter_type_tariffs_path(
        meter_type,
    ) + "/"@ + tariff_code + "/standard-unit-rates/?page="@ + decimal_digits((page + 1) as nat)
        + "&page_size="@ + decimal_digits(page_size as nat)
}

/// Builds the standard-unit-rates URL for a tariff of a product.
pub fn unit_rates_url(
    product_code: &str,
    meter_type: MeterType,
    tariff_code: &str,
    page: u32,
    page_size: usize,
) -> (s: String)
    ensures
        s@ == unit_rates_url_chars(product_code@, meter_type, tariff_code@, page, page_size),
{
    let mut s = "https://api.octopus.energy/v1/products/".to_owned();
    s.append(product_code);
    s.append("/");
    s.append(meter_type.tariffs_path());
    s.append("/");
    s.append(tariff_code);
    s.append("/standard-unit-rates/?page=");
    let page_number = format_u64(page as u64 + 1);
    s.append(page_number.as_str());
    s.append("&page_size=");
    let size = format_u64(page_size as u64);
    s.append(size.as_str());
    proof {
        assert(s@ =~= unit_rates_url_chars(product_code@, meter_type, tariff_code@, page, page_size));
    }
    s
}

/// Builds and parses the account information URL; a string the URL parser
/// rejects becomes the URL-parse error.
pub fn account_request(account_id: &str) -> (r: Result<url::Url, ApiError>)
    ensures
        r is Ok <==> url_parses(account_url_chars(account_id@)),
        r matches Err(e) ==> e is UrlParseError,
{
    let url_string = account_url(account_id);
    match parse_url(url_string.as_str()) {
        Ok(u) => Ok(u),
        Err(e) => Err(ApiError::UrlParseError(parse_error_text(&e))),
    }
}

/// Builds and parses the consumption query URL; a string the URL parser
/// rejects becomes the URL-parse error.
pub fn consumption_request(
    meter_type: MeterType,
    mpxn: &str,
    serial: &str,
    page: u32,
    page_size: usize,
    grouping: Option<Grouping>,
) -> (r: Result<url::Url, ApiError>)
    ensures
        r is Ok <==> url_parses(
            consumption_url_chars(meter_type, mpxn@, serial@, page, page_size, grouping),
        ),
        r matches Err(e) ==> e is UrlParseError,
{
    let url_string = consumption_url(meter_type, mpxn, serial, page, page_size, grouping);
    match parse_url(url_string.as_str()) {
        Ok(u) => Ok(u),
        Err(e) => Err(ApiError::UrlParseError(parse_error_text(&e))),
    }
}

/// Builds and parses the standard-unit-rates URL; a string the URL parser
/// rejects becomes the URL-parse error.
pub fn unit_rates_request(
    product_code: &str,
    meter_type: MeterType,
    tariff_code: &str,
    page: u32,
    page_size: usize,
) -> (r: Result<url::Url, ApiError>)
    ensures
        r is Ok <==> url_parses(
            unit_rates_url_chars(product_code@, meter_type, tariff_code@, page, page_size),
        ),
        r matches Err(e) ==> e is UrlParseError,
{
    let url_string = unit_rates_url(product_code, meter_type, tariff_code, page, page_size);
    match parse_url(url_string.as_str()) {
        Ok(u) => Ok(u),
        Err(e) => Err(ApiError::UrlParseError(parse_error_text(&e))),
    }
}

} // verus!
