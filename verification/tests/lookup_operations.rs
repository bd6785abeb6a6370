use companies_house::public_operation::{
    GetCompanyProfile, GetCompanyProfileStatusError, GetCompanyRegisteredOfficeAddress,
    GetCompanyRegisteredOfficeAddressStatusError, SearchCompanies, SearchCompaniesStatus,
    SearchDisqualifiedOfficers, SearchDisqualifiedOfficersStatusError, SearchOfficers,
    SearchOfficersStatusError,
};
use companies_house::text::u64_to_decimal;
use companies_house::unexpected_status::UnexpectedStatusError;
use companies_house::unrecognised::{UnrecognisedResponse, UnrecognisedResponseBody};

#[test]
fn company_profile_path_interpolates_the_number() {
    let operation = GetCompanyProfile { company_number: "01234567".to_string() };
    assert_eq!(operation.path(), "/company/01234567");
}

#[test]
fn company_profile_status_table() {
    let operation = GetCompanyProfile { company_number: "1".to_string() };
    assert!(operation.handle_status(200).is_ok());
    assert!(matches!(
        operation.handle_status(401),
        Err(GetCompanyProfileStatusError::Unauthorized)
    ));
    assert!(matches!(operation.handle_status(404), Err(GetCompanyProfileStatusError::NotFound)));
    assert!(matches!(
        operation.handle_status(500),
        Err(GetCompanyProfileStatusError::UnexpectedStatus(UnexpectedStatusError {
            status_code: 500,
        }))
    ));
}

#[test]
fn registered_office_address_path_and_statuses() {
    let operation = GetCompanyRegisteredOfficeAddress { company_number: "99".to_string() };
    assert_eq!(operation.path(), "/company/99/registered-office-address");
    assert!(operation.handle_status(200).is_ok());
    assert!(matches!(
        operation.handle_status(401),
        Err(GetCompanyRegisteredOfficeAddressStatusError::Unauthorized)
    ));
    assert!(matches!(
        operation.handle_status(404),
        Err(GetCompanyRegisteredOfficeAddressStatusError::NotFound)
    ));
    assert!(matches!(
        operation.handle_status(418),
        Err(GetCompanyRegisteredOfficeAddressStatusError::UnexpectedStatus(
            UnexpectedStatusError { status_code: 418 },
        ))
    ));
}

#[test]
fn search_companies_params_include_only_what_is_set() {
    let bare = SearchCompanies {
        query: "acme".to_string(),
        items_per_page: None,
        start_index: None,
        restrictions: None,
    };
    assert_eq!(bare.path(), "/search/companies");
    assert_eq!(bare.query_params(), vec![("q".to_string(), "acme".to_string())]);

    let full = SearchCompanies {
        query: "acme".to_string(),
        items_per_page: Some(25),
        start_index: Some(50),
        restrictions: Some("active-companies".to_string()),
    };
    assert_eq!(
        full.query_params(),
        vec![
            ("q".to_string(), "acme".to_string()),
            ("items_per_page".to_string(), "25".to_string()),
            ("start_index".to_string(), "50".to_string()),
            ("restrictions".to_string(), "active-companies".to_string()),
        ]
    );
}

#[test]
fn search_companies_status_table() {
    let operation = SearchCompanies {
        query: "a".to_string(),
        items_per_page: None,
        start_index: None,
        restrictions: None,
    };
    assert_eq!(operation.handle_status(200), SearchCompaniesStatus::Accepted);
    assert_eq!(operation.handle_status(401), SearchCompaniesStatus::Unauthorized);
    assert_eq!(operation.handle_status(500), SearchCompaniesStatus::Unrecognised);
}

#[test]
fn search_officers_params_and_statuses() {
    let operation = SearchOfficers {
        query: "smith".to_string(),
        items_per_page: Some(10),
        start_index: None,
    };
    assert_eq!(operation.path(), "/search/officers");
    assert_eq!(
        operation.query_params(),
        vec![
            ("q".to_string(), "smith".to_string()),
            ("items_per_page".to_string(), "10".to_string()),
        ]
    );
    assert!(operation.handle_status(200).is_ok());
    assert!(matches!(
        operation.handle_status(401),
        Err(SearchOfficersStatusError::Unauthorized)
    ));
    assert!(matches!(
        operation.handle_status(502),
        Err(SearchOfficersStatusError::UnexpectedStatus(UnexpectedStatusError {
            status_code: 502,
        }))
    ));
}

#[test]
fn search_disqualified_officers_params_and_statuses() {
    let operation = SearchDisqualifiedOfficers {
        query: "jones".to_string(),
        items_per_page: None,
        start_index: Some(7),
    };
    assert_eq!(operation.path(), "/search/disqualified-officers");
    assert_eq!(
        operation.query_params(),
        vec![
            ("q".to_string(), "jones".to_string()),
            ("start_index".to_string(), "7".to_string()),
        ]
    );
    assert!(operation.handle_status(200).is_ok());
    assert!(matches!(
        operation.handle_status(401),
        Err(SearchDisqualifiedOfficersStatusError::Unauthorized)
    ));
    assert!(matches!(
        operation.handle_status(404),
        Err(SearchDisqualifiedOfficersStatusError::UnexpectedStatus(UnexpectedStatusError {
            status_code: 404,
        }))
    ));
}

#[test]
fn decimal_rendering_is_exact() {
    assert_eq!(u64_to_decimal(0), "0");
    assert_eq!(u64_to_decimal(7), "7");
    assert_eq!(u64_to_decimal(10), "10");
    assert_eq!(u64_to_decimal(105), "105");
    assert_eq!(u64_to_decimal(u64::MAX), "18446744073709551615");
}

#[test]
fn unrecognised_response_classifies_bodies() {
    let unknown = UnrecognisedResponse::from_body(500, None);
    assert_eq!(unknown.status_code, 500);
    assert!(matches!(unknown.body, UnrecognisedResponseBody::Unknown));

    let empty = UnrecognisedResponse::from_body(502, Some(String::new()));
    assert!(matches!(empty.body, UnrecognisedResponseBody::Empty));

    let json = UnrecognisedResponse::from_body(503, Some("{\"error\":\"down\"}".to_string()));
    match json.body {
        UnrecognisedResponseBody::Json(value) => {
            assert_eq!(value["error"], serde_json::Value::String("down".to_string()));
        },
        _ => panic!("expected a JSON body"),
    }

    let text = UnrecognisedResponse::from_body(504, Some("gateway timeout".to_string()));
    match text.body {
        UnrecognisedResponseBody::Text(t) => assert_eq!(t, "gateway timeout"),
        _ => panic!("expected a text body"),
    }
}
