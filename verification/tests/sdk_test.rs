//! One test per operation: a well-formed body decodes to the typed result,
//! field for field, and the validation and status paths fail as specified.
use cufinder::ops::{
    car_handle_response, cec_handle_response, clo_handle_response, cse_build_request,
    cse_handle_response, cuf_build_request, cuf_handle_response, dtc_handle_response,
    dte_handle_response, elf_handle_response, enc_handle_response, epp_handle_response,
    fcc_handle_response, fcl_handle_response, fts_handle_response, fwe_handle_response,
    lbs_build_request, lbs_handle_response, lcuf_handle_response, ntp_handle_response,
    pse_build_request, pse_handle_response, rel_handle_response, tep_build_request,
    tep_handle_response,
};
use cufinder::{CseParams, CufParams, CufinderError, JsonValue, LbsParams, PseParams, TepParams};

fn str_value(v: &Option<JsonValue>) -> Option<&str> {
    match v {
        Some(JsonValue::Str(s)) => Some(s.as_str()),
        _ => None,
    }
}

#[test]
fn test_cuf_service() {
    let req = cuf_build_request(&CufParams {
        company_name: "TechCorp".to_string(),
        country_code: "US".to_string(),
    })
    .unwrap();
    assert_eq!(req.path, "/cuf");
    assert_eq!(req.body, "company_name=TechCorp&country_code=US");

    let body = r#"{"domain":"techcorp.com","query":"TechCorp","credit_count":1}"#;
    let result = cuf_handle_response(200, body).unwrap();
    assert_eq!(result.domain, "techcorp.com");
    assert_eq!(str_value(&result.base.query), Some("TechCorp"));
    assert_eq!(result.base.credit_count, Some(1));
}

#[test]
fn test_lcuf_service() {
    let body = r#"{"linkedin_url":"https://linkedin.com/company/techcorp","query":"TechCorp","credit_count":1}"#;
    let result = lcuf_handle_response(200, body).unwrap();
    assert_eq!(result.linkedin_url, "https://linkedin.com/company/techcorp");
    assert_eq!(str_value(&result.base.query), Some("TechCorp"));
}

#[test]
fn test_dtc_service() {
    let body = r#"{"company_name":"TechCorp Inc","query":"techcorp.com","credit_count":1}"#;
    let result = dtc_handle_response(200, body).unwrap();
    assert_eq!(result.company_name, "TechCorp Inc");
    assert_eq!(str_value(&result.base.query), Some("techcorp.com"));
}

#[test]
fn test_dte_service() {
    let body = r#"{"emails":["contact@techcorp.com","info@techcorp.com"],"query":"techcorp.com","credit_count":1}"#;
    let result = dte_handle_response(200, body).unwrap();
    assert_eq!(result.emails.len(), 2);
    assert!(result.emails.contains(&"contact@techcorp.com".to_string()));
    assert!(result.emails.contains(&"info@techcorp.com".to_string()));
}

#[test]
fn test_ntp_service() {
    let body = r#"{"phones":["+1-555-0123","+1-555-0124"],"query":"TechCorp","credit_count":1}"#;
    let result = ntp_handle_response(200, body).unwrap();
    assert_eq!(result.phones.len(), 2);
    assert!(result.phones.contains(&"+1-555-0123".to_string()));
    assert!(result.phones.contains(&"+1-555-0124".to_string()));
}

#[test]
fn test_rel_service() {
    let body = r#"{
        "person": {
            "full_name": "John Doe",
            "job_title": "Software Engineer",
            "company_name": "TechCorp",
            "company_website": "techcorp.com"
        },
        "query": "john.doe@techcorp.com",
        "credit_count": 1
    }"#;
    let result = rel_handle_response(200, body).unwrap();
    assert_eq!(result.person.full_name, Some("John Doe".to_string()));
    assert_eq!(result.person.job_title, Some("Software Engineer".to_string()));
    assert_eq!(result.person.company_name, Some("TechCorp".to_string()));
    assert_eq!(result.person.company_website, Some("techcorp.com".to_string()));
}

#[test]
fn test_fcl_service() {
    let body = r#"{
        "companies": [
            {"name": "DataCorp", "domain": "datacorp.com", "industry": "Technology"},
            {"name": "SoftCorp", "domain": "softcorp.com", "industry": "Technology"}
        ],
        "query": "TechCorp",
        "credit_count": 1
    }"#;
    let result = fcl_handle_response(200, body).unwrap();
    assert_eq!(result.companies.len(), 2);
    assert_eq!(result.companies[0].name, Some("DataCorp".to_string()));
    assert_eq!(result.companies[0].domain, Some("datacorp.com".to_string()));
    assert_eq!(result.companies[1].name, Some("SoftCorp".to_string()));
}

#[test]
fn test_elf_service() {
    let body = r#"{
        "fundraising_info": {
            "funding_last_round_type": "Series A",
            "funding_money_raised": "1000000"
        },
        "query": "TechCorp",
        "credit_count": 1
    }"#;
    let result = elf_handle_response(200, body).unwrap();
    assert_eq!(
        result.fundraising.funding_last_round_type,
        Some("Series A".to_string())
    );
    assert_eq!(
        result.fundraising.funding_money_raised,
        Some("1000000".to_string())
    );
}

#[test]
fn test_car_service() {
    let body = r#"{"annual_revenue":"$5M-$10M","query":"TechCorp","credit_count":1}"#;
    let result = car_handle_response(200, body).unwrap();
    assert_eq!(result.revenue, "$5M-$10M");
}

#[test]
fn test_fcc_service() {
    let body = r#"{
        "subsidiaries": ["TechCorp Mobile", "TechCorp Cloud"],
        "query": "TechCorp",
        "credit_count": 1
    }"#;
    let result = fcc_handle_response(200, body).unwrap();
    assert_eq!(result.subsidiaries.len(), 2);
    assert_eq!(result.subsidiaries[0], "TechCorp Mobile");
    assert_eq!(result.subsidiaries[1], "TechCorp Cloud");
}

#[test]
fn test_fts_service() {
    let body = r#"{
        "technologies": ["Go", "Python", "JavaScript"],
        "query": "TechCorp",
        "credit_count": 1
    }"#;
    let result = fts_handle_response(200, body).unwrap();
    assert_eq!(result.technologies.len(), 3);
    assert!(result.technologies.contains(&"Python".to_string()));
}

#[test]
fn test_epp_service() {
    let body = r#"{
        "person": {
            "full_name": "John Doe",
            "job_title": "Software Engineer",
            "linkedin_url": "https://linkedin.com/in/john-doe",
            "company_name": "TechCorp",
            "linkedin_followers": 500
        },
        "query": "https://linkedin.com/in/john-doe",
        "credit_count": 1
    }"#;
    let result = epp_handle_response(200, body).unwrap();
    assert_eq!(result.person.full_name, Some("John Doe".to_string()));
    assert_eq!(result.person.job_title, Some("Software Engineer".to_string()));
    assert_eq!(
        result.person.linkedin_url,
        Some("https://linkedin.com/in/john-doe".to_string())
    );
    assert_eq!(result.person.company_name, Some("TechCorp".to_string()));
    assert_eq!(result.person.linkedin_followers, Some(500));
}

#[test]
fn test_fwe_service() {
    let body = r#"{"work_email":"john.doe@techcorp.com","query":"https://linkedin.com/in/john-doe","credit_count":1}"#;
    let result = fwe_handle_response(200, body).unwrap();
    assert_eq!(result.email, "john.doe@techcorp.com");
}

#[test]
fn test_tep_service() {
    let body = r#"{
        "person": {
            "full_name": "John Doe",
            "job_title": "Software Engineer",
            "company_name": "TechCorp"
        },
        "query": "John Doe at TechCorp",
        "confidence_level": 88,
        "credit_count": 1
    }"#;
    let result = tep_handle_response(200, body).unwrap();
    assert_eq!(result.person.full_name, Some("John Doe".to_string()));
    assert_eq!(result.person.job_title, Some("Software Engineer".to_string()));
    assert_eq!(result.person.company_name, Some("TechCorp".to_string()));
    assert_eq!(result.base.confidence_level, Some(88));
}

#[test]
fn test_enc_service() {
    let body = r#"{
        "company": {
            "name": "TechCorp",
            "domain": "techcorp.com",
            "industry": "Technology",
            "size": "51-200"
        },
        "query": "TechCorp",
        "credit_count": 1
    }"#;
    let result = enc_handle_response(200, body).unwrap();
    assert_eq!(result.company.name, Some("TechCorp".to_string()));
    assert_eq!(result.company.domain, Some("techcorp.com".to_string()));
    assert_eq!(result.company.industry, Some("Technology".to_string()));
    assert_eq!(result.company.size, Some("51-200".to_string()));
}

#[test]
fn test_cec_service() {
    let body = r#"{
        "countries": ["US", "UK", "CA"],
        "query": "TechCorp",
        "credit_count": 1
    }"#;
    let result = cec_handle_response(200, body).unwrap();
    match &result.countries {
        JsonValue::Arr(items) => {
            assert_eq!(items.len(), 3);
            assert!(matches!(items[0], JsonValue::Str(ref s) if s == "US"));
            assert!(matches!(items[1], JsonValue::Str(ref s) if s == "UK"));
            assert!(matches!(items[2], JsonValue::Str(ref s) if s == "CA"));
        }
        other => panic!("countries should be an array, got {:?}", other),
    }
}

#[test]
fn test_clo_service() {
    let body = r#"{
        "locations": [
            {"country": "US", "state": "CA", "city": "San Francisco", "line1": "123 Tech St"},
            {"country": "UK", "city": "London", "line1": "456 Innovation Ave"}
        ],
        "query": "TechCorp",
        "credit_count": 1
    }"#;
    let result = clo_handle_response(200, body).unwrap();
    assert_eq!(result.locations.len(), 2);
    assert_eq!(result.locations[0].city, Some("San Francisco".to_string()));
    assert_eq!(result.locations[1].city, Some("London".to_string()));
    assert_eq!(result.locations[1].state, None);
}

#[test]
fn test_cse_service() {
    let req = cse_build_request(&CseParams {
        name: Some("technology".to_string()),
        country: Some("US".to_string()),
        industry: Some("Technology".to_string()),
        ..Default::default()
    })
    .unwrap();
    assert_eq!(req.path, "/cse");
    assert_eq!(req.body, "name=technology&country=US&industry=Technology");

    let body = r#"{
        "companies": [
            {"name": "TechCorp", "domain": "techcorp.com", "industry": "Technology"},
            {"name": "DataCorp", "domain": "datacorp.com", "industry": "Data Analytics"}
        ],
        "total_results": 2,
        "page": 1,
        "query": "technology",
        "credit_count": 1
    }"#;
    let result = cse_handle_response(200, body).unwrap();
    assert_eq!(result.companies.len(), 2);
    assert_eq!(result.companies[0].name, Some("TechCorp".to_string()));
    assert_eq!(result.companies[0].domain, Some("techcorp.com".to_string()));
    assert_eq!(result.companies[0].industry, Some("Technology".to_string()));
    assert_eq!(result.total_results, Some(2));
    assert_eq!(result.page, Some(1));
}

#[test]
fn test_pse_service() {
    let req = pse_build_request(&PseParams {
        full_name: Some("engineer".to_string()),
        company_name: Some("TechCorp".to_string()),
        ..Default::default()
    })
    .unwrap();
    assert_eq!(req.path, "/pse");
    assert_eq!(req.body, "full_name=engineer&company_name=TechCorp");

    let body = r#"{
        "peoples": [
            {"full_name": "John Doe", "current_job": {"title": "Software Engineer"}},
            {"full_name": "Jane Smith", "current_job": {"title": "Product Manager"}}
        ],
        "total_results": 2,
        "page": 1,
        "query": "engineer",
        "credit_count": 1
    }"#;
    let result = pse_handle_response(200, body).unwrap();
    assert_eq!(result.peoples.len(), 2);
    assert_eq!(result.peoples[0].full_name, Some("John Doe".to_string()));
    assert_eq!(
        result.peoples[0].current_job.as_ref().unwrap().title,
        Some("Software Engineer".to_string())
    );
    assert_eq!(result.peoples[1].full_name, Some("Jane Smith".to_string()));
    assert_eq!(result.total_results, Some(2));
    assert_eq!(result.page, Some(1));
}

#[test]
fn test_lbs_service() {
    let req = lbs_build_request(&LbsParams {
        name: Some("coffee".to_string()),
        city: Some("San Francisco".to_string()),
        ..Default::default()
    })
    .unwrap();
    assert_eq!(req.path, "/lbs");
    assert_eq!(req.body, "name=coffee&city=San+Francisco");

    let body = r#"{
        "companies": [
            {"name": "Coffee Shop", "address": "123 Main St", "city": "San Francisco"},
            {"name": "Restaurant", "address": "456 Oak Ave", "city": "San Francisco"}
        ],
        "total_results": 2,
        "page": 1,
        "query": "coffee",
        "credit_count": 1
    }"#;
    let result = lbs_handle_response(200, body).unwrap();
    assert_eq!(result.companies.len(), 2);
    assert_eq!(result.companies[0].name, Some("Coffee Shop".to_string()));
    assert_eq!(result.companies[0].address, Some("123 Main St".to_string()));
    assert_eq!(result.companies[0].city, Some("San Francisco".to_string()));
    assert_eq!(result.total_results, Some(2));
    assert_eq!(result.page, Some(1));
}

#[test]
fn test_error_handling() {
    let result = cuf_build_request(&CufParams {
        company_name: String::new(),
        country_code: "US".to_string(),
    });
    assert!(result.is_err());
    if let Err(CufinderError::ValidationError(msg)) = result {
        assert!(msg.contains("company_name is required"));
    } else {
        panic!("expected a validation error");
    }

    let result = cuf_build_request(&CufParams {
        company_name: "TechCorp".to_string(),
        country_code: String::new(),
    });
    assert!(result.is_err());
    if let Err(CufinderError::ValidationError(msg)) = result {
        assert!(msg.contains("country_code is required"));
    } else {
        panic!("expected a validation error");
    }

    let result = tep_build_request(&TepParams {
        full_name: String::new(),
        company: "TechCorp".to_string(),
    });
    assert!(result.is_err());
    if let Err(CufinderError::ValidationError(msg)) = result {
        assert!(msg.contains("full_name is required"));
    } else {
        panic!("expected a validation error");
    }

    let result = tep_build_request(&TepParams {
        full_name: "John Doe".to_string(),
        company: String::new(),
    });
    assert!(result.is_err());
    if let Err(CufinderError::ValidationError(msg)) = result {
        assert!(msg.contains("company is required"));
    } else {
        panic!("expected a validation error");
    }
}

#[test]
fn test_authentication_error() {
    let body = r#"{"error":"API key verification failed!"}"#;
    let result = cuf_handle_response(401, body);
    assert!(result.is_err());
    if let Err(CufinderError::AuthenticationError(msg)) = result {
        assert!(msg.contains("API key verification failed"));
    } else {
        panic!("expected an authentication error");
    }
}
