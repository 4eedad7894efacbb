//! The parameters of each operation, and the client configuration.
use vstd::prelude::*;
use vstd::string::StringExecFns;

verus! {

/// What a client is built from. The credential and addresses are fixed
/// after construction; the retry budget is carried but never consulted.
#[derive(Debug, Clone)]
pub struct ClientConfig {
    pub api_key: String,
    pub base_url: String,
    pub timeout_secs: u64,
    pub max_retries: u32,
}

impl Default for ClientConfig {
    /// The production endpoint, a thirty-second timeout, and no credential.
    fn default() -> (c: ClientConfig)
        ensures
            c.api_key@ == Seq::<char>::empty(),
            c.base_url@ == "https://api.cufinder.io/v2"@,
            c.timeout_secs == 30,
            c.max_retries == 3,
    {
        ClientConfig {
            api_key: String::new(),
            base_url: String::from_str("https://api.cufinder.io/v2"),
            timeout_secs: 30,
            max_retries: 3,
        }
    }
}

/// Company-domain lookup: a company name and a two-letter country code.
#[derive(Debug, Clone)]
pub struct CufParams {
    pub company_name: String,
    pub country_code: String,
}

/// Company-LinkedIn lookup: a company name.
#[derive(Debug, Clone)]
pub struct LcufParams {
    pub company_name: String,
}

/// Domain-to-company-name: a website.
#[derive(Debug, Clone)]
pub struct DtcParams {
    pub company_website: String,
}

/// Domain-to-emails: a website.
#[derive(Debug, Clone)]
pub struct DteParams {
    pub company_website: String,
}

/// Name-to-phones: a company name.
#[derive(Debug, Clone)]
pub struct NtpParams {
    pub company_name: String,
}

/// Reverse email lookup: an email address.
#[derive(Debug, Clone)]
pub struct RelParams {
    pub email: String,
}

/// Lookalike companies: a free-text query.
#[derive(Debug, Clone)]
pub struct FclParams {
    pub query: String,
}

/// Fundraising lookup: a free-text query.
#[derive(Debug, Clone)]
pub struct ElfParams {
    pub query: String,
}

/// Revenue lookup: a free-text query.
#[derive(Debug, Clone)]
pub struct CarParams {
    pub query: String,
}

/// Subsidiaries lookup: a free-text query.
#[derive(Debug, Clone)]
pub struct FccParams {
    pub query: String,
}

/// Tech-stack lookup: a free-text query.
#[derive(Debug, Clone)]
pub struct FtsParams {
    pub query: String,
}

/// Profile enrichment: a LinkedIn profile URL.
#[derive(Debug, Clone)]
pub struct EppParams {
    pub linkedin_url: String,
}

/// Work-email lookup: a LinkedIn profile URL.
#[derive(Debug, Clone)]
pub struct FweParams {
    pub linkedin_url: String,
}

/// Person enrichment: a full name and a company.
#[derive(Debug, Clone)]
pub struct TepParams {
    pub full_name: String,
    pub company: String,
}

/// Company enrichment: a free-text query.
#[derive(Debug, Clone)]
pub struct EncParams {
    pub query: String,
}

/// Employee-countries lookup: a free-text query.
#[derive(Debug, Clone)]
pub struct CecParams {
    pub query: String,
}

/// Company-locations lookup: a free-text query.
#[derive(Debug, Clone)]
pub struct CloParams {
    pub query: String,
}

/// B2B-customers extraction: a URL.
#[derive(Debug, Clone)]
pub struct BcdParams {
    pub url: String,
}

/// Careers-page finder: a URL.
#[derive(Debug, Clone)]
pub struct CcpParams {
    pub url: String,
}

/// SaaS checker: a URL.
#[derive(Debug, Clone)]
pub struct IscParams {
    pub url: String,
}

/// Company search: optional filters and a page cursor, none mandatory.
#[derive(Debug, Clone, Default)]
pub struct CseParams {
    pub name: Option<String>,
    pub country: Option<String>,
    pub state: Option<String>,
    pub city: Option<String>,
    pub followers_count_min: Option<i32>,
    pub followers_count_max: Option<i32>,
    pub industry: Option<String>,
    pub employee_size: Option<String>,
    pub founded_after_year: Option<i32>,
    pub founded_before_year: Option<i32>,
    pub funding_amount_max: Option<i32>,
    pub funding_amount_min: Option<i32>,
    pub products_services: Option<Vec<String>>,
    pub is_school: Option<bool>,
    pub annual_revenue_min: Option<i32>,
    pub annual_revenue_max: Option<i32>,
    pub page: Option<i32>,
}

/// Person search: optional filters and a page cursor, none mandatory.
#[derive(Debug, Clone, Default)]
pub struct PseParams {
    pub full_name: Option<String>,
    pub country: Option<String>,
    pub state: Option<String>,
    pub city: Option<String>,
    pub job_title_role: Option<String>,
    pub job_title_level: Option<String>,
    pub company_country: Option<String>,
    pub company_state: Option<String>,
    pub company_city: Option<String>,
    pub company_name: Option<String>,
    pub company_linkedin_url: Option<String>,
    pub company_industry: Option<String>,
    pub company_employee_size: Option<String>,
    pub company_products_services: Option<Vec<String>>,
    pub company_annual_revenue_min: Option<i32>,
    pub company_annual_revenue_max: Option<i32>,
    pub page: Option<i32>,
}

/// Local-business search: optional filters and a page cursor.
#[derive(Debug, Clone, Default)]
pub struct LbsParams {
    pub name: Option<String>,
    pub country: Option<String>,
    pub state: Option<String>,
    pub city: Option<String>,
    pub industry: Option<String>,
    pub page: Option<i32>,
}

} // verus!
