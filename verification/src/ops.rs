//! The operation catalog: for each endpoint, a request builder that
//! validates the parameters and renders the form body, and a response
//! handler that classifies the status, unwraps the envelope and decodes
//! the typed result.
use crate::decode::opt_string_view;
use crate::encode::{
    form_encoding_of, opt_bool_string, opt_i32_string, opt_pair, pairs_view, form_encode,
    push_opt_bool, push_opt_i32, push_opt_str, push_str,
};
use crate::envelope::{
    is_status_error, is_success_status, json_of, process_response, unwrap_envelope_spec,
};
use crate::error::CufinderError;
use crate::params::{
    BcdParams, CarParams, CcpParams, CecParams, CloParams, CseParams, CufParams, DtcParams, DteParams, ElfParams, EncParams, EppParams, FccParams, FclParams, FtsParams, FweParams, IscParams, LbsParams, LcufParams, NtpParams, PseParams, RelParams, TepParams,
};
use crate::responses::{
    BcdResponse, CarResponse, CcpResponse, CecResponse,
    CloResponse, CseResponse, CufResponse, DtcResponse,
    DteResponse, ElfResponse, EncResponse, EppResponse,
    FccResponse, FclResponse, FtsResponse, FweResponse,
    IscResponse, LbsResponse, LcufResponse, NtpResponse,
    PseResponse, RelResponse, TepResponse, decode_bcd_response,
    decode_car_response, decode_ccp_response, decode_cec_response, decode_clo_response,
    decode_cse_response, decode_cuf_response, decode_dtc_response, decode_dte_response,
    decode_elf_response, decode_enc_response, decode_epp_response, decode_fcc_response,
    decode_fcl_response, decode_fts_response, decode_fwe_response, decode_isc_response,
    decode_lbs_response, decode_lcuf_response, decode_ntp_response, decode_pse_response,
    decode_rel_response, decode_tep_response,
};
use vstd::prelude::*;
use vstd::string::StringExecFns;

verus! {

/// A request as the transport sends it: the endpoint path and the
/// form-encoded body.
#[derive(Debug, Clone)]
pub struct PreparedRequest {
    pub path: String,
    pub body: String,
}

/// The pairs the company-domain lookup sends, in their wire order.
pub open spec fn cuf_pairs(p: CufParams) -> Seq<(Seq<char>, Seq<char>)> {
    seq![("company_name"@, p.company_name@), ("country_code"@, p.country_code@)]
}

/// Company-domain lookup: rejects the first empty required field, in the
/// declared order, naming it; otherwise the prepared request.
pub fn cuf_build_request(params: &CufParams) -> (r: Result<PreparedRequest, CufinderError>)
    ensures
        params.company_name@.len() == 0 ==> (r matches Err(e)
            && e matches CufinderError::ValidationError(m)
            && m@ == "company_name is required"@),
        params.company_name@.len() > 0 && params.country_code@.len() == 0 ==> (r matches Err(e)
            && e matches CufinderError::ValidationError(m)
            && m@ == "country_code is required"@),
        params.company_name@.len() > 0 && params.country_code@.len() > 0 ==> (r matches Ok(req)
            && req.path@ == "/cuf"@
            && req.body@ == form_encoding_of(cuf_pairs(*params))),
{
    if params.company_name.as_str().is_empty() {
        return Err(CufinderError::ValidationError(String::from_str(
            "company_name is required",
        )));
    }
    if params.country_code.as_str().is_empty() {
        return Err(CufinderError::ValidationError(String::from_str(
            "country_code is required",
        )));
    }
    let mut pairs: Vec<(String, String)> = Vec::new();
    push_str(&mut pairs, "company_name", &params.company_name);
    push_str(&mut pairs, "country_code", &params.country_code);
    proof {
        assert(pairs_view(pairs@) =~= cuf_pairs(*params));
    }
    let body = form_encode(&pairs);
    Ok(PreparedRequest { path: String::from_str("/cuf"), body })
}

/// Company-domain lookup: the typed result of one exchange, or the error the
/// status, body or shape dictates.
pub fn cuf_handle_response(status: u16, body: &str) -> (r: Result<CufResponse, CufinderError>)
    ensures
        !is_success_status(status) ==> (r matches Err(e) && is_status_error(
            e,
            status,
            body@,
        )),
        is_success_status(status) ==> match json_of(body@) {
            Option::Some(j) => match r {
                Ok(out) => CufResponse::decodable(unwrap_envelope_spec(j))
                    && out.is_decode_of(unwrap_envelope_spec(j)),
                Err(e) => !CufResponse::decodable(unwrap_envelope_spec(j)) && e is JsonError,
            },
            Option::None => (r matches Err(e) && e is JsonError),
        },
{
    let payload = match process_response(status, body) {
        Ok(p) => p,
        Err(e) => {
            return Err(e);
        },
    };
    match decode_cuf_response(&payload) {
        Ok(out) => Ok(out),
        Err(_) => Err(CufinderError::JsonError(String::from_str(
            "response does not match the expected shape",
        ))),
    }
}

/// The pairs the company-linkedin lookup sends, in their wire order.
pub open spec fn lcuf_pairs(p: LcufParams) -> Seq<(Seq<char>, Seq<char>)> {
    seq![("company_name"@, p.company_name@)]
}

/// Company-LinkedIn lookup: rejects the first empty required field, in the
/// declared order, naming it; otherwise the prepared request.
pub fn lcuf_build_request(params: &LcufParams) -> (r: Result<PreparedRequest, CufinderError>)
    ensures
        params.company_name@.len() == 0 ==> (r matches Err(e)
            && e matches CufinderError::ValidationError(m)
            && m@ == "company_name is required"@),
        params.company_name@.len() > 0 ==> (r matches Ok(req)
            && req.path@ == "/lcuf"@
            && req.body@ == form_encoding_of(lcuf_pairs(*params))),
{
    if params.company_name.as_str().is_empty() {
        return Err(CufinderError::ValidationError(String::from_str(
            "company_name is required",
        )));
    }
    let mut pairs: Vec<(String, String)> = Vec::new();
    push_str(&mut pairs, "company_name", &params.company_name);
    proof {
        assert(pairs_view(pairs@) =~= lcuf_pairs(*params));
    }
    let body = form_encode(&pairs);
    Ok(PreparedRequest { path: String::from_str("/lcuf"), body })
}

/// Company-LinkedIn lookup: the typed result of one exchange, or the error the
/// status, body or shape dictates.
pub fn lcuf_handle_response(status: u16, body: &str) -> (r: Result<LcufResponse, CufinderError>)
    ensures
        !is_success_status(status) ==> (r matches Err(e) && is_status_error(
            e,
            status,
            body@,
        )),
        is_success_status(status) ==> match json_of(body@) {
            Option::Some(j) => match r {
                Ok(out) => LcufResponse::decodable(unwrap_envelope_spec(j))
                    && out.is_decode_of(unwrap_envelope_spec(j)),
                Err(e) => !LcufResponse::decodable(unwrap_envelope_spec(j)) && e is JsonError,
            },
            Option::None => (r matches Err(e) && e is JsonError),
        },
{
    let payload = match process_response(status, body) {
        Ok(p) => p,
        Err(e) => {
            return Err(e);
        },
    };
    match decode_lcuf_response(&payload) {
        Ok(out) => Ok(out),
        Err(_) => Err(CufinderError::JsonError(String::from_str(
            "response does not match the expected shape",
        ))),
    }
}

/// The pairs the domain-to-company-name sends, in their wire order.
pub open spec fn dtc_pairs(p: DtcParams) -> Seq<(Seq<char>, Seq<char>)> {
    seq![("company_website"@, p.company_website@)]
}

/// Domain-to-company-name: rejects the first empty required field, in the
/// declared order, naming it; otherwise the prepared request.
pub fn dtc_build_request(params: &DtcParams) -> (r: Result<PreparedRequest, CufinderError>)
    ensures
        params.company_website@.len() == 0 ==> (r matches Err(e)
            && e matches CufinderError::ValidationError(m)
            && m@ == "company_website is required"@),
        params.company_website@.len() > 0 ==> (r matches Ok(req)
            && req.path@ == "/dtc"@
            && req.body@ == form_encoding_of(dtc_pairs(*params))),
{
    if params.company_website.as_str().is_empty() {
        return Err(CufinderError::ValidationError(String::from_str(
            "company_website is required",
        )));
    }
    let mut pairs: Vec<(String, String)> = Vec::new();
    push_str(&mut pairs, "company_website", &params.company_website);
    proof {
        assert(pairs_view(pairs@) =~= dtc_pairs(*params));
    }
    let body = form_encode(&pairs);
    Ok(PreparedRequest { path: String::from_str("/dtc"), body })
}

/// Domain-to-company-name: the typed result of one exchange, or the error the
/// status, body or shape dictates.
pub fn dtc_handle_response(status: u16, body: &str) -> (r: Result<DtcResponse, CufinderError>)
    ensures
        !is_success_status(status) ==> (r matches Err(e) && is_status_error(
            e,
            status,
            body@,
        )),
        is_success_status(status) ==> match json_of(body@) {
            Option::Some(j) => match r {
                Ok(out) => DtcResponse::decodable(unwrap_envelope_spec(j))
                    && out.is_decode_of(unwrap_envelope_spec(j)),
                Err(e) => !DtcResponse::decodable(unwrap_envelope_spec(j)) && e is JsonError,
            },
            Option::None => (r matches Err(e) && e is JsonError),
        },
{
    let payload = match process_response(status, body) {
        Ok(p) => p,
        Err(e) => {
            return Err(e);
        },
    };
    match decode_dtc_response(&payload) {
        Ok(out) => Ok(out),
        Err(_) => Err(CufinderError::JsonError(String::from_str(
            "response does not match the expected shape",
        ))),
    }
}

/// The pairs the domain-to-emails sends, in their wire order.
pub open spec fn dte_pairs(p: DteParams) -> Seq<(Seq<char>, Seq<char>)> {
    seq![("company_website"@, p.company_website@)]
}

/// Domain-to-emails: rejects the first empty required field, in the
/// declared order, naming it; otherwise the prepared request.
pub fn dte_build_request(params: &DteParams) -> (r: Result<PreparedRequest, CufinderError>)
    ensures
        params.company_website@.len() == 0 ==> (r matches Err(e)
            && e matches CufinderError::ValidationError(m)
            && m@ == "company_website is required"@),
        params.company_website@.len() > 0 ==> (r matches Ok(req)
            && req.path@ == "/dte"@
            && req.body@ == form_encoding_of(dte_pairs(*params))),
{
    if params.company_website.as_str().is_empty() {
        return Err(CufinderError::ValidationError(String::from_str(
            "company_website is required",
        )));
    }
    let mut pairs: Vec<(String, String)> = Vec::new();
    push_str(&mut pairs, "company_website", &params.company_website);
    proof {
        assert(pairs_view(pairs@) =~= dte_pairs(*params));
    }
    let body = form_encode(&pairs);
    Ok(PreparedRequest { path: String::from_str("/dte"), body })
}

/// Domain-to-emails: the typed result of one exchange, or the error the
/// status, body or shape dictates.
pub fn dte_handle_response(status: u16, body: &str) -> (r: Result<DteResponse, CufinderError>)
    ensures
        !is_success_status(status) ==> (r matches Err(e) && is_status_error(
            e,
            status,
            body@,
        )),
        is_success_status(status) ==> match json_of(body@) {
            Option::Some(j) => match r {
                Ok(out) => DteResponse::decodable(unwrap_envelope_spec(j))
                    && out.is_decode_of(unwrap_envelope_spec(j)),
                Err(e) => !DteResponse::decodable(unwrap_envelope_spec(j)) && e is JsonError,
            },
            Option::None => (r matches Err(e) && e is JsonError),
        },
{
    let payload = match process_response(status, body) {
        Ok(p) => p,
        Err(e) => {
            return Err(e);
        },
    };
    match decode_dte_response(&payload) {
        Ok(out) => Ok(out),
        Err(_) => Err(CufinderError::JsonError(String::from_str(
            "response does not match the expected shape",
        ))),
    }
}

/// The pairs the name-to-phones sends, in their wire order.
pub open spec fn ntp_pairs(p: NtpParams) -> Seq<(Seq<char>, Seq<char>)> {
    seq![("company_name"@, p.company_name@)]
}

/// Name-to-phones: rejects the first empty required field, in the
/// declared order, naming it; otherwise the prepared request.
pub fn ntp_build_request(params: &NtpParams) -> (r: Result<PreparedRequest, CufinderError>)
    ensures
        params.company_name@.len() == 0 ==> (r matches Err(e)
            && e matches CufinderError::ValidationError(m)
            && m@ == "company_name is required"@),
        params.company_name@.len() > 0 ==> (r matches Ok(req)
            && req.path@ == "/ntp"@
            && req.body@ == form_encoding_of(ntp_pairs(*params))),
{
    if params.company_name.as_str().is_empty() {
        return Err(CufinderError::ValidationError(String::from_str(
            "company_name is required",
        )));
    }
    let mut pairs: Vec<(String, String)> = Vec::new();
    push_str(&mut pairs, "company_name", &params.company_name);
    proof {
        assert(pairs_view(pairs@) =~= ntp_pairs(*params));
    }
    let body = form_encode(&pairs);
    Ok(PreparedRequest { path: String::from_str("/ntp"), body })
}

/// Name-to-phones: the typed result of one exchange, or the error the
/// status, body or shape dictates.
pub fn ntp_handle_response(status: u16, body: &str) -> (r: Result<NtpResponse, CufinderError>)
    ensures
        !is_success_status(status) ==> (r matches Err(e) && is_status_error(
            e,
            status,
            body@,
        )),
        is_success_status(status) ==> match json_of(body@) {
            Option::Some(j) => match r {
                Ok(out) => NtpResponse::decodable(unwrap_envelope_spec(j))
                    && out.is_decode_of(unwrap_envelope_spec(j)),
                Err(e) => !NtpResponse::decodable(unwrap_envelope_spec(j)) && e is JsonError,
            },
            Option::None => (r matches Err(e) && e is JsonError),
        },
{
    let payload = match process_response(status, body) {
        Ok(p) => p,
        Err(e) => {
            return Err(e);
        },
    };
    match decode_ntp_response(&payload) {
        Ok(out) => Ok(out),
        Err(_) => Err(CufinderError::JsonError(String::from_str(
            "response does not match the expected shape",
        ))),
    }
}

/// The pairs the reverse email lookup sends, in their wire order.
pub open spec fn rel_pairs(p: RelParams) -> Seq<(Seq<char>, Seq<char>)> {
    seq![("email"@, p.email@)]
}

/// Reverse email lookup: rejects the first empty required field, in the
/// declared order, naming it; otherwise the prepared request.
pub fn rel_build_request(params: &RelParams) -> (r: Result<PreparedRequest, CufinderError>)
    ensures
        params.email@.len() == 0 ==> (r matches Err(e)
            && e matches CufinderError::ValidationError(m)
            && m@ == "email is required"@),
        params.email@.len() > 0 ==> (r matches Ok(req)
            && req.path@ == "/rel"@
            && req.body@ == form_encoding_of(rel_pairs(*params))),
{
    if params.email.as_str().is_empty() {
        return Err(CufinderError::ValidationError(String::from_str(
            "email is required",
        )));
    }
    let mut pairs: Vec<(String, String)> = Vec::new();
    push_str(&mut pairs, "email", &params.email);
    proof {
        assert(pairs_view(pairs@) =~= rel_pairs(*params));
    }
    let body = form_encode(&pairs);
    Ok(PreparedRequest { path: String::from_str("/rel"), body })
}

/// Reverse email lookup: the typed result of one exchange, or the error the
/// status, body or shape dictates.
pub fn rel_handle_response(status: u16, body: &str) -> (r: Result<RelResponse, CufinderError>)
    ensures
        !is_success_status(status) ==> (r matches Err(e) && is_status_error(
            e,
            status,
            body@,
        )),
        is_success_status(status) ==> match json_of(body@) {
            Option::Some(j) => match r {
                Ok(out) => RelResponse::decodable(unwrap_envelope_spec(j))
                    && out.is_decode_of(unwrap_envelope_spec(j)),
                Err(e) => !RelResponse::decodable(unwrap_envelope_spec(j)) && e is JsonError,
            },
            Option::None => (r matches Err(e) && e is JsonError),
        },
{
    let payload = match process_response(status, body) {
        Ok(p) => p,
        Err(e) => {
            return Err(e);
        },
    };
    match decode_rel_response(&payload) {
        Ok(out) => Ok(out),
        Err(_) => Err(CufinderError::JsonError(String::from_str(
            "response does not match the expected shape",
        ))),
    }
}

/// The pairs the lookalike companies sends, in their wire order.
pub open spec fn fcl_pairs(p: FclParams) -> Seq<(Seq<char>, Seq<char>)> {
    seq![("query"@, p.query@)]
}

/// Lookalike companies: rejects the first empty required field, in the
/// declared order, naming it; otherwise the prepared request.
pub fn fcl_build_request(params: &FclParams) -> (r: Result<PreparedRequest, CufinderError>)
    ensures
        params.query@.len() == 0 ==> (r matches Err(e)
            && e matches CufinderError::ValidationError(m)
            && m@ == "query is required"@),
        params.query@.len() > 0 ==> (r matches Ok(req)
            && req.path@ == "/fcl"@
            && req.body@ == form_encoding_of(fcl_pairs(*params))),
{
    if params.query.as_str().is_empty() {
        return Err(CufinderError::ValidationError(String::from_str(
            "query is required",
        )));
    }
    let mut pairs: Vec<(String, String)> = Vec::new();
    push_str(&mut pairs, "query", &params.query);
    proof {
        assert(pairs_view(pairs@) =~= fcl_pairs(*params));
    }
    let body = form_encode(&pairs);
    Ok(PreparedRequest { path: String::from_str("/fcl"), body })
}

/// Lookalike companies: the typed result of one exchange, or the error the
/// status, body or shape dictates.
pub fn fcl_handle_response(status: u16, body: &str) -> (r: Result<FclResponse, CufinderError>)
    ensures
        !is_success_status(status) ==> (r matches Err(e) && is_status_error(
            e,
            status,
            body@,
        )),
        is_success_status(status) ==> match json_of(body@) {
            Option::Some(j) => match r {
                Ok(out) => FclResponse::decodable(unwrap_envelope_spec(j))
                    && out.is_decode_of(unwrap_envelope_spec(j)),
                Err(e) => !FclResponse::decodable(unwrap_envelope_spec(j)) && e is JsonError,
            },
            Option::None => (r matches Err(e) && e is JsonError),
        },
{
    let payload = match process_response(status, body) {
        Ok(p) => p,
        Err(e) => {
            return Err(e);
        },
    };
    match decode_fcl_response(&payload) {
        Ok(out) => Ok(out),
        Err(_) => Err(CufinderError::JsonError(String::from_str(
            "response does not match the expected shape",
        ))),
    }
}

/// The pairs the fundraising lookup sends, in their wire order.
pub open spec fn elf_pairs(p: ElfParams) -> Seq<(Seq<char>, Seq<char>)> {
    seq![("query"@, p.query@)]
}

/// Fundraising lookup: rejects the first empty required field, in the
/// declared order, naming it; otherwise the prepared request.
pub fn elf_build_request(params: &ElfParams) -> (r: Result<PreparedRequest, CufinderError>)
    ensures
        params.query@.len() == 0 ==> (r matches Err(e)
            && e matches CufinderError::ValidationError(m)
            && m@ == "query is required"@),
        params.query@.len() > 0 ==> (r matches Ok(req)
            && req.path@ == "/elf"@
            && req.body@ == form_encoding_of(elf_pairs(*params))),
{
    if params.query.as_str().is_empty() {
        return Err(CufinderError::ValidationError(String::from_str(
            "query is required",
        )));
    }
    let mut pairs: Vec<(String, String)> = Vec::new();
    push_str(&mut pairs, "query", &params.query);
    proof {
        assert(pairs_view(pairs@) =~= elf_pairs(*params));
    }
    let body = form_encode(&pairs);
    Ok(PreparedRequest { path: String::from_str("/elf"), body })
}

/// Fundraising lookup: the typed result of one exchange, or the error the
/// status, body or shape dictates.
pub fn elf_handle_response(status: u16, body: &str) -> (r: Result<ElfResponse, CufinderError>)
    ensures
        !is_success_status(status) ==> (r matches Err(e) && is_status_error(
            e,
            status,
            body@,
        )),
        is_success_status(status) ==> match json_of(body@) {
            Option::Some(j) => match r {
                Ok(out) => ElfResponse::decodable(unwrap_envelope_spec(j))
                    && out.is_decode_of(unwrap_envelope_spec(j)),
                Err(e) => !ElfResponse::decodable(unwrap_envelope_spec(j)) && e is JsonError,
            },
            Option::None => (r matches Err(e) && e is JsonError),
        },
{
    let payload = match process_response(status, body) {
        Ok(p) => p,
        Err(e) => {
            return Err(e);
        },
    };
    match decode_elf_response(&payload) {
        Ok(out) => Ok(out),
        Err(_) => Err(CufinderError::JsonError(String::from_str(
            "response does not match the expected shape",
        ))),
    }
}

/// The pairs the revenue lookup sends, in their wire order.
pub open spec fn car_pairs(p: CarParams) -> Seq<(Seq<char>, Seq<char>)> {
    seq![("query"@, p.query@)]
}

/// Revenue lookup: rejects the first empty required field, in the
/// declared order, naming it; otherwise the prepared request.
pub fn car_build_request(params: &CarParams) -> (r: Result<PreparedRequest, CufinderError>)
    ensures
        params.query@.len() == 0 ==> (r matches Err(e)
            && e matches CufinderError::ValidationError(m)
            && m@ == "query is required"@),
        params.query@.len() > 0 ==> (r matches Ok(req)
            && req.path@ == "/car"@
            && req.body@ == form_encoding_of(car_pairs(*params))),
{
    if params.query.as_str().is_empty() {
        return Err(CufinderError::ValidationError(String::from_str(
            "query is required",
        )));
    }
    let mut pairs: Vec<(String, String)> = Vec::new();
    push_str(&mut pairs, "query", &params.query);
    proof {
        assert(pairs_view(pairs@) =~= car_pairs(*params));
    }
    let body = form_encode(&pairs);
    Ok(PreparedRequest { path: String::from_str("/car"), body })
}

/// Revenue lookup: the typed result of one exchange, or the error the
/// status, body or shape dictates.
pub fn car_handle_response(status: u16, body: &str) -> (r: Result<CarResponse, CufinderError>)
    ensures
        !is_success_status(status) ==> (r matches Err(e) && is_status_error(
            e,
            status,
            body@,
        )),
        is_success_status(status) ==> match json_of(body@) {
            Option::Some(j) => match r {
                Ok(out) => CarResponse::decodable(unwrap_envelope_spec(j))
                    && out.is_decode_of(unwrap_envelope_spec(j)),
                Err(e) => !CarResponse::decodable(unwrap_envelope_spec(j)) && e is JsonError,
            },
            Option::None => (r matches Err(e) && e is JsonError),
        },
{
    let payload = match process_response(status, body) {
        Ok(p) => p,
        Err(e) => {
            return Err(e);
        },
    };
    match decode_car_response(&payload) {
        Ok(out) => Ok(out),
        Err(_) => Err(CufinderError::JsonError(String::from_str(
            "response does not match the expected shape",
        ))),
    }
}

/// The pairs the subsidiaries lookup sends, in their wire order.
pub open spec fn fcc_pairs(p: FccParams) -> Seq<(Seq<char>, Seq<char>)> {
    seq![("query"@, p.query@)]
}

/// Subsidiaries lookup: rejects the first empty required field, in the
/// declared order, naming it; otherwise the prepared request.
pub fn fcc_build_request(params: &FccParams) -> (r: Result<PreparedRequest, CufinderError>)
    ensures
        params.query@.len() == 0 ==> (r matches Err(e)
            && e matches CufinderError::ValidationError(m)
            && m@ == "query is required"@),
        params.query@.len() > 0 ==> (r matches Ok(req)
            && req.path@ == "/fcc"@
            && req.body@ == form_encoding_of(fcc_pairs(*params))),
{
    if params.query.as_str().is_empty() {
        return Err(CufinderError::ValidationError(String::from_str(
            "query is required",
        )));
    }
    let mut pairs: Vec<(String, String)> = Vec::new();
    push_str(&mut pairs, "query", &params.query);
    proof {
        assert(pairs_view(pairs@) =~= fcc_pairs(*params));
    }
    let body = form_encode(&pairs);
    Ok(PreparedRequest { path: String::from_str("/fcc"), body })
}

/// Subsidiaries lookup: the typed result of one exchange, or the error the
/// status, body or shape dictates.
pub fn fcc_handle_response(status: u16, body: &str) -> (r: Result<FccResponse, CufinderError>)
    ensures
        !is_success_status(status) ==> (r matches Err(e) && is_status_error(
            e,
            status,
            body@,
        )),
        is_success_status(status) ==> match json_of(body@) {
            Option::Some(j) => match r {
                Ok(out) => FccResponse::decodable(unwrap_envelope_spec(j))
                    && out.is_decode_of(unwrap_envelope_spec(j)),
                Err(e) => !FccResponse::decodable(unwrap_envelope_spec(j)) && e is JsonError,
            },
            Option::None => (r matches Err(e) && e is JsonError),
        },
{
    let payload = match process_response(status, body) {
        Ok(p) => p,
        Err(e) => {
            return Err(e);
        },
    };
    match decode_fcc_response(&payload) {
        Ok(out) => Ok(out),
        Err(_) => Err(CufinderError::JsonError(String::from_str(
            "response does not match the expected shape",
        ))),
    }
}

/// The pairs the tech-stack lookup sends, in their wire order.
pub open spec fn fts_pairs(p: FtsParams) -> Seq<(Seq<char>, Seq<char>)> {
    seq![("query"@, p.query@)]
}

/// Tech-stack lookup: rejects the first empty required field, in the
/// declared order, naming it; otherwise the prepared request.
pub fn fts_build_request(params: &FtsParams) -> (r: Result<PreparedRequest, CufinderError>)
    ensures
        params.query@.len() == 0 ==> (r matches Err(e)
            && e matches CufinderError::ValidationError(m)
            && m@ == "query is required"@),
        params.query@.len() > 0 ==> (r matches Ok(req)
            && req.path@ == "/fts"@
            && req.body@ == form_encoding_of(fts_pairs(*params))),
{
    if params.query.as_str().is_empty() {
        return Err(CufinderError::ValidationError(String::from_str(
            "query is required",
        )));
    }
    let mut pairs: Vec<(String, String)> = Vec::new();
    push_str(&mut pairs, "query", &params.query);
    proof {
        assert(pairs_view(pairs@) =~= fts_pairs(*params));
    }
    let body = form_encode(&pairs);
    Ok(PreparedRequest { path: String::from_str("/fts"), body })
}

/// Tech-stack lookup: the typed result of one exchange, or the error the
/// status, body or shape dictates.
pub fn fts_handle_response(status: u16, body: &str) -> (r: Result<FtsResponse, CufinderError>)
    ensures
        !is_success_status(status) ==> (r matches Err(e) && is_status_error(
            e,
            status,
            body@,
        )),
        is_success_status(status) ==> match json_of(body@) {
            Option::Some(j) => match r {
                Ok(out) => FtsResponse::decodable(unwrap_envelope_spec(j))
                    && out.is_decode_of(unwrap_envelope_spec(j)),
                Err(e) => !FtsResponse::decodable(unwrap_envelope_spec(j)) && e is JsonError,
            },
            Option::None => (r matches Err(e) && e is JsonError),
        },
{
    let payload = match process_response(status, body) {
        Ok(p) => p,
        Err(e) => {
            return Err(e);
        },
    };
    match decode_fts_response(&payload) {
        Ok(out) => Ok(out),
        Err(_) => Err(CufinderError::JsonError(String::from_str(
            "response does not match the expected shape",
        ))),
    }
}

/// The pairs the profile enrichment sends, in their wire order.
pub open spec fn epp_pairs(p: EppParams) -> Seq<(Seq<char>, Seq<char>)> {
    seq![("linkedin_url"@, p.linkedin_url@)]
}

/// Profile enrichment: rejects the first empty required field, in the
/// declared order, naming it; otherwise the prepared request.
pub fn epp_build_request(params: &EppParams) -> (r: Result<PreparedRequest, CufinderError>)
    ensures
        params.linkedin_url@.len() == 0 ==> (r matches Err(e)
            && e matches CufinderError::ValidationError(m)
            && m@ == "linkedin_url is required"@),
        params.linkedin_url@.len() > 0 ==> (r matches Ok(req)
            && req.path@ == "/epp"@
            && req.body@ == form_encoding_of(epp_pairs(*params))),
{
    if params.linkedin_url.as_str().is_empty() {
        return Err(CufinderError::ValidationError(String::from_str(
            "linkedin_url is required",
        )));
    }
    let mut pairs: Vec<(String, String)> = Vec::new();
    push_str(&mut pairs, "linkedin_url", &params.linkedin_url);
    proof {
        assert(pairs_view(pairs@) =~= epp_pairs(*params));
    }
    let body = form_encode(&pairs);
    Ok(PreparedRequest { path: String::from_str("/epp"), body })
}

/// Profile enrichment: the typed result of one exchange, or the error the
/// status, body or shape dictates.
pub fn epp_handle_response(status: u16, body: &str) -> (r: Result<EppResponse, CufinderError>)
    ensures
        !is_success_status(status) ==> (r matches Err(e) && is_status_error(
            e,
            status,
            body@,
        )),
        is_success_status(status) ==> match json_of(body@) {
            Option::Some(j) => match r {
                Ok(out) => EppResponse::decodable(unwrap_envelope_spec(j))
                    && out.is_decode_of(unwrap_envelope_spec(j)),
                Err(e) => !EppResponse::decodable(unwrap_envelope_spec(j)) && e is JsonError,
            },
            Option::None => (r matches Err(e) && e is JsonError),
        },
{
    let payload = match process_response(status, body) {
        Ok(p) => p,
        Err(e) => {
            return Err(e);
        },
    };
    match decode_epp_response(&payload) {
        Ok(out) => Ok(out),
        Err(_) => Err(CufinderError::JsonError(String::from_str(
            "response does not match the expected shape",
        ))),
    }
}

/// The pairs the work-email lookup sends, in their wire order.
pub open spec fn fwe_pairs(p: FweParams) -> Seq<(Seq<char>, Seq<char>)> {
    seq![("linkedin_url"@, p.linkedin_url@)]
}

/// Work-email lookup: rejects the first empty required field, in the
/// declared order, naming it; otherwise the prepared request.
pub fn fwe_build_request(params: &FweParams) -> (r: Result<PreparedRequest, CufinderError>)
    ensures
        params.linkedin_url@.len() == 0 ==> (r matches Err(e)
            && e matches CufinderError::ValidationError(m)
            && m@ == "linkedin_url is required"@),
        params.linkedin_url@.len() > 0 ==> (r matches Ok(req)
            && req.path@ == "/fwe"@
            && req.body@ == form_encoding_of(fwe_pairs(*params))),
{
    if params.linkedin_url.as_str().is_empty() {
        return Err(CufinderError::ValidationError(String::from_str(
            "linkedin_url is required",
        )));
    }
    let mut pairs: Vec<(String, String)> = Vec::new();
    push_str(&mut pairs, "linkedin_url", &params.linkedin_url);
    proof {
        assert(pairs_view(pairs@) =~= fwe_pairs(*params));
    }
    let body = form_encode(&pairs);
    Ok(PreparedRequest { path: String::from_str("/fwe"), body })
}

/// Work-email lookup: the typed result of one exchange, or the error the
/// status, body or shape dictates.
pub fn fwe_handle_response(status: u16, body: &str) -> (r: Result<FweResponse, CufinderError>)
    ensures
        !is_success_status(status) ==> (r matches Err(e) && is_status_error(
            e,
            status,
            body@,
        )),
        is_success_status(status) ==> match json_of(body@) {
            Option::Some(j) => match r {
                Ok(out) => FweResponse::decodable(unwrap_envelope_spec(j))
                    && out.is_decode_of(unwrap_envelope_spec(j)),
                Err(e) => !FweResponse::decodable(unwrap_envelope_spec(j)) && e is JsonError,
            },
            Option::None => (r matches Err(e) && e is JsonError),
        },
{
    let payload = match process_response(status, body) {
        Ok(p) => p,
        Err(e) => {
            return Err(e);
        },
    };
    match decode_fwe_response(&payload) {
        Ok(out) => Ok(out),
        Err(_) => Err(CufinderError::JsonError(String::from_str(
            "response does not match the expected shape",
        ))),
    }
}

/// The pairs the person enrichment sends, in their wire order.
pub open spec fn tep_pairs(p: TepParams) -> Seq<(Seq<char>, Seq<char>)> {
    seq![("full_name"@, p.full_name@), ("company"@, p.company@)]
}

/// Person enrichment: rejects the first empty required field, in the
/// declared order, naming it; otherwise the prepared request.
pub fn tep_build_request(params: &TepParams) -> (r: Result<PreparedRequest, CufinderError>)
    ensures
        params.full_name@.len() == 0 ==> (r matches Err(e)
            && e matches CufinderError::ValidationError(m)
            && m@ == "full_name is required"@),
        params.full_name@.len() > 0 && params.company@.len() == 0 ==> (r matches Err(e)
            && e matches CufinderError::ValidationError(m)
            && m@ == "company is required"@),
        params.full_name@.len() > 0 && params.company@.len() > 0 ==> (r matches Ok(req)
            && req.path@ == "/tep"@
            && req.body@ == form_encoding_of(tep_pairs(*params))),
{
    if params.full_name.as_str().is_empty() {
        return Err(CufinderError::ValidationError(String::from_str(
            "full_name is required",
        )));
    }
    if params.company.as_str().is_empty() {
        return Err(CufinderError::ValidationError(String::from_str(
            "company is required",
        )));
    }
    let mut pairs: Vec<(String, String)> = Vec::new();
    push_str(&mut pairs, "full_name", &params.full_name);
    push_str(&mut pairs, "company", &params.company);
    proof {
        assert(pairs_view(pairs@) =~= tep_pairs(*params));
    }
    let body = form_encode(&pairs);
    Ok(PreparedRequest { path: String::from_str("/tep"), body })
}

/// Person enrichment: the typed result of one exchange, or the error the
/// status, body or shape dictates.
pub fn tep_handle_response(status: u16, body: &str) -> (r: Result<TepResponse, CufinderError>)
    ensures
        !is_success_status(status) ==> (r matches Err(e) && is_status_error(
            e,
            status,
            body@,
        )),
        is_success_status(status) ==> match json_of(body@) {
            Option::Some(j) => match r {
                Ok(out) => TepResponse::decodable(unwrap_envelope_spec(j))
                    && out.is_decode_of(unwrap_envelope_spec(j)),
                Err(e) => !TepResponse::decodable(unwrap_envelope_spec(j)) && e is JsonError,
            },
            Option::None => (r matches Err(e) && e is JsonError),
        },
{
    let payload = match process_response(status, body) {
        Ok(p) => p,
        Err(e) => {
            return Err(e);
        },
    };
    match decode_tep_response(&payload) {
        Ok(out) => Ok(out),
        Err(_) => Err(CufinderError::JsonError(String::from_str(
            "response does not match the expected shape",
        ))),
    }
}

/// The pairs the company enrichment sends, in their wire order.
pub open spec fn enc_pairs(p: EncParams) -> Seq<(Seq<char>, Seq<char>)> {
    seq![("query"@, p.query@)]
}

/// Company enrichment: rejects the first empty required field, in the
/// declared order, naming it; otherwise the prepared request.
pub fn enc_build_request(params: &EncParams) -> (r: Result<PreparedRequest, CufinderError>)
    ensures
        params.query@.len() == 0 ==> (r matches Err(e)
            && e matches CufinderError::ValidationError(m)
            && m@ == "query is required"@),
        params.query@.len() > 0 ==> (r matches Ok(req)
            && req.path@ == "/enc"@
            && req.body@ == form_encoding_of(enc_pairs(*params))),
{
    if params.query.as_str().is_empty() {
        return Err(CufinderError::ValidationError(String::from_str(
            "query is required",
        )));
    }
    let mut pairs: Vec<(String, String)> = Vec::new();
    push_str(&mut pairs, "query", &params.query);
    proof {
        assert(pairs_view(pairs@) =~= enc_pairs(*params));
    }
    let body = form_encode(&pairs);
    Ok(PreparedRequest { path: String::from_str("/enc"), body })
}

/// Company enrichment: the typed result of one exchange, or the error the
/// status, body or shape dictates.
pub fn enc_handle_response(status: u16, body: &str) -> (r: Result<EncResponse, CufinderError>)
    ensures
        !is_success_status(status) ==> (r matches Err(e) && is_status_error(
            e,
            status,
            body@,
        )),
        is_success_status(status) ==> match json_of(body@) {
            Option::Some(j) => match r {
                Ok(out) => EncResponse::decodable(unwrap_envelope_spec(j))
                    && out.is_decode_of(unwrap_envelope_spec(j)),
                Err(e) => !EncResponse::decodable(unwrap_envelope_spec(j)) && e is JsonError,
            },
            Option::None => (r matches Err(e) && e is JsonError),
        },
{
    let payload = match process_response(status, body) {
        Ok(p) => p,
        Err(e) => {
            return Err(e);
        },
    };
    match decode_enc_response(&payload) {
        Ok(out) => Ok(out),
        Err(_) => Err(CufinderError::JsonError(String::from_str(
            "response does not match the expected shape",
        ))),
    }
}

/// The pairs the employee-countries lookup sends, in their wire order.
pub open spec fn cec_pairs(p: CecParams) -> Seq<(Seq<char>, Seq<char>)> {
    seq![("query"@, p.query@)]
}

/// Employee-countries lookup: rejects the first empty required field, in the
/// declared order, naming it; otherwise the prepared request.
pub fn cec_build_request(params: &CecParams) -> (r: Result<PreparedRequest, CufinderError>)
    ensures
        params.query@.len() == 0 ==> (r matches Err(e)
            && e matches CufinderError::ValidationError(m)
            && m@ == "query is required"@),
        params.query@.len() > 0 ==> (r matches Ok(req)
            && req.path@ == "/cec"@
            && req.body@ == form_encoding_of(cec_pairs(*params))),
{
    if params.query.as_str().is_empty() {
        return Err(CufinderError::ValidationError(String::from_str(
            "query is required",
        )));
    }
    let mut pairs: Vec<(String, String)> = Vec::new();
    push_str(&mut pairs, "query", &params.query);
    proof {
        assert(pairs_view(pairs@) =~= cec_pairs(*params));
    }
    let body = form_encode(&pairs);
    Ok(PreparedRequest { path: String::from_str("/cec"), body })
}

/// Employee-countries lookup: the typed result of one exchange, or the error the
/// status, body or shape dictates.
pub fn cec_handle_response(status: u16, body: &str) -> (r: Result<CecResponse, CufinderError>)
    ensures
        !is_success_status(status) ==> (r matches Err(e) && is_status_error(
            e,
            status,
            body@,
        )),
        is_success_status(status) ==> match json_of(body@) {
            Option::Some(j) => match r {
                Ok(out) => CecResponse::decodable(unwrap_envelope_spec(j))
                    && out.is_decode_of(unwrap_envelope_spec(j)),
                Err(e) => !CecResponse::decodable(unwrap_envelope_spec(j)) && e is JsonError,
            },
            Option::None => (r matches Err(e) && e is JsonError),
        },
{
    let payload = match process_response(status, body) {
        Ok(p) => p,
        Err(e) => {
            return Err(e);
        },
    };
    match decode_cec_response(&payload) {
        Ok(out) => Ok(out),
        Err(_) => Err(CufinderError::JsonError(String::from_str(
            "response does not match the expected shape",
        ))),
    }
}

/// The pairs the company-locations lookup sends, in their wire order.
pub open spec fn clo_pairs(p: CloParams) -> Seq<(Seq<char>, Seq<char>)> {
    seq![("query"@, p.query@)]
}

/// Company-locations lookup: rejects the first empty required field, in the
/// declared order, naming it; otherwise the prepared request.
pub fn clo_build_request(params: &CloParams) -> (r: Result<PreparedRequest, CufinderError>)
    ensures
        params.query@.len() == 0 ==> (r matches Err(e)
            && e matches CufinderError::ValidationError(m)
            && m@ == "query is required"@),
        params.query@.len() > 0 ==> (r matches Ok(req)
            && req.path@ == "/clo"@
            && req.body@ == form_encoding_of(clo_pairs(*params))),
{
    if params.query.as_str().is_empty() {
        return Err(CufinderError::ValidationError(String::from_str(
            "query is required",
        )));
    }
    let mut pairs: Vec<(String, String)> = Vec::new();
    push_str(&mut pairs, "query", &params.query);
    proof {
        assert(pairs_view(pairs@) =~= clo_pairs(*params));
    }
    let body = form_encode(&pairs);
    Ok(PreparedRequest { path: String::from_str("/clo"), body })
}

/// Company-locations lookup: the typed result of one exchange, or the error the
/// status, body or shape dictates.
pub fn clo_handle_response(status: u16, body: &str) -> (r: Result<CloResponse, CufinderError>)
    ensures
        !is_success_status(status) ==> (r matches Err(e) && is_status_error(
            e,
            status,
            body@,
        )),
        is_success_status(status) ==> match json_of(body@) {
            Option::Some(j) => match r {
                Ok(out) => CloResponse::decodable(unwrap_envelope_spec(j))
                    && out.is_decode_of(unwrap_envelope_spec(j)),
                Err(e) => !CloResponse::decodable(unwrap_envelope_spec(j)) && e is JsonError,
            },
            Option::None => (r matches Err(e) && e is JsonError),
        },
{
    let payload = match process_response(status, body) {
        Ok(p) => p,
        Err(e) => {
            return Err(e);
        },
    };
    match decode_clo_response(&payload) {
        Ok(out) => Ok(out),
        Err(_) => Err(CufinderError::JsonError(String::from_str(
            "response does not match the expected shape",
        ))),
    }
}

/// The pairs the b2b-customers extraction sends, in their wire order.
pub open spec fn bcd_pairs(p: BcdParams) -> Seq<(Seq<char>, Seq<char>)> {
    seq![("url"@, p.url@)]
}

/// B2B-customers extraction: rejects the first empty required field, in the
/// declared order, naming it; otherwise the prepared request.
pub fn bcd_build_request(params: &BcdParams) -> (r: Result<PreparedRequest, CufinderError>)
    ensures
        params.url@.len() == 0 ==> (r matches Err(e)
            && e matches CufinderError::ValidationError(m)
            && m@ == "url is required"@),
        params.url@.len() > 0 ==> (r matches Ok(req)
            && req.path@ == "/bcd"@
            && req.body@ == form_encoding_of(bcd_pairs(*params))),
{
    if params.url.as_str().is_empty() {
        return Err(CufinderError::ValidationError(String::from_str(
            "url is required",
        )));
    }
    let mut pairs: Vec<(String, String)> = Vec::new();
    push_str(&mut pairs, "url", &params.url);
    proof {
        assert(pairs_view(pairs@) =~= bcd_pairs(*params));
    }
    let body = form_encode(&pairs);
    Ok(PreparedRequest { path: String::from_str("/bcd"), body })
}

/// B2B-customers extraction: the typed result of one exchange, or the error the
/// status, body or shape dictates.
pub fn bcd_handle_response(status: u16, body: &str) -> (r: Result<BcdResponse, CufinderError>)
    ensures
        !is_success_status(status) ==> (r matches Err(e) && is_status_error(
            e,
            status,
            body@,
        )),
        is_success_status(status) ==> match json_of(body@) {
            Option::Some(j) => match r {
                Ok(out) => BcdResponse::decodable(unwrap_envelope_spec(j))
                    && out.is_decode_of(unwrap_envelope_spec(j)),
                Err(e) => !BcdResponse::decodable(unwrap_envelope_spec(j)) && e is JsonError,
            },
            Option::None => (r matches Err(e) && e is JsonError),
        },
{
    let payload = match process_response(status, body) {
        Ok(p) => p,
        Err(e) => {
            return Err(e);
        },
    };
    match decode_bcd_response(&payload) {
        Ok(out) => Ok(out),
        Err(_) => Err(CufinderError::JsonError(String::from_str(
            "response does not match the expected shape",
        ))),
    }
}

/// The pairs the careers-page finder sends, in their wire order.
pub open spec fn ccp_pairs(p: CcpParams) -> Seq<(Seq<char>, Seq<char>)> {
    seq![("url"@, p.url@)]
}

/// Careers-page finder: rejects the first empty required field, in the
/// declared order, naming it; otherwise the prepared request.
pub fn ccp_build_request(params: &CcpParams) -> (r: Result<PreparedRequest, CufinderError>)
    ensures
        params.url@.len() == 0 ==> (r matches Err(e)
            && e matches CufinderError::ValidationError(m)
            && m@ == "url is required"@),
        params.url@.len() > 0 ==> (r matches Ok(req)
            && req.path@ == "/ccp"@
            && req.body@ == form_encoding_of(ccp_pairs(*params))),
{
    if params.url.as_str().is_empty() {
        return Err(CufinderError::ValidationError(String::from_str(
            "url is required",
        )));
    }
    let mut pairs: Vec<(String, String)> = Vec::new();
    push_str(&mut pairs, "url", &params.url);
    proof {
        assert(pairs_view(pairs@) =~= ccp_pairs(*params));
    }
    let body = form_encode(&pairs);
    Ok(PreparedRequest { path: String::from_str("/ccp"), body })
}

/// Careers-page finder: the typed result of one exchange, or the error the
/// status, body or shape dictates.
pub fn ccp_handle_response(status: u16, body: &str) -> (r: Result<CcpResponse, CufinderError>)
    ensures
        !is_success_status(status) ==> (r matches Err(e) && is_status_error(
            e,
            status,
            body@,
        )),
        is_success_status(status) ==> match json_of(body@) {
            Option::Some(j) => match r {
                Ok(out) => CcpResponse::decodable(unwrap_envelope_spec(j))
                    && out.is_decode_of(unwrap_envelope_spec(j)),
                Err(e) => !CcpResponse::decodable(unwrap_envelope_spec(j)) && e is JsonError,
            },
            Option::None => (r matches Err(e) && e is JsonError),
        },
{
    let payload = match process_response(status, body) {
        Ok(p) => p,
        Err(e) => {
            return Err(e);
        },
    };
    match decode_ccp_response(&payload) {
        Ok(out) => Ok(out),
        Err(_) => Err(CufinderError::JsonError(String::from_str(
            "response does not match the expected shape",
        ))),
    }
}

/// The pairs the saas checker sends, in their wire order.
pub open spec fn isc_pairs(p: IscParams) -> Seq<(Seq<char>, Seq<char>)> {
    seq![("url"@, p.url@)]
}

/// SaaS checker: rejects the first empty required field, in the
/// declared order, naming it; otherwise the prepared request.
pub fn isc_build_request(params: &IscParams) -> (r: Result<PreparedRequest, CufinderError>)
    ensures
        params.url@.len() == 0 ==> (r matches Err(e)
            && e matches CufinderError::ValidationError(m)
            && m@ == "url is required"@),
        params.url@.len() > 0 ==> (r matches Ok(req)
            && req.path@ == "/isc"@
            && req.body@ == form_encoding_of(isc_pairs(*params))),
{
    if params.url.as_str().is_empty() {
        return Err(CufinderError::ValidationError(String::from_str(
            "url is required",
        )));
    }
    let mut pairs: Vec<(String, String)> = Vec::new();
    push_str(&mut pairs, "url", &params.url);
    proof {
        assert(pairs_view(pairs@) =~= isc_pairs(*params));
    }
    let body = form_encode(&pairs);
    Ok(PreparedRequest { path: String::from_str("/isc"), body })
}

/// SaaS checker: the typed result of one exchange, or the error the
/// status, body or shape dictates.
pub fn isc_handle_response(status: u16, body: &str) -> (r: Result<IscResponse, CufinderError>)
    ensures
        !is_success_status(status) ==> (r matches Err(e) && is_status_error(
            e,
            status,
            body@,
        )),
        is_success_status(status) ==> match json_of(body@) {
            Option::Some(j) => match r {
                Ok(out) => IscResponse::decodable(unwrap_envelope_spec(j))
                    && out.is_decode_of(unwrap_envelope_spec(j)),
                Err(e) => !IscResponse::decodable(unwrap_envelope_spec(j)) && e is JsonError,
            },
            Option::None => (r matches Err(e) && e is JsonError),
        },
{
    let payload = match process_response(status, body) {
        Ok(p) => p,
        Err(e) => {
            return Err(e);
        },
    };
    match decode_isc_response(&payload) {
        Ok(out) => Ok(out),
        Err(_) => Err(CufinderError::JsonError(String::from_str(
            "response does not match the expected shape",
        ))),
    }
}

/// The pairs the company search sends: each present filter, in the
/// declared order.
pub open spec fn cse_pairs(p: CseParams) -> Seq<(Seq<char>, Seq<char>)> {
    opt_pair("name"@, opt_string_view(p.name))
        + opt_pair("country"@, opt_string_view(p.country))
        + opt_pair("state"@, opt_string_view(p.state))
        + opt_pair("city"@, opt_string_view(p.city))
        + opt_pair("followers_count_min"@, opt_i32_string(p.followers_count_min))
        + opt_pair("followers_count_max"@, opt_i32_string(p.followers_count_max))
        + opt_pair("industry"@, opt_string_view(p.industry))
        + opt_pair("employee_size"@, opt_string_view(p.employee_size))
        + opt_pair("founded_after_year"@, opt_i32_string(p.founded_after_year))
        + opt_pair("founded_before_year"@, opt_i32_string(p.founded_before_year))
        + opt_pair("funding_amount_max"@, opt_i32_string(p.funding_amount_max))
        + opt_pair("funding_amount_min"@, opt_i32_string(p.funding_amount_min))
        + opt_pair("is_school"@, opt_bool_string(p.is_school))
        + opt_pair("annual_revenue_min"@, opt_i32_string(p.annual_revenue_min))
        + opt_pair("annual_revenue_max"@, opt_i32_string(p.annual_revenue_max))
        + opt_pair("page"@, opt_i32_string(p.page))
}

/// Company search: every filter is optional; a list-valued filter has no
/// form rendering and is rejected as the encoder would.
pub fn cse_build_request(params: &CseParams) -> (r: Result<PreparedRequest, CufinderError>)
    ensures
        params.products_services is Some ==> (r matches Err(e)
            && e matches CufinderError::ValidationError(m)
            && m@ == "Failed to encode form data: unsupported value"@),
        params.products_services is None ==> (r matches Ok(req)
            && req.path@ == "/cse"@
            && req.body@ == form_encoding_of(cse_pairs(*params))),
{
    if params.products_services.is_some() {
        return Err(CufinderError::ValidationError(String::from_str(
            "Failed to encode form data: unsupported value",
        )));
    }
    let mut pairs: Vec<(String, String)> = Vec::new();
    push_opt_str(&mut pairs, "name", &params.name);
    push_opt_str(&mut pairs, "country", &params.country);
    push_opt_str(&mut pairs, "state", &params.state);
    push_opt_str(&mut pairs, "city", &params.city);
    push_opt_i32(&mut pairs, "followers_count_min", &params.followers_count_min);
    push_opt_i32(&mut pairs, "followers_count_max", &params.followers_count_max);
    push_opt_str(&mut pairs, "industry", &params.industry);
    push_opt_str(&mut pairs, "employee_size", &params.employee_size);
    push_opt_i32(&mut pairs, "founded_after_year", &params.founded_after_year);
    push_opt_i32(&mut pairs, "founded_before_year", &params.founded_before_year);
    push_opt_i32(&mut pairs, "funding_amount_max", &params.funding_amount_max);
    push_opt_i32(&mut pairs, "funding_amount_min", &params.funding_amount_min);
    push_opt_bool(&mut pairs, "is_school", &params.is_school);
    push_opt_i32(&mut pairs, "annual_revenue_min", &params.annual_revenue_min);
    push_opt_i32(&mut pairs, "annual_revenue_max", &params.annual_revenue_max);
    push_opt_i32(&mut pairs, "page", &params.page);
    proof {
        assert(pairs_view(pairs@) =~= cse_pairs(*params));
    }
    let body = form_encode(&pairs);
    Ok(PreparedRequest { path: String::from_str("/cse"), body })
}

/// Company search: the typed result of one exchange, or the error the
/// status, body or shape dictates.
pub fn cse_handle_response(status: u16, body: &str) -> (r: Result<CseResponse, CufinderError>)
    ensures
        !is_success_status(status) ==> (r matches Err(e) && is_status_error(
            e,
            status,
            body@,
        )),
        is_success_status(status) ==> match json_of(body@) {
            Option::Some(j) => match r {
                Ok(out) => CseResponse::decodable(unwrap_envelope_spec(j))
                    && out.is_decode_of(unwrap_envelope_spec(j)),
                Err(e) => !CseResponse::decodable(unwrap_envelope_spec(j)) && e is JsonError,
            },
            Option::None => (r matches Err(e) && e is JsonError),
        },
{
    let payload = match process_response(status, body) {
        Ok(p) => p,
        Err(e) => {
            return Err(e);
        },
    };
    match decode_cse_response(&payload) {
        Ok(out) => Ok(out),
        Err(_) => Err(CufinderError::JsonError(String::from_str(
            "response does not match the expected shape",
        ))),
    }
}

/// The pairs the person search sends: each present filter, in the
/// declared order.
pub open spec fn pse_pairs(p: PseParams) -> Seq<(Seq<char>, Seq<char>)> {
    opt_pair("full_name"@, opt_string_view(p.full_name))
        + opt_pair("country"@, opt_string_view(p.country))
        + opt_pair("state"@, opt_string_view(p.state))
        + opt_pair("city"@, opt_string_view(p.city))
        + opt_pair("job_title_role"@, opt_string_view(p.job_title_role))
        + opt_pair("job_title_level"@, opt_string_view(p.job_title_level))
        + opt_pair("company_country"@, opt_string_view(p.company_country))
        + opt_pair("company_state"@, opt_string_view(p.company_state))
        + opt_pair("company_city"@, opt_string_view(p.company_city))
        + opt_pair("company_name"@, opt_string_view(p.company_name))
        + opt_pair("company_linkedin_url"@, opt_string_view(p.company_linkedin_url))
        + opt_pair("company_industry"@, opt_string_view(p.company_industry))
        + opt_pair("company_employee_size"@, opt_string_view(p.company_employee_size))
        + opt_pair("company_annual_revenue_min"@, opt_i32_string(p.company_annual_revenue_min))
        + opt_pair("company_annual_revenue_max"@, opt_i32_string(p.company_annual_revenue_max))
        + opt_pair("page"@, opt_i32_string(p.page))
}

/// Person search: every filter is optional; a list-valued filter has no
/// form rendering and is rejected as the encoder would.
pub fn pse_build_request(params: &PseParams) -> (r: Result<PreparedRequest, CufinderError>)
    ensures
        params.company_products_services is Some ==> (r matches Err(e)
            && e matches CufinderError::ValidationError(m)
            && m@ == "Failed to encode form data: unsupported value"@),
        params.company_products_services is None ==> (r matches Ok(req)
            && req.path@ == "/pse"@
            && req.body@ == form_encoding_of(pse_pairs(*params))),
{
    if params.company_products_services.is_some() {
        return Err(CufinderError::ValidationError(String::from_str(
            "Failed to encode form data: unsupported value",
        )));
    }
    let mut pairs: Vec<(String, String)> = Vec::new();
    push_opt_str(&mut pairs, "full_name", &params.full_name);
    push_opt_str(&mut pairs, "country", &params.country);
    push_opt_str(&mut pairs, "state", &params.state);
    push_opt_str(&mut pairs, "city", &params.city);
    push_opt_str(&mut pairs, "job_title_role", &params.job_title_role);
    push_opt_str(&mut pairs, "job_title_level", &params.job_title_level);
    push_opt_str(&mut pairs, "company_country", &params.company_country);
    push_opt_str(&mut pairs, "company_state", &params.company_state);
    push_opt_str(&mut pairs, "company_city", &params.company_city);
    push_opt_str(&mut pairs, "company_name", &params.company_name);
    push_opt_str(&mut pairs, "company_linkedin_url", &params.company_linkedin_url);
    push_opt_str(&mut pairs, "company_industry", &params.company_industry);
    push_opt_str(&mut pairs, "company_employee_size", &params.company_employee_size);
    push_opt_i32(&mut pairs, "company_annual_revenue_min", &params.company_annual_revenue_min);
    push_opt_i32(&mut pairs, "company_annual_revenue_max", &params.company_annual_revenue_max);
    push_opt_i32(&mut pairs, "page", &params.page);
    proof {
        assert(pairs_view(pairs@) =~= pse_pairs(*params));
    }
    let body = form_encode(&pairs);
    Ok(PreparedRequest { path: String::from_str("/pse"), body })
}

/// Person search: the typed result of one exchange, or the error the
/// status, body or shape dictates.
pub fn pse_handle_response(status: u16, body: &str) -> (r: Result<PseResponse, CufinderError>)
    ensures
        !is_success_status(status) ==> (r matches Err(e) && is_status_error(
            e,
            status,
            body@,
        )),
        is_success_status(status) ==> match json_of(body@) {
            Option::Some(j) => match r {
                Ok(out) => PseResponse::decodable(unwrap_envelope_spec(j))
                    && out.is_decode_of(unwrap_envelope_spec(j)),
                Err(e) => !PseResponse::decodable(unwrap_envelope_spec(j)) && e is JsonError,
            },
            Option::None => (r matches Err(e) && e is JsonError),
        },
{
    let payload = match process_response(status, body) {
        Ok(p) => p,
        Err(e) => {
            return Err(e);
        },
    };
    match decode_pse_response(&payload) {
        Ok(out) => Ok(out),
        Err(_) => Err(CufinderError::JsonError(String::from_str(
            "response does not match the expected shape",
        ))),
    }
}

/// The pairs the local-business search sends: each present filter, in the
/// declared order.
pub open spec fn lbs_pairs(p: LbsParams) -> Seq<(Seq<char>, Seq<char>)> {
    opt_pair("name"@, opt_string_view(p.name))
        + opt_pair("country"@, opt_string_view(p.country))
        + opt_pair("state"@, opt_string_view(p.state))
        + opt_pair("city"@, opt_string_view(p.city))
        + opt_pair("industry"@, opt_string_view(p.industry))
        + opt_pair("page"@, opt_i32_string(p.page))
}

/// Local-business search: every filter is optional, so the request always builds.
pub fn lbs_build_request(params: &LbsParams) -> (r: Result<PreparedRequest, CufinderError>)
    ensures
        r matches Ok(req)
            && req.path@ == "/lbs"@
            && req.body@ == form_encoding_of(lbs_pairs(*params)),
{
    let mut pairs: Vec<(String, String)> = Vec::new();
    push_opt_str(&mut pairs, "name", &params.name);
    push_opt_str(&mut pairs, "country", &params.country);
    push_opt_str(&mut pairs, "state", &params.state);
    push_opt_str(&mut pairs, "city", &params.city);
    push_opt_str(&mut pairs, "industry", &params.industry);
    push_opt_i32(&mut pairs, "page", &params.page);
    proof {
        assert(pairs_view(pairs@) =~= lbs_pairs(*params));
    }
    let body = form_encode(&pairs);
    Ok(PreparedRequest { path: String::from_str("/lbs"), body })
}

/// Local-business search: the typed result of one exchange, or the error the
/// status, body or shape dictates.
pub fn lbs_handle_response(status: u16, body: &str) -> (r: Result<LbsResponse, CufinderError>)
    ensures
        !is_success_status(status) ==> (r matches Err(e) && is_status_error(
            e,
            status,
            body@,
        )),
        is_success_status(status) ==> match json_of(body@) {
            Option::Some(j) => match r {
                Ok(out) => LbsResponse::decodable(unwrap_envelope_spec(j))
                    && out.is_decode_of(unwrap_envelope_spec(j)),
                Err(e) => !LbsResponse::decodable(unwrap_envelope_spec(j)) && e is JsonError,
            },
            Option::None => (r matches Err(e) && e is JsonError),
        },
{
    let payload = match process_response(status, body) {
        Ok(p) => p,
        Err(e) => {
            return Err(e);
        },
    };
    match decode_lbs_response(&payload) {
        Ok(out) => Ok(out),
        Err(_) => Err(CufinderError::JsonError(String::from_str(
            "response does not match the expected shape",
        ))),
    }
}
} // verus!
