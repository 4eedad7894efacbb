//! The typed response of each operation: its shape, the spec of the
//! payload object it decodes from, and its verified decoder.
use crate::decode::{
    is_obj, opt_i32, opt_i64, opt_member, opt_value_view, req_bool, req_string,
    req_string_arr, spec_req_bool,
    spec_opt_i32, spec_opt_i64, spec_opt_member, spec_req_string, spec_req_string_arr,
    strings_view, values_view,
};
use crate::records::{
    decode_clo_location, decode_company, decode_elf_fundraising, decode_enc_company,
    decode_epp_person, decode_fcl_company, decode_person, decode_rel_person,
    decode_tep_person, CloLocation, Company, ElfFundraising, EncCompany, EppPerson,
    FclCompany, Person, RelPerson, TepPerson,
};
use crate::json::{JsonSpec, JsonValue};
use vstd::prelude::*;
use vstd::string::StringExecFns;

verus! {

/// The members every response carries beside its own.
#[derive(Debug)]
pub struct BaseResponse {
    pub query: Option<JsonValue>,
    pub credit_count: Option<i32>,
    pub meta_data: Option<JsonValue>,
    pub confidence_level: Option<i32>,
}

impl BaseResponse {
    /// Whether the members of `j` fit this shape.
    pub open spec fn decodable(j: JsonSpec) -> bool {
        &&& j is Obj
        &&& spec_opt_i32(j, "credit_count"@) is Ok
        &&& spec_opt_i32(j, "confidence_level"@) is Ok
    }

    /// Whether `self` is the decoding of `j`, member for member.
    pub open spec fn is_decode_of(self, j: JsonSpec) -> bool {
        &&& opt_value_view(self.query) == spec_opt_member(j, "query"@)
        &&& spec_opt_i32(j, "credit_count"@) == Ok::<_, ()>(self.credit_count)
        &&& opt_value_view(self.meta_data) == spec_opt_member(j, "meta_data"@)
        &&& spec_opt_i32(j, "confidence_level"@) == Ok::<_, ()>(self.confidence_level)
    }
}

pub fn decode_base_response(v: &JsonValue) -> (r: Result<BaseResponse, ()>)
    ensures
        r matches Ok(out) ==> BaseResponse::decodable(v@) && out.is_decode_of(v@),
        r is Err ==> !BaseResponse::decodable(v@),
{
    if !is_obj(v) {
        return Err(());
    }
    let query = opt_member(v, &String::from_str("query"));
    let credit_count = opt_i32(v, &String::from_str("credit_count"))?;
    let meta_data = opt_member(v, &String::from_str("meta_data"));
    let confidence_level = opt_i32(v, &String::from_str("confidence_level"))?;
    Ok(BaseResponse { query, credit_count, meta_data, confidence_level })
}

/// Every element of the sequence fits the shape.
pub open spec fn all_decodable_fcl_company(items: Seq<JsonSpec>) -> bool {
    forall|i: int| 0 <= i < items.len() ==> #[trigger] FclCompany::decodable(items[i])
}

/// The records decode the elements of the sequence, one for one.
pub open spec fn seq_decode_of_fcl_company(rs: Seq<FclCompany>, items: Seq<JsonSpec>) -> bool {
    rs.len() == items.len() && forall|i: int|
        0 <= i < items.len() ==> #[trigger] rs[i].is_decode_of(items[i])
}

fn decode_fcl_company_vec(items: &Vec<JsonValue>) -> (r: Result<Vec<FclCompany>, ()>)
    ensures
        r matches Ok(rs) ==> all_decodable_fcl_company(values_view(items@)) && seq_decode_of_fcl_company(
            rs@,
            values_view(items@),
        ),
        r is Err ==> !all_decodable_fcl_company(values_view(items@)),
{
    let n = items.len();
    let mut out: Vec<FclCompany> = Vec::new();
    let mut i: usize = 0;
    while i < n
        invariant
            n == items@.len(),
            0 <= i <= n,
            out@.len() == i,
            forall|k: int| 0 <= k < i ==> #[trigger] FclCompany::decodable(values_view(items@)[k]),
            forall|k: int| 0 <= k < i ==> (#[trigger] out@[k]).is_decode_of(
                values_view(items@)[k],
            ),
        decreases n - i,
    {
        match decode_fcl_company(&items[i]) {
            Ok(c) => {
                out.push(c);
            },
            Err(_) => {
                proof {
                    assert(!all_decodable_fcl_company(values_view(items@))) by {
                        assert(values_view(items@)[i as int] == items@[i as int]@);
                    }
                }
                return Err(());
            },
        }
        proof {
            assert(values_view(items@)[i as int] == items@[i as int]@);
        }
        i += 1;
    }
    Ok(out)
}

/// Every element of the sequence fits the shape.
pub open spec fn all_decodable_clo_location(items: Seq<JsonSpec>) -> bool {
    forall|i: int| 0 <= i < items.len() ==> #[trigger] CloLocation::decodable(items[i])
}

/// The records decode the elements of the sequence, one for one.
pub open spec fn seq_decode_of_clo_location(rs: Seq<CloLocation>, items: Seq<JsonSpec>) -> bool {
    rs.len() == items.len() && forall|i: int|
        0 <= i < items.len() ==> #[trigger] rs[i].is_decode_of(items[i])
}

fn decode_clo_location_vec(items: &Vec<JsonValue>) -> (r: Result<Vec<CloLocation>, ()>)
    ensures
        r matches Ok(rs) ==> all_decodable_clo_location(values_view(items@)) && seq_decode_of_clo_location(
            rs@,
            values_view(items@),
        ),
        r is Err ==> !all_decodable_clo_location(values_view(items@)),
{
    let n = items.len();
    let mut out: Vec<CloLocation> = Vec::new();
    let mut i: usize = 0;
    while i < n
        invariant
            n == items@.len(),
            0 <= i <= n,
            out@.len() == i,
            forall|k: int| 0 <= k < i ==> #[trigger] CloLocation::decodable(values_view(items@)[k]),
            forall|k: int| 0 <= k < i ==> (#[trigger] out@[k]).is_decode_of(
                values_view(items@)[k],
            ),
        decreases n - i,
    {
        match decode_clo_location(&items[i]) {
            Ok(c) => {
                out.push(c);
            },
            Err(_) => {
                proof {
                    assert(!all_decodable_clo_location(values_view(items@))) by {
                        assert(values_view(items@)[i as int] == items@[i as int]@);
                    }
                }
                return Err(());
            },
        }
        proof {
            assert(values_view(items@)[i as int] == items@[i as int]@);
        }
        i += 1;
    }
    Ok(out)
}

/// Every element of the sequence fits the shape.
pub open spec fn all_decodable_company(items: Seq<JsonSpec>) -> bool {
    forall|i: int| 0 <= i < items.len() ==> #[trigger] Company::decodable(items[i])
}

/// The records decode the elements of the sequence, one for one.
pub open spec fn seq_decode_of_company(rs: Seq<Company>, items: Seq<JsonSpec>) -> bool {
    rs.len() == items.len() && forall|i: int|
        0 <= i < items.len() ==> #[trigger] rs[i].is_decode_of(items[i])
}

fn decode_company_vec(items: &Vec<JsonValue>) -> (r: Result<Vec<Company>, ()>)
    ensures
        r matches Ok(rs) ==> all_decodable_company(values_view(items@)) && seq_decode_of_company(
            rs@,
            values_view(items@),
        ),
        r is Err ==> !all_decodable_company(values_view(items@)),
{
    let n = items.len();
    let mut out: Vec<Company> = Vec::new();
    let mut i: usize = 0;
    while i < n
        invariant
            n == items@.len(),
            0 <= i <= n,
            out@.len() == i,
            forall|k: int| 0 <= k < i ==> #[trigger] Company::decodable(values_view(items@)[k]),
            forall|k: int| 0 <= k < i ==> (#[trigger] out@[k]).is_decode_of(
                values_view(items@)[k],
            ),
        decreases n - i,
    {
        match decode_company(&items[i]) {
            Ok(c) => {
                out.push(c);
            },
            Err(_) => {
                proof {
                    assert(!all_decodable_company(values_view(items@))) by {
                        assert(values_view(items@)[i as int] == items@[i as int]@);
                    }
                }
                return Err(());
            },
        }
        proof {
            assert(values_view(items@)[i as int] == items@[i as int]@);
        }
        i += 1;
    }
    Ok(out)
}

/// Every element of the sequence fits the shape.
pub open spec fn all_decodable_person(items: Seq<JsonSpec>) -> bool {
    forall|i: int| 0 <= i < items.len() ==> #[trigger] Person::decodable(items[i])
}

/// The records decode the elements of the sequence, one for one.
pub open spec fn seq_decode_of_person(rs: Seq<Person>, items: Seq<JsonSpec>) -> bool {
    rs.len() == items.len() && forall|i: int|
        0 <= i < items.len() ==> #[trigger] rs[i].is_decode_of(items[i])
}

fn decode_person_vec(items: &Vec<JsonValue>) -> (r: Result<Vec<Person>, ()>)
    ensures
        r matches Ok(rs) ==> all_decodable_person(values_view(items@)) && seq_decode_of_person(
            rs@,
            values_view(items@),
        ),
        r is Err ==> !all_decodable_person(values_view(items@)),
{
    let n = items.len();
    let mut out: Vec<Person> = Vec::new();
    let mut i: usize = 0;
    while i < n
        invariant
            n == items@.len(),
            0 <= i <= n,
            out@.len() == i,
            forall|k: int| 0 <= k < i ==> #[trigger] Person::decodable(values_view(items@)[k]),
            forall|k: int| 0 <= k < i ==> (#[trigger] out@[k]).is_decode_of(
                values_view(items@)[k],
            ),
        decreases n - i,
    {
        match decode_person(&items[i]) {
            Ok(c) => {
                out.push(c);
            },
            Err(_) => {
                proof {
                    assert(!all_decodable_person(values_view(items@))) by {
                        assert(values_view(items@)[i as int] == items@[i as int]@);
                    }
                }
                return Err(());
            },
        }
        proof {
            assert(values_view(items@)[i as int] == items@[i as int]@);
        }
        i += 1;
    }
    Ok(out)
}

/// The company-domain lookup result.
#[derive(Debug)]
pub struct CufResponse {
    /// The members shared by every response.
    pub base: BaseResponse,
    pub domain: String,
}

impl CufResponse {
    /// Whether the members of `j` fit this shape.
    pub open spec fn decodable(j: JsonSpec) -> bool {
        &&& BaseResponse::decodable(j)
        &&& spec_req_string(j, "domain"@) is Ok
    }

    /// Whether `self` is the decoding of `j`, member for member.
    pub open spec fn is_decode_of(self, j: JsonSpec) -> bool {
        &&& self.base.is_decode_of(j)
        &&& spec_req_string(j, "domain"@) == Ok::<_, ()>(self.domain@)
    }
}

pub fn decode_cuf_response(v: &JsonValue) -> (r: Result<CufResponse, ()>)
    ensures
        r matches Ok(out) ==> CufResponse::decodable(v@) && out.is_decode_of(v@),
        r is Err ==> !CufResponse::decodable(v@),
{
    let base = decode_base_response(v)?;
    let domain = req_string(v, &String::from_str("domain"))?;
    Ok(CufResponse { base, domain })
}

/// The company-LinkedIn lookup result.
#[derive(Debug)]
pub struct LcufResponse {
    /// The members shared by every response.
    pub base: BaseResponse,
    pub linkedin_url: String,
}

impl LcufResponse {
    /// Whether the members of `j` fit this shape.
    pub open spec fn decodable(j: JsonSpec) -> bool {
        &&& BaseResponse::decodable(j)
        &&& spec_req_string(j, "linkedin_url"@) is Ok
    }

    /// Whether `self` is the decoding of `j`, member for member.
    pub open spec fn is_decode_of(self, j: JsonSpec) -> bool {
        &&& self.base.is_decode_of(j)
        &&& spec_req_string(j, "linkedin_url"@) == Ok::<_, ()>(self.linkedin_url@)
    }
}

pub fn decode_lcuf_response(v: &JsonValue) -> (r: Result<LcufResponse, ()>)
    ensures
        r matches Ok(out) ==> LcufResponse::decodable(v@) && out.is_decode_of(v@),
        r is Err ==> !LcufResponse::decodable(v@),
{
    let base = decode_base_response(v)?;
    let linkedin_url = req_string(v, &String::from_str("linkedin_url"))?;
    Ok(LcufResponse { base, linkedin_url })
}

/// The domain-to-company-name result.
#[derive(Debug)]
pub struct DtcResponse {
    /// The members shared by every response.
    pub base: BaseResponse,
    pub company_name: String,
}

impl DtcResponse {
    /// Whether the members of `j` fit this shape.
    pub open spec fn decodable(j: JsonSpec) -> bool {
        &&& BaseResponse::decodable(j)
        &&& spec_req_string(j, "company_name"@) is Ok
    }

    /// Whether `self` is the decoding of `j`, member for member.
    pub open spec fn is_decode_of(self, j: JsonSpec) -> bool {
        &&& self.base.is_decode_of(j)
        &&& spec_req_string(j, "company_name"@) == Ok::<_, ()>(self.company_name@)
    }
}

pub fn decode_dtc_response(v: &JsonValue) -> (r: Result<DtcResponse, ()>)
    ensures
        r matches Ok(out) ==> DtcResponse::decodable(v@) && out.is_decode_of(v@),
        r is Err ==> !DtcResponse::decodable(v@),
{
    let base = decode_base_response(v)?;
    let company_name = req_string(v, &String::from_str("company_name"))?;
    Ok(DtcResponse { base, company_name })
}

/// The domain-to-emails result.
#[derive(Debug)]
pub struct DteResponse {
    /// The members shared by every response.
    pub base: BaseResponse,
    pub emails: Vec<String>,
}

impl DteResponse {
    /// Whether the members of `j` fit this shape.
    pub open spec fn decodable(j: JsonSpec) -> bool {
        &&& BaseResponse::decodable(j)
        &&& spec_req_string_arr(j, "emails"@) is Ok
    }

    /// Whether `self` is the decoding of `j`, member for member.
    pub open spec fn is_decode_of(self, j: JsonSpec) -> bool {
        &&& self.base.is_decode_of(j)
        &&& spec_req_string_arr(j, "emails"@) == Ok::<_, ()>(strings_view(self.emails@))
    }
}

pub fn decode_dte_response(v: &JsonValue) -> (r: Result<DteResponse, ()>)
    ensures
        r matches Ok(out) ==> DteResponse::decodable(v@) && out.is_decode_of(v@),
        r is Err ==> !DteResponse::decodable(v@),
{
    let base = decode_base_response(v)?;
    let emails = req_string_arr(v, &String::from_str("emails"))?;
    Ok(DteResponse { base, emails })
}

/// The name-to-phones result.
#[derive(Debug)]
pub struct NtpResponse {
    /// The members shared by every response.
    pub base: BaseResponse,
    pub phones: Vec<String>,
}

impl NtpResponse {
    /// Whether the members of `j` fit this shape.
    pub open spec fn decodable(j: JsonSpec) -> bool {
        &&& BaseResponse::decodable(j)
        &&& spec_req_string_arr(j, "phones"@) is Ok
    }

    /// Whether `self` is the decoding of `j`, member for member.
    pub open spec fn is_decode_of(self, j: JsonSpec) -> bool {
        &&& self.base.is_decode_of(j)
        &&& spec_req_string_arr(j, "phones"@) == Ok::<_, ()>(strings_view(self.phones@))
    }
}

pub fn decode_ntp_response(v: &JsonValue) -> (r: Result<NtpResponse, ()>)
    ensures
        r matches Ok(out) ==> NtpResponse::decodable(v@) && out.is_decode_of(v@),
        r is Err ==> !NtpResponse::decodable(v@),
{
    let base = decode_base_response(v)?;
    let phones = req_string_arr(v, &String::from_str("phones"))?;
    Ok(NtpResponse { base, phones })
}

/// The reverse email lookup result.
#[derive(Debug)]
pub struct RelResponse {
    /// The members shared by every response.
    pub base: BaseResponse,
    pub person: RelPerson,
}

impl RelResponse {
    /// Whether the members of `j` fit this shape.
    pub open spec fn decodable(j: JsonSpec) -> bool {
        &&& BaseResponse::decodable(j)
        &&& (j.get("person"@) matches Option::Some(x) && RelPerson::decodable(x))
    }

    /// Whether `self` is the decoding of `j`, member for member.
    pub open spec fn is_decode_of(self, j: JsonSpec) -> bool {
        &&& self.base.is_decode_of(j)
        &&& (j.get("person"@) matches Option::Some(x) && self.person.is_decode_of(x))
    }
}

pub fn decode_rel_response(v: &JsonValue) -> (r: Result<RelResponse, ()>)
    ensures
        r matches Ok(out) ==> RelResponse::decodable(v@) && out.is_decode_of(v@),
        r is Err ==> !RelResponse::decodable(v@),
{
    let base = decode_base_response(v)?;
    let person = match v.get(&String::from_str("person")) {
        Some(x) => decode_rel_person(x)?,
        None => {
            return Err(());
        },
    };
    Ok(RelResponse { base, person })
}

/// The lookalike-companies result.
#[derive(Debug)]
pub struct FclResponse {
    /// The members shared by every response.
    pub base: BaseResponse,
    pub companies: Vec<FclCompany>,
}

impl FclResponse {
    /// Whether the members of `j` fit this shape.
    pub open spec fn decodable(j: JsonSpec) -> bool {
        &&& BaseResponse::decodable(j)
        &&& (j.get("companies"@) matches Option::Some(JsonSpec::Arr(items)) && all_decodable_fcl_company(
            items,
        ))
    }

    /// Whether `self` is the decoding of `j`, member for member.
    pub open spec fn is_decode_of(self, j: JsonSpec) -> bool {
        &&& self.base.is_decode_of(j)
        &&& (j.get("companies"@) matches Option::Some(JsonSpec::Arr(items)) && seq_decode_of_fcl_company(
            self.companies@,
            items,
        ))
    }
}

pub fn decode_fcl_response(v: &JsonValue) -> (r: Result<FclResponse, ()>)
    ensures
        r matches Ok(out) ==> FclResponse::decodable(v@) && out.is_decode_of(v@),
        r is Err ==> !FclResponse::decodable(v@),
{
    let base = decode_base_response(v)?;
    let companies = match v.get(&String::from_str("companies")) {
        Some(x) => match x {
            JsonValue::Arr(items) => {
                proof {
                    assert(x@->Arr_0 =~= values_view(items@));
                }
                decode_fcl_company_vec(items)?
            },
            _ => {
                return Err(());
            },
        },
        None => {
            return Err(());
        },
    };
    Ok(FclResponse { base, companies })
}

/// The fundraising lookup result.
#[derive(Debug)]
pub struct ElfResponse {
    /// The members shared by every response.
    pub base: BaseResponse,
    pub fundraising: ElfFundraising,
}

impl ElfResponse {
    /// Whether the members of `j` fit this shape.
    pub open spec fn decodable(j: JsonSpec) -> bool {
        &&& BaseResponse::decodable(j)
        &&& (j.get("fundraising_info"@) matches Option::Some(x) && ElfFundraising::decodable(x))
    }

    /// Whether `self` is the decoding of `j`, member for member.
    pub open spec fn is_decode_of(self, j: JsonSpec) -> bool {
        &&& self.base.is_decode_of(j)
        &&& (j.get("fundraising_info"@) matches Option::Some(x) && self.fundraising.is_decode_of(x))
    }
}

pub fn decode_elf_response(v: &JsonValue) -> (r: Result<ElfResponse, ()>)
    ensures
        r matches Ok(out) ==> ElfResponse::decodable(v@) && out.is_decode_of(v@),
        r is Err ==> !ElfResponse::decodable(v@),
{
    let base = decode_base_response(v)?;
    let fundraising = match v.get(&String::from_str("fundraising_info")) {
        Some(x) => decode_elf_fundraising(x)?,
        None => {
            return Err(());
        },
    };
    Ok(ElfResponse { base, fundraising })
}

/// The revenue lookup result.
#[derive(Debug)]
pub struct CarResponse {
    /// The members shared by every response.
    pub base: BaseResponse,
    pub revenue: String,
}

impl CarResponse {
    /// Whether the members of `j` fit this shape.
    pub open spec fn decodable(j: JsonSpec) -> bool {
        &&& BaseResponse::decodable(j)
        &&& spec_req_string(j, "annual_revenue"@) is Ok
    }

    /// Whether `self` is the decoding of `j`, member for member.
    pub open spec fn is_decode_of(self, j: JsonSpec) -> bool {
        &&& self.base.is_decode_of(j)
        &&& spec_req_string(j, "annual_revenue"@) == Ok::<_, ()>(self.revenue@)
    }
}

pub fn decode_car_response(v: &JsonValue) -> (r: Result<CarResponse, ()>)
    ensures
        r matches Ok(out) ==> CarResponse::decodable(v@) && out.is_decode_of(v@),
        r is Err ==> !CarResponse::decodable(v@),
{
    let base = decode_base_response(v)?;
    let revenue = req_string(v, &String::from_str("annual_revenue"))?;
    Ok(CarResponse { base, revenue })
}

/// The subsidiaries lookup result.
#[derive(Debug)]
pub struct FccResponse {
    /// The members shared by every response.
    pub base: BaseResponse,
    pub subsidiaries: Vec<String>,
}

impl FccResponse {
    /// Whether the members of `j` fit this shape.
    pub open spec fn decodable(j: JsonSpec) -> bool {
        &&& BaseResponse::decodable(j)
        &&& spec_req_string_arr(j, "subsidiaries"@) is Ok
    }

    /// Whether `self` is the decoding of `j`, member for member.
    pub open spec fn is_decode_of(self, j: JsonSpec) -> bool {
        &&& self.base.is_decode_of(j)
        &&& spec_req_string_arr(j, "subsidiaries"@) == Ok::<_, ()>(strings_view(self.subsidiaries@))
    }
}

pub fn decode_fcc_response(v: &JsonValue) -> (r: Result<FccResponse, ()>)
    ensures
        r matches Ok(out) ==> FccResponse::decodable(v@) && out.is_decode_of(v@),
        r is Err ==> !FccResponse::decodable(v@),
{
    let base = decode_base_response(v)?;
    let subsidiaries = req_string_arr(v, &String::from_str("subsidiaries"))?;
    Ok(FccResponse { base, subsidiaries })
}

/// The tech-stack lookup result.
#[derive(Debug)]
pub struct FtsResponse {
    /// The members shared by every response.
    pub base: BaseResponse,
    pub technologies: Vec<String>,
}

impl FtsResponse {
    /// Whether the members of `j` fit this shape.
    pub open spec fn decodable(j: JsonSpec) -> bool {
        &&& BaseResponse::decodable(j)
        &&& spec_req_string_arr(j, "technologies"@) is Ok
    }

    /// Whether `self` is the decoding of `j`, member for member.
    pub open spec fn is_decode_of(self, j: JsonSpec) -> bool {
        &&& self.base.is_decode_of(j)
        &&& spec_req_string_arr(j, "technologies"@) == Ok::<_, ()>(strings_view(self.technologies@))
    }
}

pub fn decode_fts_response(v: &JsonValue) -> (r: Result<FtsResponse, ()>)
    ensures
        r matches Ok(out) ==> FtsResponse::decodable(v@) && out.is_decode_of(v@),
        r is Err ==> !FtsResponse::decodable(v@),
{
    let base = decode_base_response(v)?;
    let technologies = req_string_arr(v, &String::from_str("technologies"))?;
    Ok(FtsResponse { base, technologies })
}

/// The profile enrichment result.
#[derive(Debug)]
pub struct EppResponse {
    /// The members shared by every response.
    pub base: BaseResponse,
    pub person: EppPerson,
}

impl EppResponse {
    /// Whether the members of `j` fit this shape.
    pub open spec fn decodable(j: JsonSpec) -> bool {
        &&& BaseResponse::decodable(j)
        &&& (j.get("person"@) matches Option::Some(x) && EppPerson::decodable(x))
    }

    /// Whether `self` is the decoding of `j`, member for member.
    pub open spec fn is_decode_of(self, j: JsonSpec) -> bool {
        &&& self.base.is_decode_of(j)
        &&& (j.get("person"@) matches Option::Some(x) && self.person.is_decode_of(x))
    }
}

pub fn decode_epp_response(v: &JsonValue) -> (r: Result<EppResponse, ()>)
    ensures
        r matches Ok(out) ==> EppResponse::decodable(v@) && out.is_decode_of(v@),
        r is Err ==> !EppResponse::decodable(v@),
{
    let base = decode_base_response(v)?;
    let person = match v.get(&String::from_str("person")) {
        Some(x) => decode_epp_person(x)?,
        None => {
            return Err(());
        },
    };
    Ok(EppResponse { base, person })
}

/// The work-email lookup result.
#[derive(Debug)]
pub struct FweResponse {
    /// The members shared by every response.
    pub base: BaseResponse,
    pub email: String,
}

impl FweResponse {
    /// Whether the members of `j` fit this shape.
    pub open spec fn decodable(j: JsonSpec) -> bool {
        &&& BaseResponse::decodable(j)
        &&& spec_req_string(j, "work_email"@) is Ok
    }

    /// Whether `self` is the decoding of `j`, member for member.
    pub open spec fn is_decode_of(self, j: JsonSpec) -> bool {
        &&& self.base.is_decode_of(j)
        &&& spec_req_string(j, "work_email"@) == Ok::<_, ()>(self.email@)
    }
}

pub fn decode_fwe_response(v: &JsonValue) -> (r: Result<FweResponse, ()>)
    ensures
        r matches Ok(out) ==> FweResponse::decodable(v@) && out.is_decode_of(v@),
        r is Err ==> !FweResponse::decodable(v@),
{
    let base = decode_base_response(v)?;
    let email = req_string(v, &String::from_str("work_email"))?;
    Ok(FweResponse { base, email })
}

/// The person enrichment result.
#[derive(Debug)]
pub struct TepResponse {
    /// The members shared by every response.
    pub base: BaseResponse,
    pub person: TepPerson,
}

impl TepResponse {
    /// Whether the members of `j` fit this shape.
    pub open spec fn decodable(j: JsonSpec) -> bool {
        &&& BaseResponse::decodable(j)
        &&& (j.get("person"@) matches Option::Some(x) && TepPerson::decodable(x))
    }

    /// Whether `self` is the decoding of `j`, member for member.
    pub open spec fn is_decode_of(self, j: JsonSpec) -> bool {
        &&& self.base.is_decode_of(j)
        &&& (j.get("person"@) matches Option::Some(x) && self.person.is_decode_of(x))
    }
}

pub fn decode_tep_response(v: &JsonValue) -> (r: Result<TepResponse, ()>)
    ensures
        r matches Ok(out) ==> TepResponse::decodable(v@) && out.is_decode_of(v@),
        r is Err ==> !TepResponse::decodable(v@),
{
    let base = decode_base_response(v)?;
    let person = match v.get(&String::from_str("person")) {
        Some(x) => decode_tep_person(x)?,
        None => {
            return Err(());
        },
    };
    Ok(TepResponse { base, person })
}

/// The company enrichment result.
#[derive(Debug)]
pub struct EncResponse {
    /// The members shared by every response.
    pub base: BaseResponse,
    pub company: EncCompany,
}

impl EncResponse {
    /// Whether the members of `j` fit this shape.
    pub open spec fn decodable(j: JsonSpec) -> bool {
        &&& BaseResponse::decodable(j)
        &&& (j.get("company"@) matches Option::Some(x) && EncCompany::decodable(x))
    }

    /// Whether `self` is the decoding of `j`, member for member.
    pub open spec fn is_decode_of(self, j: JsonSpec) -> bool {
        &&& self.base.is_decode_of(j)
        &&& (j.get("company"@) matches Option::Some(x) && self.company.is_decode_of(x))
    }
}

pub fn decode_enc_response(v: &JsonValue) -> (r: Result<EncResponse, ()>)
    ensures
        r matches Ok(out) ==> EncResponse::decodable(v@) && out.is_decode_of(v@),
        r is Err ==> !EncResponse::decodable(v@),
{
    let base = decode_base_response(v)?;
    let company = match v.get(&String::from_str("company")) {
        Some(x) => decode_enc_company(x)?,
        None => {
            return Err(());
        },
    };
    Ok(EncResponse { base, company })
}

/// The employee-countries result.
#[derive(Debug)]
pub struct CecResponse {
    /// The members shared by every response.
    pub base: BaseResponse,
    pub countries: JsonValue,
}

impl CecResponse {
    /// Whether the members of `j` fit this shape.
    pub open spec fn decodable(j: JsonSpec) -> bool {
        &&& BaseResponse::decodable(j)
        &&& j.get("countries"@) is Some
    }

    /// Whether `self` is the decoding of `j`, member for member.
    pub open spec fn is_decode_of(self, j: JsonSpec) -> bool {
        &&& self.base.is_decode_of(j)
        &&& j.get("countries"@) == Some(self.countries@)
    }
}

pub fn decode_cec_response(v: &JsonValue) -> (r: Result<CecResponse, ()>)
    ensures
        r matches Ok(out) ==> CecResponse::decodable(v@) && out.is_decode_of(v@),
        r is Err ==> !CecResponse::decodable(v@),
{
    let base = decode_base_response(v)?;
    let countries = match v.get(&String::from_str("countries")) {
        Some(x) => x.duplicate(),
        None => {
            return Err(());
        },
    };
    Ok(CecResponse { base, countries })
}

/// The company-locations result.
#[derive(Debug)]
pub struct CloResponse {
    /// The members shared by every response.
    pub base: BaseResponse,
    pub locations: Vec<CloLocation>,
}

impl CloResponse {
    /// Whether the members of `j` fit this shape.
    pub open spec fn decodable(j: JsonSpec) -> bool {
        &&& BaseResponse::decodable(j)
        &&& (j.get("locations"@) matches Option::Some(JsonSpec::Arr(items)) && all_decodable_clo_location(
            items,
        ))
    }

    /// Whether `self` is the decoding of `j`, member for member.
    pub open spec fn is_decode_of(self, j: JsonSpec) -> bool {
        &&& self.base.is_decode_of(j)
        &&& (j.get("locations"@) matches Option::Some(JsonSpec::Arr(items)) && seq_decode_of_clo_location(
            self.locations@,
            items,
        ))
    }
}

pub fn decode_clo_response(v: &JsonValue) -> (r: Result<CloResponse, ()>)
    ensures
        r matches Ok(out) ==> CloResponse::decodable(v@) && out.is_decode_of(v@),
        r is Err ==> !CloResponse::decodable(v@),
{
    let base = decode_base_response(v)?;
    let locations = match v.get(&String::from_str("locations")) {
        Some(x) => match x {
            JsonValue::Arr(items) => {
                proof {
                    assert(x@->Arr_0 =~= values_view(items@));
                }
                decode_clo_location_vec(items)?
            },
            _ => {
                return Err(());
            },
        },
        None => {
            return Err(());
        },
    };
    Ok(CloResponse { base, locations })
}

/// The B2B-customers extraction result.
#[derive(Debug)]
pub struct BcdResponse {
    /// The members shared by every response.
    pub base: BaseResponse,
    pub customers: Vec<String>,
}

impl BcdResponse {
    /// Whether the members of `j` fit this shape.
    pub open spec fn decodable(j: JsonSpec) -> bool {
        &&& BaseResponse::decodable(j)
        &&& spec_req_string_arr(j, "customers"@) is Ok
    }

    /// Whether `self` is the decoding of `j`, member for member.
    pub open spec fn is_decode_of(self, j: JsonSpec) -> bool {
        &&& self.base.is_decode_of(j)
        &&& spec_req_string_arr(j, "customers"@) == Ok::<_, ()>(strings_view(self.customers@))
    }
}

pub fn decode_bcd_response(v: &JsonValue) -> (r: Result<BcdResponse, ()>)
    ensures
        r matches Ok(out) ==> BcdResponse::decodable(v@) && out.is_decode_of(v@),
        r is Err ==> !BcdResponse::decodable(v@),
{
    let base = decode_base_response(v)?;
    let customers = req_string_arr(v, &String::from_str("customers"))?;
    Ok(BcdResponse { base, customers })
}

/// The careers-page finder result.
#[derive(Debug)]
pub struct CcpResponse {
    /// The members shared by every response.
    pub base: BaseResponse,
    pub careers_page: String,
}

impl CcpResponse {
    /// Whether the members of `j` fit this shape.
    pub open spec fn decodable(j: JsonSpec) -> bool {
        &&& BaseResponse::decodable(j)
        &&& spec_req_string(j, "careers_page"@) is Ok
    }

    /// Whether `self` is the decoding of `j`, member for member.
    pub open spec fn is_decode_of(self, j: JsonSpec) -> bool {
        &&& self.base.is_decode_of(j)
        &&& spec_req_string(j, "careers_page"@) == Ok::<_, ()>(self.careers_page@)
    }
}

pub fn decode_ccp_response(v: &JsonValue) -> (r: Result<CcpResponse, ()>)
    ensures
        r matches Ok(out) ==> CcpResponse::decodable(v@) && out.is_decode_of(v@),
        r is Err ==> !CcpResponse::decodable(v@),
{
    let base = decode_base_response(v)?;
    let careers_page = req_string(v, &String::from_str("careers_page"))?;
    Ok(CcpResponse { base, careers_page })
}

/// The SaaS checker result.
#[derive(Debug)]
pub struct IscResponse {
    /// The members shared by every response.
    pub base: BaseResponse,
    pub saas: bool,
}

impl IscResponse {
    /// Whether the members of `j` fit this shape.
    pub open spec fn decodable(j: JsonSpec) -> bool {
        &&& BaseResponse::decodable(j)
        &&& spec_req_bool(j, "saas"@) is Ok
    }

    /// Whether `self` is the decoding of `j`, member for member.
    pub open spec fn is_decode_of(self, j: JsonSpec) -> bool {
        &&& self.base.is_decode_of(j)
        &&& spec_req_bool(j, "saas"@) == Ok::<_, ()>(self.saas)
    }
}

pub fn decode_isc_response(v: &JsonValue) -> (r: Result<IscResponse, ()>)
    ensures
        r matches Ok(out) ==> IscResponse::decodable(v@) && out.is_decode_of(v@),
        r is Err ==> !IscResponse::decodable(v@),
{
    let base = decode_base_response(v)?;
    let saas = req_bool(v, &String::from_str("saas"))?;
    Ok(IscResponse { base, saas })
}

/// One page of company search results.
#[derive(Debug)]
pub struct CseResponse {
    /// The members shared by every response.
    pub base: BaseResponse,
    pub companies: Vec<Company>,
    pub total_results: Option<i64>,
    pub page: Option<i64>,
}

impl CseResponse {
    /// Whether the members of `j` fit this shape.
    pub open spec fn decodable(j: JsonSpec) -> bool {
        &&& BaseResponse::decodable(j)
        &&& (j.get("companies"@) matches Option::Some(JsonSpec::Arr(items)) && all_decodable_company(
            items,
        ))
        &&& spec_opt_i64(j, "total_results"@) is Ok
        &&& spec_opt_i64(j, "page"@) is Ok
    }

    /// Whether `self` is the decoding of `j`, member for member.
    pub open spec fn is_decode_of(self, j: JsonSpec) -> bool {
        &&& self.base.is_decode_of(j)
        &&& (j.get("companies"@) matches Option::Some(JsonSpec::Arr(items)) && seq_decode_of_company(
            self.companies@,
            items,
        ))
        &&& spec_opt_i64(j, "total_results"@) == Ok::<_, ()>(self.total_results)
        &&& spec_opt_i64(j, "page"@) == Ok::<_, ()>(self.page)
    }
}

pub fn decode_cse_response(v: &JsonValue) -> (r: Result<CseResponse, ()>)
    ensures
        r matches Ok(out) ==> CseResponse::decodable(v@) && out.is_decode_of(v@),
        r is Err ==> !CseResponse::decodable(v@),
{
    let base = decode_base_response(v)?;
    let companies = match v.get(&String::from_str("companies")) {
        Some(x) => match x {
            JsonValue::Arr(items) => {
                proof {
                    assert(x@->Arr_0 =~= values_view(items@));
                }
                decode_company_vec(items)?
            },
            _ => {
                return Err(());
            },
        },
        None => {
            return Err(());
        },
    };
    let total_results = opt_i64(v, &String::from_str("total_results"))?;
    let page = opt_i64(v, &String::from_str("page"))?;
    Ok(CseResponse { base, companies, total_results, page })
}

/// One page of person search results.
#[derive(Debug)]
pub struct PseResponse {
    /// The members shared by every response.
    pub base: BaseResponse,
    pub peoples: Vec<Person>,
    pub total_results: Option<i64>,
    pub page: Option<i64>,
}

impl PseResponse {
    /// Whether the members of `j` fit this shape.
    pub open spec fn decodable(j: JsonSpec) -> bool {
        &&& BaseResponse::decodable(j)
        &&& (j.get("peoples"@) matches Option::Some(JsonSpec::Arr(items)) && all_decodable_person(
            items,
        ))
        &&& spec_opt_i64(j, "total_results"@) is Ok
        &&& spec_opt_i64(j, "page"@) is Ok
    }

    /// Whether `self` is the decoding of `j`, member for member.
    pub open spec fn is_decode_of(self, j: JsonSpec) -> bool {
        &&& self.base.is_decode_of(j)
        &&& (j.get("peoples"@) matches Option::Some(JsonSpec::Arr(items)) && seq_decode_of_person(
            self.peoples@,
            items,
        ))
        &&& spec_opt_i64(j, "total_results"@) == Ok::<_, ()>(self.total_results)
        &&& spec_opt_i64(j, "page"@) == Ok::<_, ()>(self.page)
    }
}

pub fn decode_pse_response(v: &JsonValue) -> (r: Result<PseResponse, ()>)
    ensures
        r matches Ok(out) ==> PseResponse::decodable(v@) && out.is_decode_of(v@),
        r is Err ==> !PseResponse::decodable(v@),
{
    let base = decode_base_response(v)?;
    let peoples = match v.get(&String::from_str("peoples")) {
        Some(x) => match x {
            JsonValue::Arr(items) => {
                proof {
                    assert(x@->Arr_0 =~= values_view(items@));
                }
                decode_person_vec(items)?
            },
            _ => {
                return Err(());
            },
        },
        None => {
            return Err(());
        },
    };
    let total_results = opt_i64(v, &String::from_str("total_results"))?;
    let page = opt_i64(v, &String::from_str("page"))?;
    Ok(PseResponse { base, peoples, total_results, page })
}

/// One page of local-business search results.
#[derive(Debug)]
pub struct LbsResponse {
    /// The members shared by every response.
    pub base: BaseResponse,
    pub companies: Vec<Company>,
    pub total_results: Option<i64>,
    pub page: Option<i64>,
}

impl LbsResponse {
    /// Whether the members of `j` fit this shape.
    pub open spec fn decodable(j: JsonSpec) -> bool {
        &&& BaseResponse::decodable(j)
        &&& (j.get("companies"@) matches Option::Some(JsonSpec::Arr(items)) && all_decodable_company(
            items,
        ))
        &&& spec_opt_i64(j, "total_results"@) is Ok
        &&& spec_opt_i64(j, "page"@) is Ok
    }

    /// Whether `self` is the decoding of `j`, member for member.
    pub open spec fn is_decode_of(self, j: JsonSpec) -> bool {
        &&& self.base.is_decode_of(j)
        &&& (j.get("companies"@) matches Option::Some(JsonSpec::Arr(items)) && seq_decode_of_company(
            self.companies@,
            items,
        ))
        &&& spec_opt_i64(j, "total_results"@) == Ok::<_, ()>(self.total_results)
        &&& spec_opt_i64(j, "page"@) == Ok::<_, ()>(self.page)
    }
}

pub fn decode_lbs_response(v: &JsonValue) -> (r: Result<LbsResponse, ()>)
    ensures
        r matches Ok(out) ==> LbsResponse::decodable(v@) && out.is_decode_of(v@),
        r is Err ==> !LbsResponse::decodable(v@),
{
    let base = decode_base_response(v)?;
    let companies = match v.get(&String::from_str("companies")) {
        Some(x) => match x {
            JsonValue::Arr(items) => {
                proof {
                    assert(x@->Arr_0 =~= values_view(items@));
                }
                decode_company_vec(items)?
            },
            _ => {
                return Err(());
            },
        },
        None => {
            return Err(());
        },
    };
    let total_results = opt_i64(v, &String::from_str("total_results"))?;
    let page = opt_i64(v, &String::from_str("page"))?;
    Ok(LbsResponse { base, companies, total_results, page })
}
} // verus!
