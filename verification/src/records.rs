//! The record shapes the vendor nests inside its responses, each with
//! the spec of what object it decodes from and its verified decoder.
use crate::decode::{
    is_obj, opt_i32, opt_member, opt_string, opt_string_arr, opt_strings_view,
    opt_value_arr, opt_value_view, opt_values_view, opt_string_view, spec_opt_i32,
    spec_opt_member, spec_opt_string, spec_opt_string_arr, spec_opt_value_arr,
};
use crate::json::{JsonSpec, JsonValue};
use vstd::prelude::*;
use vstd::string::StringExecFns;

verus! {

/// The social-media links of a company.
#[derive(Debug)]
pub struct CompanySocial {
    pub facebook: Option<String>,
    pub linkedin: Option<String>,
    pub twitter: Option<String>,
    pub youtube: Option<String>,
    pub instagram: Option<String>,
}

impl CompanySocial {
    /// Whether the members of `j` fit this shape.
    pub open spec fn decodable(j: JsonSpec) -> bool {
        &&& j is Obj
        &&& spec_opt_string(j, "facebook"@) is Ok
        &&& spec_opt_string(j, "linkedin"@) is Ok
        &&& spec_opt_string(j, "twitter"@) is Ok
        &&& spec_opt_string(j, "youtube"@) is Ok
        &&& spec_opt_string(j, "instagram"@) is Ok
    }

    /// Whether `self` is the decoding of `j`, member for member.
    pub open spec fn is_decode_of(self, j: JsonSpec) -> bool {
        &&& spec_opt_string(j, "facebook"@) == Ok::<_, ()>(opt_string_view(self.facebook))
        &&& spec_opt_string(j, "linkedin"@) == Ok::<_, ()>(opt_string_view(self.linkedin))
        &&& spec_opt_string(j, "twitter"@) == Ok::<_, ()>(opt_string_view(self.twitter))
        &&& spec_opt_string(j, "youtube"@) == Ok::<_, ()>(opt_string_view(self.youtube))
        &&& spec_opt_string(j, "instagram"@) == Ok::<_, ()>(opt_string_view(self.instagram))
    }
}

pub fn decode_company_social(v: &JsonValue) -> (r: Result<CompanySocial, ()>)
    ensures
        r matches Ok(out) ==> CompanySocial::decodable(v@) && out.is_decode_of(v@),
        r is Err ==> !CompanySocial::decodable(v@),
{
    if !is_obj(v) {
        return Err(());
    }
    let facebook = opt_string(v, &String::from_str("facebook"))?;
    let linkedin = opt_string(v, &String::from_str("linkedin"))?;
    let twitter = opt_string(v, &String::from_str("twitter"))?;
    let youtube = opt_string(v, &String::from_str("youtube"))?;
    let instagram = opt_string(v, &String::from_str("instagram"))?;
    Ok(CompanySocial { facebook, linkedin, twitter, youtube, instagram })
}

/// The employee headcount of a company.
#[derive(Debug)]
pub struct CompanyEmployees {
    pub range: Option<String>,
    pub count: Option<i32>,
}

impl CompanyEmployees {
    /// Whether the members of `j` fit this shape.
    pub open spec fn decodable(j: JsonSpec) -> bool {
        &&& j is Obj
        &&& spec_opt_string(j, "range"@) is Ok
        &&& spec_opt_i32(j, "count"@) is Ok
    }

    /// Whether `self` is the decoding of `j`, member for member.
    pub open spec fn is_decode_of(self, j: JsonSpec) -> bool {
        &&& spec_opt_string(j, "range"@) == Ok::<_, ()>(opt_string_view(self.range))
        &&& spec_opt_i32(j, "count"@) == Ok::<_, ()>(self.count)
    }
}

pub fn decode_company_employees(v: &JsonValue) -> (r: Result<CompanyEmployees, ()>)
    ensures
        r matches Ok(out) ==> CompanyEmployees::decodable(v@) && out.is_decode_of(v@),
        r is Err ==> !CompanyEmployees::decodable(v@),
{
    if !is_obj(v) {
        return Err(());
    }
    let range = opt_string(v, &String::from_str("range"))?;
    let count = opt_i32(v, &String::from_str("count"))?;
    Ok(CompanyEmployees { range, count })
}

/// A company's main location.
#[derive(Debug)]
pub struct MainLocation {
    pub geo: Option<String>,
    pub country: Option<String>,
    pub state: Option<String>,
    pub city: Option<String>,
    pub address: Option<String>,
    pub continent: Option<String>,
    pub postal_code: Option<String>,
}

impl MainLocation {
    /// Whether the members of `j` fit this shape.
    pub open spec fn decodable(j: JsonSpec) -> bool {
        &&& j is Obj
        &&& spec_opt_string(j, "geo"@) is Ok
        &&& spec_opt_string(j, "country"@) is Ok
        &&& spec_opt_string(j, "state"@) is Ok
        &&& spec_opt_string(j, "city"@) is Ok
        &&& spec_opt_string(j, "address"@) is Ok
        &&& spec_opt_string(j, "continent"@) is Ok
        &&& spec_opt_string(j, "postal_code"@) is Ok
    }

    /// Whether `self` is the decoding of `j`, member for member.
    pub open spec fn is_decode_of(self, j: JsonSpec) -> bool {
        &&& spec_opt_string(j, "geo"@) == Ok::<_, ()>(opt_string_view(self.geo))
        &&& spec_opt_string(j, "country"@) == Ok::<_, ()>(opt_string_view(self.country))
        &&& spec_opt_string(j, "state"@) == Ok::<_, ()>(opt_string_view(self.state))
        &&& spec_opt_string(j, "city"@) == Ok::<_, ()>(opt_string_view(self.city))
        &&& spec_opt_string(j, "address"@) == Ok::<_, ()>(opt_string_view(self.address))
        &&& spec_opt_string(j, "continent"@) == Ok::<_, ()>(opt_string_view(self.continent))
        &&& spec_opt_string(j, "postal_code"@) == Ok::<_, ()>(opt_string_view(self.postal_code))
    }
}

pub fn decode_main_location(v: &JsonValue) -> (r: Result<MainLocation, ()>)
    ensures
        r matches Ok(out) ==> MainLocation::decodable(v@) && out.is_decode_of(v@),
        r is Err ==> !MainLocation::decodable(v@),
{
    if !is_obj(v) {
        return Err(());
    }
    let geo = opt_string(v, &String::from_str("geo"))?;
    let country = opt_string(v, &String::from_str("country"))?;
    let state = opt_string(v, &String::from_str("state"))?;
    let city = opt_string(v, &String::from_str("city"))?;
    let address = opt_string(v, &String::from_str("address"))?;
    let continent = opt_string(v, &String::from_str("continent"))?;
    let postal_code = opt_string(v, &String::from_str("postal_code"))?;
    Ok(MainLocation { geo, country, state, city, address, continent, postal_code })
}

/// A company record as search and enrichment return it.
#[derive(Debug)]
pub struct Company {
    pub name: Option<String>,
    pub domain: Option<String>,
    pub linkedin_url: Option<String>,
    pub industry: Option<String>,
    pub overview: Option<String>,
    pub company_type: Option<String>,
    pub size: Option<String>,
    pub main_location: Option<MainLocation>,
    pub location: Option<String>,
    pub description: Option<String>,
    pub founded: Option<i32>,
    pub revenue: Option<String>,
    pub employees: Option<CompanyEmployees>,
    pub website: Option<String>,
    pub phone: Option<String>,
    pub email: Option<String>,
    pub social: Option<CompanySocial>,
    pub technologies: Option<Vec<String>>,
    pub subsidiaries: Option<Vec<String>>,
    pub headquarters: Option<String>,
    pub country: Option<String>,
    pub state: Option<String>,
    pub city: Option<String>,
    pub zip_code: Option<String>,
    pub address: Option<String>,
}

impl Company {
    /// Whether the members of `j` fit this shape.
    pub open spec fn decodable(j: JsonSpec) -> bool {
        &&& j is Obj
        &&& spec_opt_string(j, "name"@) is Ok
        &&& spec_opt_string(j, "domain"@) is Ok
        &&& spec_opt_string(j, "linkedin_url"@) is Ok
        &&& spec_opt_string(j, "industry"@) is Ok
        &&& spec_opt_string(j, "overview"@) is Ok
        &&& spec_opt_string(j, "type"@) is Ok
        &&& spec_opt_string(j, "size"@) is Ok
        &&& match spec_opt_member(j, "main_location"@) {
            Option::None => true,
            Option::Some(x) => MainLocation::decodable(x),
        }
        &&& spec_opt_string(j, "location"@) is Ok
        &&& spec_opt_string(j, "description"@) is Ok
        &&& spec_opt_i32(j, "founded"@) is Ok
        &&& spec_opt_string(j, "revenue"@) is Ok
        &&& match spec_opt_member(j, "employees"@) {
            Option::None => true,
            Option::Some(x) => CompanyEmployees::decodable(x),
        }
        &&& spec_opt_string(j, "website"@) is Ok
        &&& spec_opt_string(j, "phone"@) is Ok
        &&& spec_opt_string(j, "email"@) is Ok
        &&& match spec_opt_member(j, "social"@) {
            Option::None => true,
            Option::Some(x) => CompanySocial::decodable(x),
        }
        &&& spec_opt_string_arr(j, "technologies"@) is Ok
        &&& spec_opt_string_arr(j, "subsidiaries"@) is Ok
        &&& spec_opt_string(j, "headquarters"@) is Ok
        &&& spec_opt_string(j, "country"@) is Ok
        &&& spec_opt_string(j, "state"@) is Ok
        &&& spec_opt_string(j, "city"@) is Ok
        &&& spec_opt_string(j, "zip_code"@) is Ok
        &&& spec_opt_string(j, "address"@) is Ok
    }

    /// Whether `self` is the decoding of `j`, member for member.
    pub open spec fn is_decode_of(self, j: JsonSpec) -> bool {
        &&& spec_opt_string(j, "name"@) == Ok::<_, ()>(opt_string_view(self.name))
        &&& spec_opt_string(j, "domain"@) == Ok::<_, ()>(opt_string_view(self.domain))
        &&& spec_opt_string(j, "linkedin_url"@) == Ok::<_, ()>(opt_string_view(self.linkedin_url))
        &&& spec_opt_string(j, "industry"@) == Ok::<_, ()>(opt_string_view(self.industry))
        &&& spec_opt_string(j, "overview"@) == Ok::<_, ()>(opt_string_view(self.overview))
        &&& spec_opt_string(j, "type"@) == Ok::<_, ()>(opt_string_view(self.company_type))
        &&& spec_opt_string(j, "size"@) == Ok::<_, ()>(opt_string_view(self.size))
        &&& match spec_opt_member(j, "main_location"@) {
            Option::None => self.main_location is None,
            Option::Some(x) => (self.main_location matches Option::Some(r) && r.is_decode_of(x)),
        }
        &&& spec_opt_string(j, "location"@) == Ok::<_, ()>(opt_string_view(self.location))
        &&& spec_opt_string(j, "description"@) == Ok::<_, ()>(opt_string_view(self.description))
        &&& spec_opt_i32(j, "founded"@) == Ok::<_, ()>(self.founded)
        &&& spec_opt_string(j, "revenue"@) == Ok::<_, ()>(opt_string_view(self.revenue))
        &&& match spec_opt_member(j, "employees"@) {
            Option::None => self.employees is None,
            Option::Some(x) => (self.employees matches Option::Some(r) && r.is_decode_of(x)),
        }
        &&& spec_opt_string(j, "website"@) == Ok::<_, ()>(opt_string_view(self.website))
        &&& spec_opt_string(j, "phone"@) == Ok::<_, ()>(opt_string_view(self.phone))
        &&& spec_opt_string(j, "email"@) == Ok::<_, ()>(opt_string_view(self.email))
        &&& match spec_opt_member(j, "social"@) {
            Option::None => self.social is None,
            Option::Some(x) => (self.social matches Option::Some(r) && r.is_decode_of(x)),
        }
        &&& spec_opt_string_arr(j, "technologies"@) == Ok::<_, ()>(opt_strings_view(self.technologies))
        &&& spec_opt_string_arr(j, "subsidiaries"@) == Ok::<_, ()>(opt_strings_view(self.subsidiaries))
        &&& spec_opt_string(j, "headquarters"@) == Ok::<_, ()>(opt_string_view(self.headquarters))
        &&& spec_opt_string(j, "country"@) == Ok::<_, ()>(opt_string_view(self.country))
        &&& spec_opt_string(j, "state"@) == Ok::<_, ()>(opt_string_view(self.state))
        &&& spec_opt_string(j, "city"@) == Ok::<_, ()>(opt_string_view(self.city))
        &&& spec_opt_string(j, "zip_code"@) == Ok::<_, ()>(opt_string_view(self.zip_code))
        &&& spec_opt_string(j, "address"@) == Ok::<_, ()>(opt_string_view(self.address))
    }
}

pub fn decode_company(v: &JsonValue) -> (r: Result<Company, ()>)
    ensures
        r matches Ok(out) ==> Company::decodable(v@) && out.is_decode_of(v@),
        r is Err ==> !Company::decodable(v@),
{
    if !is_obj(v) {
        return Err(());
    }
    let name = opt_string(v, &String::from_str("name"))?;
    let domain = opt_string(v, &String::from_str("domain"))?;
    let linkedin_url = opt_string(v, &String::from_str("linkedin_url"))?;
    let industry = opt_string(v, &String::from_str("industry"))?;
    let overview = opt_string(v, &String::from_str("overview"))?;
    let company_type = opt_string(v, &String::from_str("type"))?;
    let size = opt_string(v, &String::from_str("size"))?;
    let main_location = match v.get(&String::from_str("main_location")) {
        Some(x) => match x {
            JsonValue::Null => None,
            _ => Some(decode_main_location(x)?),
        },
        None => None,
    };
    let location = opt_string(v, &String::from_str("location"))?;
    let description = opt_string(v, &String::from_str("description"))?;
    let founded = opt_i32(v, &String::from_str("founded"))?;
    let revenue = opt_string(v, &String::from_str("revenue"))?;
    let employees = match v.get(&String::from_str("employees")) {
        Some(x) => match x {
            JsonValue::Null => None,
            _ => Some(decode_company_employees(x)?),
        },
        None => None,
    };
    let website = opt_string(v, &String::from_str("website"))?;
    let phone = opt_string(v, &String::from_str("phone"))?;
    let email = opt_string(v, &String::from_str("email"))?;
    let social = match v.get(&String::from_str("social")) {
        Some(x) => match x {
            JsonValue::Null => None,
            _ => Some(decode_company_social(x)?),
        },
        None => None,
    };
    let technologies = opt_string_arr(v, &String::from_str("technologies"))?;
    let subsidiaries = opt_string_arr(v, &String::from_str("subsidiaries"))?;
    let headquarters = opt_string(v, &String::from_str("headquarters"))?;
    let country = opt_string(v, &String::from_str("country"))?;
    let state = opt_string(v, &String::from_str("state"))?;
    let city = opt_string(v, &String::from_str("city"))?;
    let zip_code = opt_string(v, &String::from_str("zip_code"))?;
    let address = opt_string(v, &String::from_str("address"))?;
    Ok(Company { name, domain, linkedin_url, industry, overview, company_type, size, main_location, location, description, founded, revenue, employees, website, phone, email, social, technologies, subsidiaries, headquarters, country, state, city, zip_code, address })
}

/// A person's current job.
#[derive(Debug)]
pub struct CurrentJob {
    pub title: Option<String>,
    pub role: Option<String>,
    pub level: Option<String>,
}

impl CurrentJob {
    /// Whether the members of `j` fit this shape.
    pub open spec fn decodable(j: JsonSpec) -> bool {
        &&& j is Obj
        &&& spec_opt_string(j, "title"@) is Ok
        &&& spec_opt_string(j, "role"@) is Ok
        &&& spec_opt_string(j, "level"@) is Ok
    }

    /// Whether `self` is the decoding of `j`, member for member.
    pub open spec fn is_decode_of(self, j: JsonSpec) -> bool {
        &&& spec_opt_string(j, "title"@) == Ok::<_, ()>(opt_string_view(self.title))
        &&& spec_opt_string(j, "role"@) == Ok::<_, ()>(opt_string_view(self.role))
        &&& spec_opt_string(j, "level"@) == Ok::<_, ()>(opt_string_view(self.level))
    }
}

pub fn decode_current_job(v: &JsonValue) -> (r: Result<CurrentJob, ()>)
    ensures
        r matches Ok(out) ==> CurrentJob::decodable(v@) && out.is_decode_of(v@),
        r is Err ==> !CurrentJob::decodable(v@),
{
    if !is_obj(v) {
        return Err(());
    }
    let title = opt_string(v, &String::from_str("title"))?;
    let role = opt_string(v, &String::from_str("role"))?;
    let level = opt_string(v, &String::from_str("level"))?;
    Ok(CurrentJob { title, role, level })
}

/// A person's location.
#[derive(Debug)]
pub struct PersonLocation {
    pub country: Option<String>,
    pub state: Option<String>,
    pub city: Option<String>,
}

impl PersonLocation {
    /// Whether the members of `j` fit this shape.
    pub open spec fn decodable(j: JsonSpec) -> bool {
        &&& j is Obj
        &&& spec_opt_string(j, "country"@) is Ok
        &&& spec_opt_string(j, "state"@) is Ok
        &&& spec_opt_string(j, "city"@) is Ok
    }

    /// Whether `self` is the decoding of `j`, member for member.
    pub open spec fn is_decode_of(self, j: JsonSpec) -> bool {
        &&& spec_opt_string(j, "country"@) == Ok::<_, ()>(opt_string_view(self.country))
        &&& spec_opt_string(j, "state"@) == Ok::<_, ()>(opt_string_view(self.state))
        &&& spec_opt_string(j, "city"@) == Ok::<_, ()>(opt_string_view(self.city))
    }
}

pub fn decode_person_location(v: &JsonValue) -> (r: Result<PersonLocation, ()>)
    ensures
        r matches Ok(out) ==> PersonLocation::decodable(v@) && out.is_decode_of(v@),
        r is Err ==> !PersonLocation::decodable(v@),
{
    if !is_obj(v) {
        return Err(());
    }
    let country = opt_string(v, &String::from_str("country"))?;
    let state = opt_string(v, &String::from_str("state"))?;
    let city = opt_string(v, &String::from_str("city"))?;
    Ok(PersonLocation { country, state, city })
}

/// The social-media presence of a person.
#[derive(Debug)]
pub struct PersonSocial {
    pub linkedin_username: Option<String>,
    pub linkedin_connections: Option<i32>,
    pub linkedin: Option<String>,
    pub twitter: Option<String>,
    pub facebook: Option<String>,
    pub github: Option<String>,
}

impl PersonSocial {
    /// Whether the members of `j` fit this shape.
    pub open spec fn decodable(j: JsonSpec) -> bool {
        &&& j is Obj
        &&& spec_opt_string(j, "linkedin_username"@) is Ok
        &&& spec_opt_i32(j, "linkedin_connections"@) is Ok
        &&& spec_opt_string(j, "linkedin"@) is Ok
        &&& spec_opt_string(j, "twitter"@) is Ok
        &&& spec_opt_string(j, "facebook"@) is Ok
        &&& spec_opt_string(j, "github"@) is Ok
    }

    /// Whether `self` is the decoding of `j`, member for member.
    pub open spec fn is_decode_of(self, j: JsonSpec) -> bool {
        &&& spec_opt_string(j, "linkedin_username"@) == Ok::<_, ()>(opt_string_view(self.linkedin_username))
        &&& spec_opt_i32(j, "linkedin_connections"@) == Ok::<_, ()>(self.linkedin_connections)
        &&& spec_opt_string(j, "linkedin"@) == Ok::<_, ()>(opt_string_view(self.linkedin))
        &&& spec_opt_string(j, "twitter"@) == Ok::<_, ()>(opt_string_view(self.twitter))
        &&& spec_opt_string(j, "facebook"@) == Ok::<_, ()>(opt_string_view(self.facebook))
        &&& spec_opt_string(j, "github"@) == Ok::<_, ()>(opt_string_view(self.github))
    }
}

pub fn decode_person_social(v: &JsonValue) -> (r: Result<PersonSocial, ()>)
    ensures
        r matches Ok(out) ==> PersonSocial::decodable(v@) && out.is_decode_of(v@),
        r is Err ==> !PersonSocial::decodable(v@),
{
    if !is_obj(v) {
        return Err(());
    }
    let linkedin_username = opt_string(v, &String::from_str("linkedin_username"))?;
    let linkedin_connections = opt_i32(v, &String::from_str("linkedin_connections"))?;
    let linkedin = opt_string(v, &String::from_str("linkedin"))?;
    let twitter = opt_string(v, &String::from_str("twitter"))?;
    let facebook = opt_string(v, &String::from_str("facebook"))?;
    let github = opt_string(v, &String::from_str("github"))?;
    Ok(PersonSocial { linkedin_username, linkedin_connections, linkedin, twitter, facebook, github })
}

/// A person record as person search returns it.
#[derive(Debug)]
pub struct Person {
    pub first_name: Option<String>,
    pub last_name: Option<String>,
    pub full_name: Option<String>,
    pub logo: Option<String>,
    pub overview: Option<String>,
    pub experience: Option<JsonValue>,
    pub connections: Option<JsonValue>,
    pub interests: Option<Vec<String>>,
    pub skills: Option<Vec<String>>,
    pub educations: Option<Vec<JsonValue>>,
    pub experiences: Option<Vec<JsonValue>>,
    pub certifications: Option<Vec<JsonValue>>,
    pub company: Option<Company>,
    pub location: Option<PersonLocation>,
    pub current_job: Option<CurrentJob>,
    pub social: Option<PersonSocial>,
}

impl Person {
    /// Whether the members of `j` fit this shape.
    pub open spec fn decodable(j: JsonSpec) -> bool {
        &&& j is Obj
        &&& spec_opt_string(j, "first_name"@) is Ok
        &&& spec_opt_string(j, "last_name"@) is Ok
        &&& spec_opt_string(j, "full_name"@) is Ok
        &&& spec_opt_string(j, "logo"@) is Ok
        &&& spec_opt_string(j, "overview"@) is Ok
        &&& spec_opt_string_arr(j, "interests"@) is Ok
        &&& spec_opt_string_arr(j, "skills"@) is Ok
        &&& spec_opt_value_arr(j, "educations"@) is Ok
        &&& spec_opt_value_arr(j, "experiences"@) is Ok
        &&& spec_opt_value_arr(j, "certifications"@) is Ok
        &&& match spec_opt_member(j, "company"@) {
            Option::None => true,
            Option::Some(x) => Company::decodable(x),
        }
        &&& match spec_opt_member(j, "location"@) {
            Option::None => true,
            Option::Some(x) => PersonLocation::decodable(x),
        }
        &&& match spec_opt_member(j, "current_job"@) {
            Option::None => true,
            Option::Some(x) => CurrentJob::decodable(x),
        }
        &&& match spec_opt_member(j, "social"@) {
            Option::None => true,
            Option::Some(x) => PersonSocial::decodable(x),
        }
    }

    /// Whether `self` is the decoding of `j`, member for member.
    pub open spec fn is_decode_of(self, j: JsonSpec) -> bool {
        &&& spec_opt_string(j, "first_name"@) == Ok::<_, ()>(opt_string_view(self.first_name))
        &&& spec_opt_string(j, "last_name"@) == Ok::<_, ()>(opt_string_view(self.last_name))
        &&& spec_opt_string(j, "full_name"@) == Ok::<_, ()>(opt_string_view(self.full_name))
        &&& spec_opt_string(j, "logo"@) == Ok::<_, ()>(opt_string_view(self.logo))
        &&& spec_opt_string(j, "overview"@) == Ok::<_, ()>(opt_string_view(self.overview))
        &&& opt_value_view(self.experience) == spec_opt_member(j, "experience"@)
        &&& opt_value_view(self.connections) == spec_opt_member(j, "connections"@)
        &&& spec_opt_string_arr(j, "interests"@) == Ok::<_, ()>(opt_strings_view(self.interests))
        &&& spec_opt_string_arr(j, "skills"@) == Ok::<_, ()>(opt_strings_view(self.skills))
        &&& spec_opt_value_arr(j, "educations"@) == Ok::<_, ()>(opt_values_view(self.educations))
        &&& spec_opt_value_arr(j, "experiences"@) == Ok::<_, ()>(opt_values_view(self.experiences))
        &&& spec_opt_value_arr(j, "certifications"@) == Ok::<_, ()>(opt_values_view(self.certifications))
        &&& match spec_opt_member(j, "company"@) {
            Option::None => self.company is None,
            Option::Some(x) => (self.company matches Option::Some(r) && r.is_decode_of(x)),
        }
        &&& match spec_opt_member(j, "location"@) {
            Option::None => self.location is None,
            Option::Some(x) => (self.location matches Option::Some(r) && r.is_decode_of(x)),
        }
        &&& match spec_opt_member(j, "current_job"@) {
            Option::None => self.current_job is None,
            Option::Some(x) => (self.current_job matches Option::Some(r) && r.is_decode_of(x)),
        }
        &&& match spec_opt_member(j, "social"@) {
            Option::None => self.social is None,
            Option::Some(x) => (self.social matches Option::Some(r) && r.is_decode_of(x)),
        }
    }
}

pub fn decode_person(v: &JsonValue) -> (r: Result<Person, ()>)
    ensures
        r matches Ok(out) ==> Person::decodable(v@) && out.is_decode_of(v@),
        r is Err ==> !Person::decodable(v@),
{
    if !is_obj(v) {
        return Err(());
    }
    let first_name = opt_string(v, &String::from_str("first_name"))?;
    let last_name = opt_string(v, &String::from_str("last_name"))?;
    let full_name = opt_string(v, &String::from_str("full_name"))?;
    let logo = opt_string(v, &String::from_str("logo"))?;
    let overview = opt_string(v, &String::from_str("overview"))?;
    let experience = opt_member(v, &String::from_str("experience"));
    let connections = opt_member(v, &String::from_str("connections"));
    let interests = opt_string_arr(v, &String::from_str("interests"))?;
    let skills = opt_string_arr(v, &String::from_str("skills"))?;
    let educations = opt_value_arr(v, &String::from_str("educations"))?;
    let experiences = opt_value_arr(v, &String::from_str("experiences"))?;
    let certifications = opt_value_arr(v, &String::from_str("certifications"))?;
    let company = match v.get(&String::from_str("company")) {
        Some(x) => match x {
            JsonValue::Null => None,
            _ => Some(decode_company(x)?),
        },
        None => None,
    };
    let location = match v.get(&String::from_str("location")) {
        Some(x) => match x {
            JsonValue::Null => None,
            _ => Some(decode_person_location(x)?),
        },
        None => None,
    };
    let current_job = match v.get(&String::from_str("current_job")) {
        Some(x) => match x {
            JsonValue::Null => None,
            _ => Some(decode_current_job(x)?),
        },
        None => None,
    };
    let social = match v.get(&String::from_str("social")) {
        Some(x) => match x {
            JsonValue::Null => None,
            _ => Some(decode_person_social(x)?),
        },
        None => None,
    };
    Ok(Person { first_name, last_name, full_name, logo, overview, experience, connections, interests, skills, educations, experiences, certifications, company, location, current_job, social })
}

/// The person a reverse email lookup finds.
#[derive(Debug)]
pub struct RelPerson {
    pub full_name: Option<String>,
    pub first_name: Option<String>,
    pub last_name: Option<String>,
    pub linkedin_url: Option<String>,
    pub summary: Option<String>,
    pub linkedin_followers: Option<String>,
    pub facebook: Option<String>,
    pub twitter: Option<String>,
    pub avatar: Option<String>,
    pub country: Option<String>,
    pub state: Option<String>,
    pub city: Option<String>,
    pub job_title: Option<String>,
    pub job_title_categories: Option<Vec<String>>,
    pub company_name: Option<String>,
    pub company_linkedin: Option<String>,
    pub company_website: Option<String>,
    pub company_size: Option<String>,
    pub company_industry: Option<String>,
    pub company_facebook: Option<String>,
    pub company_twitter: Option<String>,
    pub company_country: Option<String>,
    pub company_state: Option<String>,
    pub company_city: Option<String>,
}

impl RelPerson {
    /// Whether the members of `j` fit this shape.
    pub open spec fn decodable(j: JsonSpec) -> bool {
        &&& j is Obj
        &&& spec_opt_string(j, "full_name"@) is Ok
        &&& spec_opt_string(j, "first_name"@) is Ok
        &&& spec_opt_string(j, "last_name"@) is Ok
        &&& spec_opt_string(j, "linkedin_url"@) is Ok
        &&& spec_opt_string(j, "summary"@) is Ok
        &&& spec_opt_string(j, "linkedin_followers"@) is Ok
        &&& spec_opt_string(j, "facebook"@) is Ok
        &&& spec_opt_string(j, "twitter"@) is Ok
        &&& spec_opt_string(j, "avatar"@) is Ok
        &&& spec_opt_string(j, "country"@) is Ok
        &&& spec_opt_string(j, "state"@) is Ok
        &&& spec_opt_string(j, "city"@) is Ok
        &&& spec_opt_string(j, "job_title"@) is Ok
        &&& spec_opt_string_arr(j, "job_title_categories"@) is Ok
        &&& spec_opt_string(j, "company_name"@) is Ok
        &&& spec_opt_string(j, "company_linkedin"@) is Ok
        &&& spec_opt_string(j, "company_website"@) is Ok
        &&& spec_opt_string(j, "company_size"@) is Ok
        &&& spec_opt_string(j, "company_industry"@) is Ok
        &&& spec_opt_string(j, "company_facebook"@) is Ok
        &&& spec_opt_string(j, "company_twitter"@) is Ok
        &&& spec_opt_string(j, "company_country"@) is Ok
        &&& spec_opt_string(j, "company_state"@) is Ok
        &&& spec_opt_string(j, "company_city"@) is Ok
    }

    /// Whether `self` is the decoding of `j`, member for member.
    pub open spec fn is_decode_of(self, j: JsonSpec) -> bool {
        &&& spec_opt_string(j, "full_name"@) == Ok::<_, ()>(opt_string_view(self.full_name))
        &&& spec_opt_string(j, "first_name"@) == Ok::<_, ()>(opt_string_view(self.first_name))
        &&& spec_opt_string(j, "last_name"@) == Ok::<_, ()>(opt_string_view(self.last_name))
        &&& spec_opt_string(j, "linkedin_url"@) == Ok::<_, ()>(opt_string_view(self.linkedin_url))
        &&& spec_opt_string(j, "summary"@) == Ok::<_, ()>(opt_string_view(self.summary))
        &&& spec_opt_string(j, "linkedin_followers"@) == Ok::<_, ()>(opt_string_view(self.linkedin_followers))
        &&& spec_opt_string(j, "facebook"@) == Ok::<_, ()>(opt_string_view(self.facebook))
        &&& spec_opt_string(j, "twitter"@) == Ok::<_, ()>(opt_string_view(self.twitter))
        &&& spec_opt_string(j, "avatar"@) == Ok::<_, ()>(opt_string_view(self.avatar))
        &&& spec_opt_string(j, "country"@) == Ok::<_, ()>(opt_string_view(self.country))
        &&& spec_opt_string(j, "state"@) == Ok::<_, ()>(opt_string_view(self.state))
        &&& spec_opt_string(j, "city"@) == Ok::<_, ()>(opt_string_view(self.city))
        &&& spec_opt_string(j, "job_title"@) == Ok::<_, ()>(opt_string_view(self.job_title))
        &&& spec_opt_string_arr(j, "job_title_categories"@) == Ok::<_, ()>(opt_strings_view(self.job_title_categories))
        &&& spec_opt_string(j, "company_name"@) == Ok::<_, ()>(opt_string_view(self.company_name))
        &&& spec_opt_string(j, "company_linkedin"@) == Ok::<_, ()>(opt_string_view(self.company_linkedin))
        &&& spec_opt_string(j, "company_website"@) == Ok::<_, ()>(opt_string_view(self.company_website))
        &&& spec_opt_string(j, "company_size"@) == Ok::<_, ()>(opt_string_view(self.company_size))
        &&& spec_opt_string(j, "company_industry"@) == Ok::<_, ()>(opt_string_view(self.company_industry))
        &&& spec_opt_string(j, "company_facebook"@) == Ok::<_, ()>(opt_string_view(self.company_facebook))
        &&& spec_opt_string(j, "company_twitter"@) == Ok::<_, ()>(opt_string_view(self.company_twitter))
        &&& spec_opt_string(j, "company_country"@) == Ok::<_, ()>(opt_string_view(self.company_country))
        &&& spec_opt_string(j, "company_state"@) == Ok::<_, ()>(opt_string_view(self.company_state))
        &&& spec_opt_string(j, "company_city"@) == Ok::<_, ()>(opt_string_view(self.company_city))
    }
}

pub fn decode_rel_person(v: &JsonValue) -> (r: Result<RelPerson, ()>)
    ensures
        r matches Ok(out) ==> RelPerson::decodable(v@) && out.is_decode_of(v@),
        r is Err ==> !RelPerson::decodable(v@),
{
    if !is_obj(v) {
        return Err(());
    }
    let full_name = opt_string(v, &String::from_str("full_name"))?;
    let first_name = opt_string(v, &String::from_str("first_name"))?;
    let last_name = opt_string(v, &String::from_str("last_name"))?;
    let linkedin_url = opt_string(v, &String::from_str("linkedin_url"))?;
    let summary = opt_string(v, &String::from_str("summary"))?;
    let linkedin_followers = opt_string(v, &String::from_str("linkedin_followers"))?;
    let facebook = opt_string(v, &String::from_str("facebook"))?;
    let twitter = opt_string(v, &String::from_str("twitter"))?;
    let avatar = opt_string(v, &String::from_str("avatar"))?;
    let country = opt_string(v, &String::from_str("country"))?;
    let state = opt_string(v, &String::from_str("state"))?;
    let city = opt_string(v, &String::from_str("city"))?;
    let job_title = opt_string(v, &String::from_str("job_title"))?;
    let job_title_categories = opt_string_arr(v, &String::from_str("job_title_categories"))?;
    let company_name = opt_string(v, &String::from_str("company_name"))?;
    let company_linkedin = opt_string(v, &String::from_str("company_linkedin"))?;
    let company_website = opt_string(v, &String::from_str("company_website"))?;
    let company_size = opt_string(v, &String::from_str("company_size"))?;
    let company_industry = opt_string(v, &String::from_str("company_industry"))?;
    let company_facebook = opt_string(v, &String::from_str("company_facebook"))?;
    let company_twitter = opt_string(v, &String::from_str("company_twitter"))?;
    let company_country = opt_string(v, &String::from_str("company_country"))?;
    let company_state = opt_string(v, &String::from_str("company_state"))?;
    let company_city = opt_string(v, &String::from_str("company_city"))?;
    Ok(RelPerson { full_name, first_name, last_name, linkedin_url, summary, linkedin_followers, facebook, twitter, avatar, country, state, city, job_title, job_title_categories, company_name, company_linkedin, company_website, company_size, company_industry, company_facebook, company_twitter, company_country, company_state, company_city })
}

/// The person a profile enrichment returns.
#[derive(Debug)]
pub struct EppPerson {
    pub full_name: Option<String>,
    pub first_name: Option<String>,
    pub last_name: Option<String>,
    pub linkedin_url: Option<String>,
    pub summary: Option<String>,
    pub linkedin_followers: Option<i32>,
    pub facebook: Option<String>,
    pub twitter: Option<String>,
    pub avatar: Option<String>,
    pub country: Option<String>,
    pub state: Option<String>,
    pub city: Option<String>,
    pub job_title: Option<String>,
    pub job_title_categories: Option<Vec<String>>,
    pub company_name: Option<String>,
    pub company_linkedin: Option<String>,
    pub company_website: Option<String>,
    pub company_size: Option<String>,
    pub company_industry: Option<String>,
    pub company_facebook: Option<String>,
    pub company_twitter: Option<String>,
    pub company_country: Option<String>,
    pub company_state: Option<String>,
    pub company_city: Option<String>,
}

impl EppPerson {
    /// Whether the members of `j` fit this shape.
    pub open spec fn decodable(j: JsonSpec) -> bool {
        &&& j is Obj
        &&& spec_opt_string(j, "full_name"@) is Ok
        &&& spec_opt_string(j, "first_name"@) is Ok
        &&& spec_opt_string(j, "last_name"@) is Ok
        &&& spec_opt_string(j, "linkedin_url"@) is Ok
        &&& spec_opt_string(j, "summary"@) is Ok
        &&& spec_opt_i32(j, "linkedin_followers"@) is Ok
        &&& spec_opt_string(j, "facebook"@) is Ok
        &&& spec_opt_string(j, "twitter"@) is Ok
        &&& spec_opt_string(j, "avatar"@) is Ok
        &&& spec_opt_string(j, "country"@) is Ok
        &&& spec_opt_string(j, "state"@) is Ok
        &&& spec_opt_string(j, "city"@) is Ok
        &&& spec_opt_string(j, "job_title"@) is Ok
        &&& spec_opt_string_arr(j, "job_title_categories"@) is Ok
        &&& spec_opt_string(j, "company_name"@) is Ok
        &&& spec_opt_string(j, "company_linkedin"@) is Ok
        &&& spec_opt_string(j, "company_website"@) is Ok
        &&& spec_opt_string(j, "company_size"@) is Ok
        &&& spec_opt_string(j, "company_industry"@) is Ok
        &&& spec_opt_string(j, "company_facebook"@) is Ok
        &&& spec_opt_string(j, "company_twitter"@) is Ok
        &&& spec_opt_string(j, "company_country"@) is Ok
        &&& spec_opt_string(j, "company_state"@) is Ok
        &&& spec_opt_string(j, "company_city"@) is Ok
    }

    /// Whether `self` is the decoding of `j`, member for member.
    pub open spec fn is_decode_of(self, j: JsonSpec) -> bool {
        &&& spec_opt_string(j, "full_name"@) == Ok::<_, ()>(opt_string_view(self.full_name))
        &&& spec_opt_string(j, "first_name"@) == Ok::<_, ()>(opt_string_view(self.first_name))
        &&& spec_opt_string(j, "last_name"@) == Ok::<_, ()>(opt_string_view(self.last_name))
        &&& spec_opt_string(j, "linkedin_url"@) == Ok::<_, ()>(opt_string_view(self.linkedin_url))
        &&& spec_opt_string(j, "summary"@) == Ok::<_, ()>(opt_string_view(self.summary))
        &&& spec_opt_i32(j, "linkedin_followers"@) == Ok::<_, ()>(self.linkedin_followers)
        &&& spec_opt_string(j, "facebook"@) == Ok::<_, ()>(opt_string_view(self.facebook))
        &&& spec_opt_string(j, "twitter"@) == Ok::<_, ()>(opt_string_view(self.twitter))
        &&& spec_opt_string(j, "avatar"@) == Ok::<_, ()>(opt_string_view(self.avatar))
        &&& spec_opt_string(j, "country"@) == Ok::<_, ()>(opt_string_view(self.country))
        &&& spec_opt_string(j, "state"@) == Ok::<_, ()>(opt_string_view(self.state))
        &&& spec_opt_string(j, "city"@) == Ok::<_, ()>(opt_string_view(self.city))
        &&& spec_opt_string(j, "job_title"@) == Ok::<_, ()>(opt_string_view(self.job_title))
        &&& spec_opt_string_arr(j, "job_title_categories"@) == Ok::<_, ()>(opt_strings_view(self.job_title_categories))
        &&& spec_opt_string(j, "company_name"@) == Ok::<_, ()>(opt_string_view(self.company_name))
        &&& spec_opt_string(j, "company_linkedin"@) == Ok::<_, ()>(opt_string_view(self.company_linkedin))
        &&& spec_opt_string(j, "company_website"@) == Ok::<_, ()>(opt_string_view(self.company_website))
        &&& spec_opt_string(j, "company_size"@) == Ok::<_, ()>(opt_string_view(self.company_size))
        &&& spec_opt_string(j, "company_industry"@) == Ok::<_, ()>(opt_string_view(self.company_industry))
        &&& spec_opt_string(j, "company_facebook"@) == Ok::<_, ()>(opt_string_view(self.company_facebook))
        &&& spec_opt_string(j, "company_twitter"@) == Ok::<_, ()>(opt_string_view(self.company_twitter))
        &&& spec_opt_string(j, "company_country"@) == Ok::<_, ()>(opt_string_view(self.company_country))
        &&& spec_opt_string(j, "company_state"@) == Ok::<_, ()>(opt_string_view(self.company_state))
        &&& spec_opt_string(j, "company_city"@) == Ok::<_, ()>(opt_string_view(self.company_city))
    }
}

pub fn decode_epp_person(v: &JsonValue) -> (r: Result<EppPerson, ()>)
    ensures
        r matches Ok(out) ==> EppPerson::decodable(v@) && out.is_decode_of(v@),
        r is Err ==> !EppPerson::decodable(v@),
{
    if !is_obj(v) {
        return Err(());
    }
    let full_name = opt_string(v, &String::from_str("full_name"))?;
    let first_name = opt_string(v, &String::from_str("first_name"))?;
    let last_name = opt_string(v, &String::from_str("last_name"))?;
    let linkedin_url = opt_string(v, &String::from_str("linkedin_url"))?;
    let summary = opt_string(v, &String::from_str("summary"))?;
    let linkedin_followers = opt_i32(v, &String::from_str("linkedin_followers"))?;
    let facebook = opt_string(v, &String::from_str("facebook"))?;
    let twitter = opt_string(v, &String::from_str("twitter"))?;
    let avatar = opt_string(v, &String::from_str("avatar"))?;
    let country = opt_string(v, &String::from_str("country"))?;
    let state = opt_string(v, &String::from_str("state"))?;
    let city = opt_string(v, &String::from_str("city"))?;
    let job_title = opt_string(v, &String::from_str("job_title"))?;
    let job_title_categories = opt_string_arr(v, &String::from_str("job_title_categories"))?;
    let company_name = opt_string(v, &String::from_str("company_name"))?;
    let company_linkedin = opt_string(v, &String::from_str("company_linkedin"))?;
    let company_website = opt_string(v, &String::from_str("company_website"))?;
    let company_size = opt_string(v, &String::from_str("company_size"))?;
    let company_industry = opt_string(v, &String::from_str("company_industry"))?;
    let company_facebook = opt_string(v, &String::from_str("company_facebook"))?;
    let company_twitter = opt_string(v, &String::from_str("company_twitter"))?;
    let company_country = opt_string(v, &String::from_str("company_country"))?;
    let company_state = opt_string(v, &String::from_str("company_state"))?;
    let company_city = opt_string(v, &String::from_str("company_city"))?;
    Ok(EppPerson { full_name, first_name, last_name, linkedin_url, summary, linkedin_followers, facebook, twitter, avatar, country, state, city, job_title, job_title_categories, company_name, company_linkedin, company_website, company_size, company_industry, company_facebook, company_twitter, company_country, company_state, company_city })
}

/// The person a person enrichment returns.
#[derive(Debug)]
pub struct TepPerson {
    pub full_name: Option<String>,
    pub first_name: Option<String>,
    pub last_name: Option<String>,
    pub linkedin_url: Option<String>,
    pub summary: Option<String>,
    pub linkedin_followers: Option<i32>,
    pub facebook: Option<String>,
    pub twitter: Option<String>,
    pub avatar: Option<String>,
    pub country: Option<String>,
    pub state: Option<String>,
    pub city: Option<String>,
    pub job_title: Option<String>,
    pub job_title_categories: Option<Vec<String>>,
    pub company_name: Option<String>,
    pub company_linkedin: Option<String>,
    pub company_website: Option<String>,
    pub company_size: Option<String>,
    pub company_industry: Option<String>,
    pub company_facebook: Option<String>,
    pub company_twitter: Option<String>,
    pub company_country: Option<String>,
    pub company_state: Option<String>,
    pub company_city: Option<String>,
    pub email: Option<String>,
    pub phone: Option<String>,
}

impl TepPerson {
    /// Whether the members of `j` fit this shape.
    pub open spec fn decodable(j: JsonSpec) -> bool {
        &&& j is Obj
        &&& spec_opt_string(j, "full_name"@) is Ok
        &&& spec_opt_string(j, "first_name"@) is Ok
        &&& spec_opt_string(j, "last_name"@) is Ok
        &&& spec_opt_string(j, "linkedin_url"@) is Ok
        &&& spec_opt_string(j, "summary"@) is Ok
        &&& spec_opt_i32(j, "linkedin_followers"@) is Ok
        &&& spec_opt_string(j, "facebook"@) is Ok
        &&& spec_opt_string(j, "twitter"@) is Ok
        &&& spec_opt_string(j, "avatar"@) is Ok
        &&& spec_opt_string(j, "country"@) is Ok
        &&& spec_opt_string(j, "state"@) is Ok
        &&& spec_opt_string(j, "city"@) is Ok
        &&& spec_opt_string(j, "job_title"@) is Ok
        &&& spec_opt_string_arr(j, "job_title_categories"@) is Ok
        &&& spec_opt_string(j, "company_name"@) is Ok
        &&& spec_opt_string(j, "company_linkedin"@) is Ok
        &&& spec_opt_string(j, "company_website"@) is Ok
        &&& spec_opt_string(j, "company_size"@) is Ok
        &&& spec_opt_string(j, "company_industry"@) is Ok
        &&& spec_opt_string(j, "company_facebook"@) is Ok
        &&& spec_opt_string(j, "company_twitter"@) is Ok
        &&& spec_opt_string(j, "company_country"@) is Ok
        &&& spec_opt_string(j, "company_state"@) is Ok
        &&& spec_opt_string(j, "company_city"@) is Ok
        &&& spec_opt_string(j, "email"@) is Ok
        &&& spec_opt_string(j, "phone"@) is Ok
    }

    /// Whether `self` is the decoding of `j`, member for member.
    pub open spec fn is_decode_of(self, j: JsonSpec) -> bool {
        &&& spec_opt_string(j, "full_name"@) == Ok::<_, ()>(opt_string_view(self.full_name))
        &&& spec_opt_string(j, "first_name"@) == Ok::<_, ()>(opt_string_view(self.first_name))
        &&& spec_opt_string(j, "last_name"@) == Ok::<_, ()>(opt_string_view(self.last_name))
        &&& spec_opt_string(j, "linkedin_url"@) == Ok::<_, ()>(opt_string_view(self.linkedin_url))
        &&& spec_opt_string(j, "summary"@) == Ok::<_, ()>(opt_string_view(self.summary))
        &&& spec_opt_i32(j, "linkedin_followers"@) == Ok::<_, ()>(self.linkedin_followers)
        &&& spec_opt_string(j, "facebook"@) == Ok::<_, ()>(opt_string_view(self.facebook))
        &&& spec_opt_string(j, "twitter"@) == Ok::<_, ()>(opt_string_view(self.twitter))
        &&& spec_opt_string(j, "avatar"@) == Ok::<_, ()>(opt_string_view(self.avatar))
        &&& spec_opt_string(j, "country"@) == Ok::<_, ()>(opt_string_view(self.country))
        &&& spec_opt_string(j, "state"@) == Ok::<_, ()>(opt_string_view(self.state))
        &&& spec_opt_string(j, "city"@) == Ok::<_, ()>(opt_string_view(self.city))
        &&& spec_opt_string(j, "job_title"@) == Ok::<_, ()>(opt_string_view(self.job_title))
        &&& spec_opt_string_arr(j, "job_title_categories"@) == Ok::<_, ()>(opt_strings_view(self.job_title_categories))
        &&& spec_opt_string(j, "company_name"@) == Ok::<_, ()>(opt_string_view(self.company_name))
        &&& spec_opt_string(j, "company_linkedin"@) == Ok::<_, ()>(opt_string_view(self.company_linkedin))
        &&& spec_opt_string(j, "company_website"@) == Ok::<_, ()>(opt_string_view(self.company_website))
        &&& spec_opt_string(j, "company_size"@) == Ok::<_, ()>(opt_string_view(self.company_size))
        &&& spec_opt_string(j, "company_industry"@) == Ok::<_, ()>(opt_string_view(self.company_industry))
        &&& spec_opt_string(j, "company_facebook"@) == Ok::<_, ()>(opt_string_view(self.company_facebook))
        &&& spec_opt_string(j, "company_twitter"@) == Ok::<_, ()>(opt_string_view(self.company_twitter))
        &&& spec_opt_string(j, "company_country"@) == Ok::<_, ()>(opt_string_view(self.company_country))
        &&& spec_opt_string(j, "company_state"@) == Ok::<_, ()>(opt_string_view(self.company_state))
        &&& spec_opt_string(j, "company_city"@) == Ok::<_, ()>(opt_string_view(self.company_city))
        &&& spec_opt_string(j, "email"@) == Ok::<_, ()>(opt_string_view(self.email))
        &&& spec_opt_string(j, "phone"@) == Ok::<_, ()>(opt_string_view(self.phone))
    }
}

pub fn decode_tep_person(v: &JsonValue) -> (r: Result<TepPerson, ()>)
    ensures
        r matches Ok(out) ==> TepPerson::decodable(v@) && out.is_decode_of(v@),
        r is Err ==> !TepPerson::decodable(v@),
{
    if !is_obj(v) {
        return Err(());
    }
    let full_name = opt_string(v, &String::from_str("full_name"))?;
    let first_name = opt_string(v, &String::from_str("first_name"))?;
    let last_name = opt_string(v, &String::from_str("last_name"))?;
    let linkedin_url = opt_string(v, &String::from_str("linkedin_url"))?;
    let summary = opt_string(v, &String::from_str("summary"))?;
    let linkedin_followers = opt_i32(v, &String::from_str("linkedin_followers"))?;
    let facebook = opt_string(v, &String::from_str("facebook"))?;
    let twitter = opt_string(v, &String::from_str("twitter"))?;
    let avatar = opt_string(v, &String::from_str("avatar"))?;
    let country = opt_string(v, &String::from_str("country"))?;
    let state = opt_string(v, &String::from_str("state"))?;
    let city = opt_string(v, &String::from_str("city"))?;
    let job_title = opt_string(v, &String::from_str("job_title"))?;
    let job_title_categories = opt_string_arr(v, &String::from_str("job_title_categories"))?;
    let company_name = opt_string(v, &String::from_str("company_name"))?;
    let company_linkedin = opt_string(v, &String::from_str("company_linkedin"))?;
    let company_website = opt_string(v, &String::from_str("company_website"))?;
    let company_size = opt_string(v, &String::from_str("company_size"))?;
    let company_industry = opt_string(v, &String::from_str("company_industry"))?;
    let company_facebook = opt_string(v, &String::from_str("company_facebook"))?;
    let company_twitter = opt_string(v, &String::from_str("company_twitter"))?;
    let company_country = opt_string(v, &String::from_str("company_country"))?;
    let company_state = opt_string(v, &String::from_str("company_state"))?;
    let company_city = opt_string(v, &String::from_str("company_city"))?;
    let email = opt_string(v, &String::from_str("email"))?;
    let phone = opt_string(v, &String::from_str("phone"))?;
    Ok(TepPerson { full_name, first_name, last_name, linkedin_url, summary, linkedin_followers, facebook, twitter, avatar, country, state, city, job_title, job_title_categories, company_name, company_linkedin, company_website, company_size, company_industry, company_facebook, company_twitter, company_country, company_state, company_city, email, phone })
}

/// A company that the lookalike finder returns.
#[derive(Debug)]
pub struct FclCompany {
    pub name: Option<String>,
    pub website: Option<String>,
    pub employee_count: Option<i32>,
    pub size: Option<String>,
    pub industry: Option<String>,
    pub description: Option<String>,
    pub linkedin_url: Option<String>,
    pub domain: Option<String>,
    pub country: Option<String>,
    pub state: Option<String>,
    pub city: Option<String>,
    pub address: Option<String>,
    pub founded_year: Option<String>,
    pub logo_url: Option<String>,
    pub followers_count: Option<i32>,
}

impl FclCompany {
    /// Whether the members of `j` fit this shape.
    pub open spec fn decodable(j: JsonSpec) -> bool {
        &&& j is Obj
        &&& spec_opt_string(j, "name"@) is Ok
        &&& spec_opt_string(j, "website"@) is Ok
        &&& spec_opt_i32(j, "employee_count"@) is Ok
        &&& spec_opt_string(j, "size"@) is Ok
        &&& spec_opt_string(j, "industry"@) is Ok
        &&& spec_opt_string(j, "description"@) is Ok
        &&& spec_opt_string(j, "linkedin_url"@) is Ok
        &&& spec_opt_string(j, "domain"@) is Ok
        &&& spec_opt_string(j, "country"@) is Ok
        &&& spec_opt_string(j, "state"@) is Ok
        &&& spec_opt_string(j, "city"@) is Ok
        &&& spec_opt_string(j, "address"@) is Ok
        &&& spec_opt_string(j, "founded_year"@) is Ok
        &&& spec_opt_string(j, "logo_url"@) is Ok
        &&& spec_opt_i32(j, "followers_count"@) is Ok
    }

    /// Whether `self` is the decoding of `j`, member for member.
    pub open spec fn is_decode_of(self, j: JsonSpec) -> bool {
        &&& spec_opt_string(j, "name"@) == Ok::<_, ()>(opt_string_view(self.name))
        &&& spec_opt_string(j, "website"@) == Ok::<_, ()>(opt_string_view(self.website))
        &&& spec_opt_i32(j, "employee_count"@) == Ok::<_, ()>(self.employee_count)
        &&& spec_opt_string(j, "size"@) == Ok::<_, ()>(opt_string_view(self.size))
        &&& spec_opt_string(j, "industry"@) == Ok::<_, ()>(opt_string_view(self.industry))
        &&& spec_opt_string(j, "description"@) == Ok::<_, ()>(opt_string_view(self.description))
        &&& spec_opt_string(j, "linkedin_url"@) == Ok::<_, ()>(opt_string_view(self.linkedin_url))
        &&& spec_opt_string(j, "domain"@) == Ok::<_, ()>(opt_string_view(self.domain))
        &&& spec_opt_string(j, "country"@) == Ok::<_, ()>(opt_string_view(self.country))
        &&& spec_opt_string(j, "state"@) == Ok::<_, ()>(opt_string_view(self.state))
        &&& spec_opt_string(j, "city"@) == Ok::<_, ()>(opt_string_view(self.city))
        &&& spec_opt_string(j, "address"@) == Ok::<_, ()>(opt_string_view(self.address))
        &&& spec_opt_string(j, "founded_year"@) == Ok::<_, ()>(opt_string_view(self.founded_year))
        &&& spec_opt_string(j, "logo_url"@) == Ok::<_, ()>(opt_string_view(self.logo_url))
        &&& spec_opt_i32(j, "followers_count"@) == Ok::<_, ()>(self.followers_count)
    }
}

pub fn decode_fcl_company(v: &JsonValue) -> (r: Result<FclCompany, ()>)
    ensures
        r matches Ok(out) ==> FclCompany::decodable(v@) && out.is_decode_of(v@),
        r is Err ==> !FclCompany::decodable(v@),
{
    if !is_obj(v) {
        return Err(());
    }
    let name = opt_string(v, &String::from_str("name"))?;
    let website = opt_string(v, &String::from_str("website"))?;
    let employee_count = opt_i32(v, &String::from_str("employee_count"))?;
    let size = opt_string(v, &String::from_str("size"))?;
    let industry = opt_string(v, &String::from_str("industry"))?;
    let description = opt_string(v, &String::from_str("description"))?;
    let linkedin_url = opt_string(v, &String::from_str("linkedin_url"))?;
    let domain = opt_string(v, &String::from_str("domain"))?;
    let country = opt_string(v, &String::from_str("country"))?;
    let state = opt_string(v, &String::from_str("state"))?;
    let city = opt_string(v, &String::from_str("city"))?;
    let address = opt_string(v, &String::from_str("address"))?;
    let founded_year = opt_string(v, &String::from_str("founded_year"))?;
    let logo_url = opt_string(v, &String::from_str("logo_url"))?;
    let followers_count = opt_i32(v, &String::from_str("followers_count"))?;
    Ok(FclCompany { name, website, employee_count, size, industry, description, linkedin_url, domain, country, state, city, address, founded_year, logo_url, followers_count })
}

/// The fundraising facts of a company.
#[derive(Debug)]
pub struct ElfFundraising {
    pub funding_last_round_type: Option<String>,
    pub funding_ammount_currency_code: Option<String>,
    pub funding_money_raised: Option<String>,
    pub funding_last_round_investors_url: Option<String>,
}

impl ElfFundraising {
    /// Whether the members of `j` fit this shape.
    pub open spec fn decodable(j: JsonSpec) -> bool {
        &&& j is Obj
        &&& spec_opt_string(j, "funding_last_round_type"@) is Ok
        &&& spec_opt_string(j, "funding_ammount_currency_code"@) is Ok
        &&& spec_opt_string(j, "funding_money_raised"@) is Ok
        &&& spec_opt_string(j, "funding_last_round_investors_url"@) is Ok
    }

    /// Whether `self` is the decoding of `j`, member for member.
    pub open spec fn is_decode_of(self, j: JsonSpec) -> bool {
        &&& spec_opt_string(j, "funding_last_round_type"@) == Ok::<_, ()>(opt_string_view(self.funding_last_round_type))
        &&& spec_opt_string(j, "funding_ammount_currency_code"@) == Ok::<_, ()>(opt_string_view(self.funding_ammount_currency_code))
        &&& spec_opt_string(j, "funding_money_raised"@) == Ok::<_, ()>(opt_string_view(self.funding_money_raised))
        &&& spec_opt_string(j, "funding_last_round_investors_url"@) == Ok::<_, ()>(opt_string_view(self.funding_last_round_investors_url))
    }
}

pub fn decode_elf_fundraising(v: &JsonValue) -> (r: Result<ElfFundraising, ()>)
    ensures
        r matches Ok(out) ==> ElfFundraising::decodable(v@) && out.is_decode_of(v@),
        r is Err ==> !ElfFundraising::decodable(v@),
{
    if !is_obj(v) {
        return Err(());
    }
    let funding_last_round_type = opt_string(v, &String::from_str("funding_last_round_type"))?;
    let funding_ammount_currency_code = opt_string(v, &String::from_str("funding_ammount_currency_code"))?;
    let funding_money_raised = opt_string(v, &String::from_str("funding_money_raised"))?;
    let funding_last_round_investors_url = opt_string(v, &String::from_str("funding_last_round_investors_url"))?;
    Ok(ElfFundraising { funding_last_round_type, funding_ammount_currency_code, funding_money_raised, funding_last_round_investors_url })
}

/// The company a company enrichment returns.
#[derive(Debug)]
pub struct EncCompany {
    pub name: Option<String>,
    pub website: Option<String>,
    pub employee_count: Option<i32>,
    pub industry: Option<String>,
    pub size: Option<String>,
    pub description: Option<String>,
    pub linkedin_url: Option<String>,
    pub company_type: Option<String>,
    pub domain: Option<String>,
    pub country: Option<String>,
    pub state: Option<String>,
    pub city: Option<String>,
    pub address: Option<String>,
    pub founded_year: Option<String>,
    pub logo_url: Option<String>,
    pub followers_count: Option<i32>,
}

impl EncCompany {
    /// Whether the members of `j` fit this shape.
    pub open spec fn decodable(j: JsonSpec) -> bool {
        &&& j is Obj
        &&& spec_opt_string(j, "name"@) is Ok
        &&& spec_opt_string(j, "website"@) is Ok
        &&& spec_opt_i32(j, "employee_count"@) is Ok
        &&& spec_opt_string(j, "industry"@) is Ok
        &&& spec_opt_string(j, "size"@) is Ok
        &&& spec_opt_string(j, "description"@) is Ok
        &&& spec_opt_string(j, "linkedin_url"@) is Ok
        &&& spec_opt_string(j, "type"@) is Ok
        &&& spec_opt_string(j, "domain"@) is Ok
        &&& spec_opt_string(j, "country"@) is Ok
        &&& spec_opt_string(j, "state"@) is Ok
        &&& spec_opt_string(j, "city"@) is Ok
        &&& spec_opt_string(j, "address"@) is Ok
        &&& spec_opt_string(j, "founded_year"@) is Ok
        &&& spec_opt_string(j, "logo_url"@) is Ok
        &&& spec_opt_i32(j, "followers_count"@) is Ok
    }

    /// Whether `self` is the decoding of `j`, member for member.
    pub open spec fn is_decode_of(self, j: JsonSpec) -> bool {
        &&& spec_opt_string(j, "name"@) == Ok::<_, ()>(opt_string_view(self.name))
        &&& spec_opt_string(j, "website"@) == Ok::<_, ()>(opt_string_view(self.website))
        &&& spec_opt_i32(j, "employee_count"@) == Ok::<_, ()>(self.employee_count)
        &&& spec_opt_string(j, "industry"@) == Ok::<_, ()>(opt_string_view(self.industry))
        &&& spec_opt_string(j, "size"@) == Ok::<_, ()>(opt_string_view(self.size))
        &&& spec_opt_string(j, "description"@) == Ok::<_, ()>(opt_string_view(self.description))
        &&& spec_opt_string(j, "linkedin_url"@) == Ok::<_, ()>(opt_string_view(self.linkedin_url))
        &&& spec_opt_string(j, "type"@) == Ok::<_, ()>(opt_string_view(self.company_type))
        &&& spec_opt_string(j, "domain"@) == Ok::<_, ()>(opt_string_view(self.domain))
        &&& spec_opt_string(j, "country"@) == Ok::<_, ()>(opt_string_view(self.country))
        &&& spec_opt_string(j, "state"@) == Ok::<_, ()>(opt_string_view(self.state))
        &&& spec_opt_string(j, "city"@) == Ok::<_, ()>(opt_string_view(self.city))
        &&& spec_opt_string(j, "address"@) == Ok::<_, ()>(opt_string_view(self.address))
        &&& spec_opt_string(j, "founded_year"@) == Ok::<_, ()>(opt_string_view(self.founded_year))
        &&& spec_opt_string(j, "logo_url"@) == Ok::<_, ()>(opt_string_view(self.logo_url))
        &&& spec_opt_i32(j, "followers_count"@) == Ok::<_, ()>(self.followers_count)
    }
}

pub fn decode_enc_company(v: &JsonValue) -> (r: Result<EncCompany, ()>)
    ensures
        r matches Ok(out) ==> EncCompany::decodable(v@) && out.is_decode_of(v@),
        r is Err ==> !EncCompany::decodable(v@),
{
    if !is_obj(v) {
        return Err(());
    }
    let name = opt_string(v, &String::from_str("name"))?;
    let website = opt_string(v, &String::from_str("website"))?;
    let employee_count = opt_i32(v, &String::from_str("employee_count"))?;
    let industry = opt_string(v, &String::from_str("industry"))?;
    let size = opt_string(v, &String::from_str("size"))?;
    let description = opt_string(v, &String::from_str("description"))?;
    let linkedin_url = opt_string(v, &String::from_str("linkedin_url"))?;
    let company_type = opt_string(v, &String::from_str("type"))?;
    let domain = opt_string(v, &String::from_str("domain"))?;
    let country = opt_string(v, &String::from_str("country"))?;
    let state = opt_string(v, &String::from_str("state"))?;
    let city = opt_string(v, &String::from_str("city"))?;
    let address = opt_string(v, &String::from_str("address"))?;
    let founded_year = opt_string(v, &String::from_str("founded_year"))?;
    let logo_url = opt_string(v, &String::from_str("logo_url"))?;
    let followers_count = opt_i32(v, &String::from_str("followers_count"))?;
    Ok(EncCompany { name, website, employee_count, industry, size, description, linkedin_url, company_type, domain, country, state, city, address, founded_year, logo_url, followers_count })
}

/// One location of a company.
#[derive(Debug)]
pub struct CloLocation {
    pub country: Option<String>,
    pub state: Option<String>,
    pub city: Option<String>,
    pub postal_code: Option<String>,
    pub line1: Option<String>,
    pub line2: Option<String>,
    pub latitude: Option<String>,
    pub longitude: Option<String>,
}

impl CloLocation {
    /// Whether the members of `j` fit this shape.
    pub open spec fn decodable(j: JsonSpec) -> bool {
        &&& j is Obj
        &&& spec_opt_string(j, "country"@) is Ok
        &&& spec_opt_string(j, "state"@) is Ok
        &&& spec_opt_string(j, "city"@) is Ok
        &&& spec_opt_string(j, "postal_code"@) is Ok
        &&& spec_opt_string(j, "line1"@) is Ok
        &&& spec_opt_string(j, "line2"@) is Ok
        &&& spec_opt_string(j, "latitude"@) is Ok
        &&& spec_opt_string(j, "longitude"@) is Ok
    }

    /// Whether `self` is the decoding of `j`, member for member.
    pub open spec fn is_decode_of(self, j: JsonSpec) -> bool {
        &&& spec_opt_string(j, "country"@) == Ok::<_, ()>(opt_string_view(self.country))
        &&& spec_opt_string(j, "state"@) == Ok::<_, ()>(opt_string_view(self.state))
        &&& spec_opt_string(j, "city"@) == Ok::<_, ()>(opt_string_view(self.city))
        &&& spec_opt_string(j, "postal_code"@) == Ok::<_, ()>(opt_string_view(self.postal_code))
        &&& spec_opt_string(j, "line1"@) == Ok::<_, ()>(opt_string_view(self.line1))
        &&& spec_opt_string(j, "line2"@) == Ok::<_, ()>(opt_string_view(self.line2))
        &&& spec_opt_string(j, "latitude"@) == Ok::<_, ()>(opt_string_view(self.latitude))
        &&& spec_opt_string(j, "longitude"@) == Ok::<_, ()>(opt_string_view(self.longitude))
    }
}

pub fn decode_clo_location(v: &JsonValue) -> (r: Result<CloLocation, ()>)
    ensures
        r matches Ok(out) ==> CloLocation::decodable(v@) && out.is_decode_of(v@),
        r is Err ==> !CloLocation::decodable(v@),
{
    if !is_obj(v) {
        return Err(());
    }
    let country = opt_string(v, &String::from_str("country"))?;
    let state = opt_string(v, &String::from_str("state"))?;
    let city = opt_string(v, &String::from_str("city"))?;
    let postal_code = opt_string(v, &String::from_str("postal_code"))?;
    let line1 = opt_string(v, &String::from_str("line1"))?;
    let line2 = opt_string(v, &String::from_str("line2"))?;
    let latitude = opt_string(v, &String::from_str("latitude"))?;
    let longitude = opt_string(v, &String::from_str("longitude"))?;
    Ok(CloLocation { country, state, city, postal_code, line1, line2, latitude, longitude })
}
} // verus!
