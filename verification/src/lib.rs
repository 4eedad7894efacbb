pub mod decode;
pub mod encode;
pub mod envelope;
pub mod error;
pub mod json;
pub mod ops;
pub mod params;
pub mod records;
pub mod responses;

pub use error::CufinderError;
pub use json::{JsonSpec, JsonValue};
pub use ops::PreparedRequest;
pub use params::{
    BcdParams, CarParams, CcpParams, CecParams, ClientConfig, CloParams, CseParams, CufParams,
    DtcParams, DteParams, ElfParams, EncParams, EppParams, FccParams, FclParams, FtsParams,
    FweParams, IscParams, LbsParams, LcufParams, NtpParams, PseParams, RelParams, TepParams,
};
pub use records::{
    CloLocation, Company, CompanyEmployees, CompanySocial, CurrentJob, ElfFundraising, EncCompany,
    EppPerson, FclCompany, MainLocation, Person, PersonLocation, PersonSocial, RelPerson,
    TepPerson,
};
pub use responses::{
    BaseResponse, BcdResponse, CarResponse, CcpResponse, CecResponse, CloResponse, CseResponse,
    CufResponse, DtcResponse, DteResponse, ElfResponse, EncResponse, EppResponse, FccResponse,
    FclResponse, FtsResponse, FweResponse, IscResponse, LbsResponse, LcufResponse, NtpResponse,
    PseResponse, RelResponse, TepResponse,
};
