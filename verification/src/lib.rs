//! Parser for the container header of a packaged browser extension (a CRX
//! archive): magic-number recognition, the two incompatible header layouts
//! (version 2 and version 3), offset arithmetic locating the embedded ZIP
//! payload, and a structural-consistency check on the parsed descriptor.

pub mod error;
pub mod parser;

pub use error::ParseError;
pub use parser::CrxInfo;
pub use parser::extract_zip_data;
pub use parser::parse_crx;
pub use parser::verify_crx_info;
