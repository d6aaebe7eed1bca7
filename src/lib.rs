//! Current-weather lookup for a latitude/longitude pair: building the request,
//! reading the service's JSON answer and rendering the report.
pub mod codes;
pub mod json;
pub mod request;
pub mod error;
pub mod report;
