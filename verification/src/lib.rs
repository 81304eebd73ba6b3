//! Core of a configurable HTTP responder: clients register mock definitions
//! keyed by method and path, and matching requests are answered with the
//! pre-recorded response (JSON, plain text, or a stored file).
//!
//! This crate holds the decision logic only: route-key normalization, the
//! definition store's upsert/patch/lookup semantics, response dispatch, and
//! the file-storage write/read planning. Transport and I/O live outside.

pub mod dispatch;
pub mod errors;
pub mod ingest;
pub mod json;
pub mod models;
pub mod normalize;
pub mod storage;
pub mod store;
pub mod text;

pub use dispatch::DispatchDecision;
pub use dispatch::WirePayload;
pub use dispatch::WireResponse;
pub use dispatch::dispatch_lookup;
pub use dispatch::dispatch_mock;
pub use dispatch::fallback_response;
pub use dispatch::file_define_ack_body;
pub use dispatch::finish_file;
pub use dispatch::ok_ack_body;
pub use dispatch::redirect_response;
pub use dispatch::unavailable_response;
pub use dispatch::wire_status;
pub use errors::AppError;
pub use errors::error_body;
pub use errors::error_message;
pub use errors::status_of_error;
pub use ingest::BodyKind;
pub use ingest::MultipartForm;
pub use ingest::classify_content_type;
pub use ingest::parse_u16;
pub use ingest::resolve_status_alias;
pub use models::MockPatch;
pub use models::MockRoute;
pub use models::ResponseData;
pub use models::ResponseType;
pub use models::default_http_status_code;
pub use normalize::normalize_method;
pub use normalize::normalize_path;
pub use storage::IngestNext;
pub use storage::IngestStep;
pub use storage::ReadError;
pub use storage::RetrievalOutcome;
pub use storage::RetrievalPlan;
pub use storage::S3Config;
pub use storage::fresh_token;
pub use storage::ingest_after_local;
pub use storage::ingest_after_remote;
pub use storage::ingest_start;
pub use storage::plan_retrieval;
pub use storage::settle_retrieval;
pub use store::MockStore;
