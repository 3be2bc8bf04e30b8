//! Typed resource model for a remote template service.
//!
//! Templates are named, localized text bodies with variable placeholders,
//! managed over an HTTP API. This crate holds the part of the client that
//! carries real contracts: the request/response data model, its
//! construction and serialization rules (which optional fields appear on
//! the wire, which legacy key spellings are accepted, which defaults apply),
//! and the verb/path/query/body plan of every remote operation. The HTTP
//! transport itself lives outside this crate; callers execute a
//! [`plan::RequestPlan`] with whatever client they have and hand the decoded
//! JSON back to the model here.

pub mod decimal;
pub mod envelopes;
pub mod json;
pub mod plan;
pub mod requests;
pub mod template;

pub use envelopes::{DeleteTemplateResponse, TemplateList, TemplatePagination};
pub use json::JsonValue;
pub use requests::{CreateTemplateRequest, ListTemplatesOptions, UpdateTemplateRequest};
pub use template::{DecodeError, Field, Template, TemplateType};
