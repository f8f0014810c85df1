//! Structured error modeling: a taxonomy of error kinds, a canonical error
//! value carrying a code, a class path, a message and a details map, a fluent
//! builder, per-site error types bound to a kind, and a converter that absorbs
//! foreign errors without losing their original text.

mod builder;
mod convert;
mod error;
mod kind;
mod laws;
mod outcome;
mod site;
mod value;

pub use builder::{spec_build, ErrorBuilder, ErrorBuilderView};
pub use convert::{origin_key, spec_store_origin, ErrorConverter};
pub use error::{
    compose_class, decimal_string, spec_class, spec_decimal, spec_digit, spec_from_record,
    spec_render, spec_to_record, Error, ErrorRecord, ErrorRecordView, ErrorView,
};
pub use kind::{spec_side, ErrorKind};
pub use laws::{
    lemma_build_without_overrides, lemma_origin_never_dropped, lemma_overrides_take_precedence,
    lemma_record_round_trip, lemma_side_classification, lemma_site_code_and_message_override,
    lemma_site_code_override,
};
pub use outcome::Outcome;
pub use site::{
    spec_site_code, spec_site_details, spec_site_message, spec_site_render, ErrorTypeDef,
    SiteError, SiteErrorView,
};
pub use value::{map_of, unique_keys, Details, Value, ValueView};
