use vstd::prelude::*;

use crate::builder::{spec_build, ErrorBuilderView};
use crate::convert::{origin_key, spec_store_origin};
use crate::error::{spec_class, spec_from_record, spec_to_record, ErrorView};
use crate::kind::{spec_side, ErrorKind};
use crate::site::{spec_site_code, spec_site_message, ErrorTypeDef, SiteErrorView};
use crate::value::ValueView;

verus! {

/// Every code up to 499 classifies as a client error, and every code of 500
/// or above classifies as a server error.
pub proof fn lemma_side_classification(code: u16)
    ensures
        code <= 499 ==> spec_side(code) == "Client"@,
        code >= 500 ==> spec_side(code) == "Server"@,
{
}

/// Building from a fresh builder, with no override set, yields the kind's
/// own code and description, the class composed of side, kind name and site
/// name, and an empty details map.
pub proof fn lemma_build_without_overrides(kind: ErrorKind, site: Seq<char>)
    ensures
        spec_build(
            (ErrorBuilderView { kind, code: None, name: site, message: None, details: Map::empty() }),
        ) == (ErrorView {
            code: kind.1,
            class: spec_class(kind, site),
            message: kind.2@,
            details: Map::empty(),
        }),
{
}

/// An override set on a builder always takes precedence over the kind's
/// default in what `build` yields, whatever else the builder holds; since
/// each setter touches only its own field, the order of the setter calls
/// cannot matter as long as `build` comes last.
pub proof fn lemma_overrides_take_precedence(
    b: ErrorBuilderView,
    code: u16,
    message: Seq<char>,
    details: Map<Seq<char>, ValueView>,
)
    ensures
        spec_build((ErrorBuilderView { code: Some(code), ..b })).code == code,
        spec_build((ErrorBuilderView { message: Some(message), ..b })).message == message,
        spec_build((ErrorBuilderView { details: details, ..b })).details == details,
{
}

/// A site type bound with a code override resolves, when fresh, to that code
/// and to the kind's own description: the code is overridden, the message
/// inherited.
pub proof fn lemma_site_code_override(kind: ErrorKind, name: &'static str, code: u16)
    ensures
        ({
            let fresh = SiteErrorView {
                def: ErrorTypeDef { kind, name, default_code: code, default_message: kind.2 },
                code: None,
                message: None,
                details: None,
            };
            spec_site_code(fresh) == code && spec_site_message(fresh) == kind.2@
        }),
{
}

/// A site type bound with a code and a message override resolves, when
/// fresh, to both of them: code and message are overridden together.
pub proof fn lemma_site_code_and_message_override(
    kind: ErrorKind,
    name: &'static str,
    code: u16,
    message: &'static str,
)
    ensures
        ({
            let fresh = SiteErrorView {
                def: ErrorTypeDef { kind, name, default_code: code, default_message: message },
                code: None,
                message: None,
                details: None,
            };
            spec_site_code(fresh) == code && spec_site_message(fresh) == message@
        }),
{
}

/// A converted foreign error's rendered text is never dropped: it is either
/// the resolved message itself, or it is preserved in the resolved context
/// under the reserved `origin` key; and every entry the context already held
/// under another key stays intact.
pub proof fn lemma_origin_never_dropped(
    origin: Seq<char>,
    text: Option<Seq<char>>,
    context: Map<Seq<char>, ValueView>,
)
    ensures
        ({
            let r = spec_store_origin(origin, text, context);
            (r.0 == origin || (r.1.contains_key(origin_key()) && r.1[origin_key()]
                == ValueView::Text(origin))) && (forall|k: Seq<char>|
                #[trigger] context.contains_key(k) && k != origin_key() ==> r.1.contains_key(k)
                    && r.1[k] == context[k])
        }),
{
}

/// Sending an error through the boundary record and back reproduces its
/// class, message and details exactly; the code is not part of the round
/// trip and comes back as whatever the transport carried.
pub proof fn lemma_record_round_trip(e: ErrorView, code: u16)
    ensures
        spec_from_record(spec_to_record(e), code) == (ErrorView {
            code,
            class: e.class,
            message: e.message,
            details: e.details,
        }),
        spec_from_record(spec_to_record(e), e.code) == e,
{
}

} // verus!
