use vstd::prelude::*;

use crate::error::Error;
use crate::value::{Details, Value, ValueView};

verus! {

/// The reserved details key under which a converted foreign error's own
/// rendered text is preserved.
pub open spec fn origin_key() -> Seq<char> {
    "origin"@
}

/// What `store_origin` yields. With an override text, the override becomes
/// the message and the origin text is recorded in the context under the
/// reserved key, every other entry kept intact. Without one, the origin text
/// itself becomes the message and the context stays untouched: the origin is
/// not stored twice.
pub open spec fn spec_store_origin(
    origin: Seq<char>,
    text: Option<Seq<char>>,
    context: Map<Seq<char>, ValueView>,
) -> (Seq<char>, Map<Seq<char>, ValueView>) {
    match text {
        Some(t) => (t, context.insert(origin_key(), ValueView::Text(origin))),
        None => (origin, context),
    }
}

/// An adapter that absorbs a foreign error into the canonical `Error`. The
/// foreign error's own rendered text is never dropped: it either becomes the
/// message itself, or it is preserved in the details under the reserved
/// `origin` key.
pub trait ErrorConverter {
    /// The foreign error type being absorbed.
    type Error;

    /// The foreign error's rendered text, as a mathematical value. An
    /// implementation overrides this to state what `render` returns; the
    /// default leaves the text unspecified, so `render`'s contract can only
    /// be met once it is overridden.
    open spec fn rendered(e: &Self::Error) -> Seq<char> {
        arbitrary()
    }

    /// Renders the foreign error as text.
    fn render(e: &Self::Error) -> (r: String)
        ensures
            r@ == Self::rendered(e),
    ;

    /// The type-specific hook: produces the final error from the resolved
    /// message and context.
    fn convert(e: &Self::Error, text: String, context: Details) -> Error;

    /// Resolves the message and enriched context for a foreign error, as
    /// `spec_store_origin` states.
    fn store_origin(e: &Self::Error, text: Option<String>, context: Details) -> (r: (
        String,
        Details,
    ))
        ensures
            (r.0@, r.1@) == spec_store_origin(
                Self::rendered(e),
                match text {
                    Some(t) => Some(t@),
                    None => None,
                },
                context@,
            ),
    {
        match text {
            Some(t) => {
                let mut ctx = context;
                ctx.insert("origin".to_owned(), Value::Text(Self::render(e)));
                (t, ctx)
            },
            None => (Self::render(e), context),
        }
    }

    /// The entry point of a conversion: resolves the message and context
    /// through `store_origin`, then hands both to `convert`. The result is
    /// whatever `convert` produces from the resolved message and context.
    fn convert_error(e: &Self::Error, text: Option<String>, context: Details) -> (r: Error)
        ensures
            exists|t: String, d: Details|
                {
                    &&& (t@, d@) == spec_store_origin(
                        Self::rendered(e),
                        match text {
                            Some(s) => Some(s@),
                            None => None,
                        },
                        context@,
                    )
                    &&& #[trigger] call_ensures(Self::convert, (e, t, d), r)
                },
    {
        let resolved = Self::store_origin(e, text, context);
        let ghost t = resolved.0;
        let ghost d = resolved.1;
        let converted = Self::convert(e, resolved.0, resolved.1);
        proof {
            assert(call_ensures(Self::convert, (e, t, d), converted));
        }
        converted
    }
}

} // verus!
