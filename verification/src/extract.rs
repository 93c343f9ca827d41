//! The dependency extractor: the public operations over the engine boundary.

use vstd::prelude::*;
use vstd::pervasive::unreached;
use crate::deps::deps_view;
use crate::deps::imports_of;
use crate::deps::split_deps;
use crate::deps::urls_of;
use crate::engine::ExtractError;
use crate::engine::analyze;
use crate::engine::engine_deps;
use crate::engine::engine_ok;
use crate::engine::engine_parse_ok;
use crate::engine::engine_serialize_ok;

verus! {

/// The result of one extraction: the urls of the `@import` rules and the urls
/// of the `url()` references of a stylesheet, each list in the order in which
/// the engine reported the entries while serializing.
#[derive(Debug)]
pub struct ParseResult {
    /// One url per `@import` rule.
    pub imports: Vec<String>,
    /// One url per `url()` reference.
    pub urls: Vec<String>,
}

/// Extracts the dependencies of the stylesheet text `code`: the engine parses
/// it with error recovery, serializes it with dependency analysis, and the
/// reported list is partitioned into import urls and `url()` urls, keeping the
/// engine's order in each list. `filename` is attached to diagnostics only and
/// does not bear on the result. Callers must know that the engine accepts
/// `code`; `extract` is the same operation without that obligation.
pub fn parse(code: &str, filename: Option<String>) -> (r: ParseResult)
    requires
        engine_ok(code@),
    ensures
        r.imports.deep_view() == imports_of(engine_deps(code@)),
        r.urls.deep_view() == urls_of(engine_deps(code@)),
{
    let fname: String = match filename {
        Some(f) => f,
        None => String::new(),
    };
    match analyze(code, fname.as_str()) {
        Ok(found) => {
            let (imports, urls) = split_deps(&found);
            ParseResult { imports, urls }
        },
        Err(_) => unreached(),
    }
}

/// Extracts the dependencies of the stylesheet text `code`, as `parse` does,
/// for any input: where the engine rejects `code` the error says which stage
/// failed instead of the call being forbidden. An empty input always succeeds,
/// with both lists empty.
pub fn extract(code: &str, filename: Option<String>) -> (r: Result<ParseResult, ExtractError>)
    ensures
        r is Ok <==> engine_ok(code@),
        (r matches Ok(pr) ==> pr.imports.deep_view() == imports_of(engine_deps(code@))),
        (r matches Ok(pr) ==> pr.urls.deep_view() == urls_of(engine_deps(code@))),
        (r matches Err(e) ==> (e is Parse <==> !engine_parse_ok(code@))),
        (r matches Err(e) ==> (e is Serialize <==> engine_parse_ok(code@)
            && !engine_serialize_ok(code@))),
        code@.len() == 0 ==> r is Ok,
        (r matches Ok(pr) ==> (code@.len() == 0 ==> pr.imports@.len() == 0
            && pr.urls@.len() == 0)),
{
    let fname: String = match filename {
        Some(f) => f,
        None => String::new(),
    };
    match analyze(code, fname.as_str()) {
        Ok(probe) => {
            let pr = parse(code, Some(fname));
            proof {
                if code@.len() == 0 {
                    assert(deps_view(probe@).len() == 0);
                    assert(imports_of(engine_deps(code@)).len() == 0);
                    assert(urls_of(engine_deps(code@)).len() == 0);
                }
            }
            Ok(pr)
        },
        Err(e) => Err(e),
    }
}

/// Extraction is deterministic: any two results drawn from the same source
/// text carry identical import lists and identical url lists, so running the
/// extraction twice on one input changes nothing.
pub proof fn lemma_extract_deterministic(source: Seq<char>, a: ParseResult, b: ParseResult)
    requires
        a.imports.deep_view() == imports_of(engine_deps(source)),
        a.urls.deep_view() == urls_of(engine_deps(source)),
        b.imports.deep_view() == imports_of(engine_deps(source)),
        b.urls.deep_view() == urls_of(engine_deps(source)),
    ensures
        a.imports.deep_view() == b.imports.deep_view(),
        a.urls.deep_view() == b.urls.deep_view(),
{
}

} // verus!
