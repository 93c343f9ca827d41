//! The boundary to the CSS engine: names for what its analysis returns, and
//! the one trusted call into it.

use vstd::prelude::*;
use lightningcss::dependencies::Dependency;
use lightningcss::dependencies::DependencyOptions;
use lightningcss::stylesheet::ParserOptions;
use lightningcss::stylesheet::PrinterOptions;
use lightningcss::stylesheet::StyleSheet;
use crate::deps::Dep;
use crate::deps::deps_view;
use crate::deps::SpecDep;

verus! {

/// Whether the engine parses `source` successfully with error recovery on.
pub uninterp spec fn engine_parse_ok(source: Seq<char>) -> bool;

/// Whether the engine serializes the stylesheet parsed from `source`
/// successfully, with dependency analysis requested.
pub uninterp spec fn engine_serialize_ok(source: Seq<char>) -> bool;

/// The dependency list that the engine reports for `source`: one entry per
/// `@import` rule and one per `url()` reference, in the order in which the
/// entries are met while the engine serializes the parsed stylesheet.
pub uninterp spec fn engine_deps(source: Seq<char>) -> Seq<SpecDep>;

/// Whether the whole pipeline over `source` — parse, then serialize with
/// dependency analysis — succeeds.
pub open spec fn engine_ok(source: Seq<char>) -> bool {
    engine_parse_ok(source) && engine_serialize_ok(source)
}

/// Why an extraction failed.
#[derive(Debug, PartialEq, Eq)]
pub enum ExtractError {
    /// The source text could not be parsed, even with error recovery.
    Parse,
    /// The parsed stylesheet could not be serialized.
    Serialize,
}

/// Relies on lightningcss: `StyleSheet::parse` with `error_recovery` set, then
/// `StyleSheet::to_css` with `analyze_dependencies` (imports kept). The printer
/// reports one `Dependency` per `@import` rule and per `url()` reference, in
/// serialization order, each carrying its url string; the url strings are read
/// from the source text alone, while `filename` enters only the diagnostic
/// locations and placeholders, which are dropped here. An empty source parses
/// to a stylesheet with no rules, so its dependency list is empty.
#[verifier::external_body]
pub(crate) fn analyze(code: &str, filename: &str) -> (r: Result<Vec<Dep>, ExtractError>)
    ensures
        r is Ok <==> engine_ok(code@),
        (r matches Ok(v) ==> deps_view(v@) == engine_deps(code@)),
        (r matches Err(e) ==> (e is Parse <==> !engine_parse_ok(code@))),
        (r matches Err(e) ==> (e is Serialize <==> engine_parse_ok(code@)
            && !engine_serialize_ok(code@))),
        code@.len() == 0 ==> r is Ok,
        (r matches Ok(v) ==> (code@.len() == 0 ==> v@.len() == 0)),
{
    let popts = ParserOptions { filename: filename.to_owned(), error_recovery: true, ..Default::default() };
    let Ok(sheet) = StyleSheet::parse(code, popts) else { return Err(ExtractError::Parse) };
    let dopts = Some(DependencyOptions { remove_imports: false });
    let Ok(out) = sheet.to_css(PrinterOptions { analyze_dependencies: dopts, ..Default::default() }) else {
        return Err(ExtractError::Serialize)
    };
    Ok(out.dependencies.unwrap_or_default().into_iter().map(|d| match d {
        Dependency::Import(i) => Dep::Import(i.url),
        Dependency::Url(u) => Dep::Url(u.url),
    }).collect())
}

} // verus!
