//! The syntax-tree types of the parser crates, and the two outside calls that
//! building a helper body needs: parsing a script and scrubbing its positions.
use swc_common::sync::Lrc;
use swc_common::{FileName, SourceMap};
use swc_ecma_ast::{ModuleItem, Stmt};
use swc_ecma_parser::{Parser, StringInput, Syntax};
use vstd::prelude::*;

verus! {

#[verifier::external_type_specification]
#[verifier::external_body]
pub struct ExStmt(swc_ecma_ast::Stmt);

#[verifier::external_type_specification]
#[verifier::external_body]
pub struct ExModuleItem(swc_ecma_ast::ModuleItem);

#[verifier::external_type_specification]
#[verifier::external_body]
pub struct ExParseError(swc_ecma_parser::error::Error);

/// Relies on the derived `Clone` of `Stmt`: a deep copy, equal to the original.
pub assume_specification[ <swc_ecma_ast::Stmt as Clone>::clone ](s: &swc_ecma_ast::Stmt) -> (r:
    swc_ecma_ast::Stmt)
    ensures
        r == *s,
;

/// The statements that a text parses to as a standalone script, or `None`
/// where it is not a valid script.
pub uninterp spec fn parsed_script(src: Seq<char>) -> Option<Seq<Stmt>>;

/// The statements with every span replaced by the dummy span.
pub uninterp spec fn spans_dropped(s: Seq<Stmt>) -> Seq<Stmt>;

/// Relies on swc_ecma_parser's `Parser::parse_script`, run over a fresh source
/// map, for the statements of a script; whether it succeeds, and what it
/// yields, depend on the text alone.
#[verifier::external_body]
pub(crate) fn parse_script(src: &str) -> (r: Result<Vec<Stmt>, swc_ecma_parser::error::Error>)
    ensures
        match r {
            Ok(v) => parsed_script(src@) == Some(v@),
            Err(_) => parsed_script(src@) is None,
        },
{
    let cm = SourceMap::default();
    let fm = cm.new_source_file(Lrc::new(FileName::Anon), src.to_string());
    Parser::new(Syntax::default(), StringInput::from(&*fm), None).parse_script().map(|s| s.body)
}

/// Relies on swc_ecma_utils's `drop_span`, which sets every span in the tree to
/// `DUMMY_SP`: it keeps the statements one for one, and a second pass changes
/// nothing.
#[verifier::external_body]
pub(crate) fn drop_spans(s: Vec<Stmt>) -> (r: Vec<Stmt>)
    ensures
        r@ == spans_dropped(s@),
        r@.len() == s@.len(),
        spans_dropped(r@) == r@,
{
    swc_ecma_utils::drop_span(s)
}

/// The module item that holds a statement.
pub uninterp spec fn stmt_item(s: Stmt) -> ModuleItem;

/// Relies on `ModuleItem`'s `From<Stmt>`, which wraps the statement in the
/// `ModuleItem::Stmt` variant.
#[verifier::external_body]
pub(crate) fn to_item(s: Stmt) -> (r: ModuleItem)
    ensures
        r == stmt_item(s),
{
    ModuleItem::from(s)
}

/// A statement sequence in which no node carries a real position.
pub open spec fn span_free(s: Seq<Stmt>) -> bool {
    spans_dropped(s) == s
}

} // verus!
