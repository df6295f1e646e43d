use vstd::prelude::*;
use crate::definition::{Definition, SourceSpan, SymbolKind};
use rls_analysis::DefKind as K;
use rls_analysis::{AError, AnalysisHost, Id};
use rls_span::{Column, Row};

verus! {

/// `rls_analysis::Id`, an index's identifier of a definition, carried as is.
#[verifier::external_type_specification]
#[verifier::external_body]
pub struct ExId(rls_analysis::Id);

/// `rls_analysis::AError`, the index's error, carried as is.
#[verifier::external_type_specification]
#[verifier::external_body]
pub struct ExAError(rls_analysis::AError);

/// `rls_analysis::DefKind`, only ever converted by `kind_from`.
#[verifier::external_type_specification]
#[verifier::external_body]
pub struct ExDefKind(rls_analysis::DefKind);

/// Relies on the variants of `rls_analysis::DefKind` (from `rls_data`): each
/// is mapped to the `SymbolKind` variant of the same name.
#[verifier::external_body]
fn kind_from(k: rls_analysis::DefKind) -> SymbolKind {
    match k {
        K::Enum => SymbolKind::Enum, K::TupleVariant => SymbolKind::TupleVariant,
        K::StructVariant => SymbolKind::StructVariant, K::Tuple => SymbolKind::Tuple,
        K::Struct => SymbolKind::Struct, K::Union => SymbolKind::Union, K::Trait => SymbolKind::Trait,
        K::Function => SymbolKind::Function, K::ForeignFunction => SymbolKind::ForeignFunction,
        K::Method => SymbolKind::Method, K::Macro => SymbolKind::Macro, K::Mod => SymbolKind::Mod,
        K::Type => SymbolKind::Type, K::Local => SymbolKind::Local, K::Static => SymbolKind::Static,
        K::ForeignStatic => SymbolKind::ForeignStatic, K::Const => SymbolKind::Const,
        K::Field => SymbolKind::Field, K::ExternType => SymbolKind::ExternType,
    }
}

/// An analysis index, loaded (or not) by whoever built the host. The host is
/// kept out of sight of the verifier, which cannot declare its loader bound;
/// the wrappers below are the only way the library reaches it.
#[verifier::external_body]
pub struct AnalysisIndex {
    pub host: AnalysisHost,
}

/// Relies on `AnalysisHost::search_for_id`: the identifiers of the
/// definitions whose short name is `name`, in the index's order. What it
/// returns depends on the loaded index, so nothing is stated of it.
#[verifier::external_body]
pub(crate) fn search_ids(index: &AnalysisIndex, name: &str) -> Result<Vec<Id>, AError> {
    index.host.search_for_id(name)
}

/// Relies on `AnalysisHost::get_def`: the record of identifier `id`, copied
/// field by field into a `Definition`. It depends on the loaded index.
#[verifier::external_body]
pub(crate) fn fetch_def(index: &AnalysisIndex, id: Id) -> Result<Definition, AError> {
    let d = index.host.get_def(id)?;
    let (r, file) = (d.span.range, d.span.file.to_string_lossy().into_owned());
    let span = SourceSpan {
        file, row_start: r.row_start.0, row_end: r.row_end.0,
        col_start: r.col_start.0, col_end: r.col_end.0,
    };
    let (name, qualname, docs) = (d.name, d.qualname, d.docs);
    Ok(Definition { kind: kind_from(d.kind), name, qualname, docs, span, parent: d.parent })
}

/// Relies on `AnalysisHost::doc_url`: the documentation URL for the
/// definition at `span`, where the index can derive one.
#[verifier::external_body]
pub(crate) fn doc_url(index: &AnalysisIndex, span: &SourceSpan) -> Result<String, AError> {
    let s = rls_analysis::Span::new(
        Row::new_zero_indexed(span.row_start), Row::new_zero_indexed(span.row_end),
        Column::new_zero_indexed(span.col_start), Column::new_zero_indexed(span.col_end),
        std::path::PathBuf::from(span.file.as_str()),
    );
    index.host.doc_url(&s)
}

} // verus!
