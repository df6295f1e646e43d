use vstd::prelude::*;

verus! {

/// The category of a definition, as the analysis index records it.
pub enum SymbolKind {
    Enum,
    TupleVariant,
    StructVariant,
    Tuple,
    Struct,
    Union,
    Trait,
    Function,
    ForeignFunction,
    Method,
    Macro,
    Mod,
    Type,
    Local,
    Static,
    ForeignStatic,
    Const,
    Field,
    ExternType,
}

/// The label a kind is shown under: its variant name.
pub open spec fn kind_label(k: SymbolKind) -> Seq<char> {
    match k {
        SymbolKind::Enum => "Enum"@,
        SymbolKind::TupleVariant => "TupleVariant"@,
        SymbolKind::StructVariant => "StructVariant"@,
        SymbolKind::Tuple => "Tuple"@,
        SymbolKind::Struct => "Struct"@,
        SymbolKind::Union => "Union"@,
        SymbolKind::Trait => "Trait"@,
        SymbolKind::Function => "Function"@,
        SymbolKind::ForeignFunction => "ForeignFunction"@,
        SymbolKind::Method => "Method"@,
        SymbolKind::Macro => "Macro"@,
        SymbolKind::Mod => "Mod"@,
        SymbolKind::Type => "Type"@,
        SymbolKind::Local => "Local"@,
        SymbolKind::Static => "Static"@,
        SymbolKind::ForeignStatic => "ForeignStatic"@,
        SymbolKind::Const => "Const"@,
        SymbolKind::Field => "Field"@,
        SymbolKind::ExternType => "ExternType"@,
    }
}

impl SymbolKind {
    /// The kind's label.
    pub fn label(&self) -> (r: &'static str)
        ensures
            r@ == kind_label(*self),
    {
        match self {
            SymbolKind::Enum => "Enum",
            SymbolKind::TupleVariant => "TupleVariant",
            SymbolKind::StructVariant => "StructVariant",
            SymbolKind::Tuple => "Tuple",
            SymbolKind::Struct => "Struct",
            SymbolKind::Union => "Union",
            SymbolKind::Trait => "Trait",
            SymbolKind::Function => "Function",
            SymbolKind::ForeignFunction => "ForeignFunction",
            SymbolKind::Method => "Method",
            SymbolKind::Macro => "Macro",
            SymbolKind::Mod => "Mod",
            SymbolKind::Type => "Type",
            SymbolKind::Local => "Local",
            SymbolKind::Static => "Static",
            SymbolKind::ForeignStatic => "ForeignStatic",
            SymbolKind::Const => "Const",
            SymbolKind::Field => "Field",
            SymbolKind::ExternType => "ExternType",
        }
    }

    pub fn duplicate(&self) -> (r: SymbolKind)
        ensures
            r == *self,
    {
        match self {
            SymbolKind::Enum => SymbolKind::Enum,
            SymbolKind::TupleVariant => SymbolKind::TupleVariant,
            SymbolKind::StructVariant => SymbolKind::StructVariant,
            SymbolKind::Tuple => SymbolKind::Tuple,
            SymbolKind::Struct => SymbolKind::Struct,
            SymbolKind::Union => SymbolKind::Union,
            SymbolKind::Trait => SymbolKind::Trait,
            SymbolKind::Function => SymbolKind::Function,
            SymbolKind::ForeignFunction => SymbolKind::ForeignFunction,
            SymbolKind::Method => SymbolKind::Method,
            SymbolKind::Macro => SymbolKind::Macro,
            SymbolKind::Mod => SymbolKind::Mod,
            SymbolKind::Type => SymbolKind::Type,
            SymbolKind::Local => SymbolKind::Local,
            SymbolKind::Static => SymbolKind::Static,
            SymbolKind::ForeignStatic => SymbolKind::ForeignStatic,
            SymbolKind::Const => SymbolKind::Const,
            SymbolKind::Field => SymbolKind::Field,
            SymbolKind::ExternType => SymbolKind::ExternType,
        }
    }
}

/// A source location: file and zero-based row and column range.
pub struct SourceSpan {
    pub file: String,
    pub row_start: u32,
    pub row_end: u32,
    pub col_start: u32,
    pub col_end: u32,
}

/// A resolved definition record.
pub struct Definition {
    pub kind: SymbolKind,
    /// The short name.
    pub name: String,
    /// The full namespaced path.
    pub qualname: String,
    /// Raw documentation text, possibly empty.
    pub docs: String,
    pub span: SourceSpan,
    /// The enclosing definition, where the index records one.
    pub parent: Option<rls_analysis::Id>,
}

impl SourceSpan {
    pub fn duplicate(&self) -> (r: SourceSpan)
        ensures
            r == *self,
    {
        SourceSpan {
            file: self.file.clone(),
            row_start: self.row_start,
            row_end: self.row_end,
            col_start: self.col_start,
            col_end: self.col_end,
        }
    }
}

impl Definition {
    /// A copy of the record, equal to it in every field.
    pub fn duplicate(&self) -> (r: Definition)
        ensures
            r == *self,
    {
        Definition {
            kind: self.kind.duplicate(),
            name: self.name.clone(),
            qualname: self.qualname.clone(),
            docs: self.docs.clone(),
            span: self.span.duplicate(),
            parent: self.parent,
        }
    }
}

} // verus!
