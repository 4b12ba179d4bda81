use vstd::prelude::*;

verus! {
/// The kind of a token, as the lexer tells them apart.
#[derive(Debug, Copy, Clone, PartialEq, Eq, Hash, Structural)]
pub enum TokenKind {
    Root,
    Whitespace,
    Comment,
    Ident,
    IntLit,
    FloatLit,
    ModKw,
    UseKw,
    PubKw,
    FnKw,
    TypeKw,
    ApplyKw,
    ToKw,
    WhereKw,
    MutKw,
    IfKw,
    ElseKw,
    StructKw,
    TraitKw,
    LetKw,
    ReturnKw,
    INKw,
    UNKw,
    F64Kw,
    F32Kw,
    BoolKw,
    Comma,
    CmpEq,
    CmpNeq,
    CmpLt,
    CmpGt,
    CmpLte,
    CmpGte,
    Colon,
    DoubleColon,
    Plus,
    Minus,
    Star,
    Slash,
    Arrow,
    FatArrow,
    LParen,
    RParen,
    LBrace,
    RBrace,
    Eq,
    SemiColon,
    Error,
}

/// The kind of a node or token of a syntax tree. The kinds are numbered in
/// the order in which they are listed, from 0.
#[derive(Debug, Copy, Clone, PartialEq, Eq, Hash, PartialOrd, Ord, Structural)]
pub enum SyntaxKind {
    Root,
    BinExpr,
    PrefixExpr,
    ParenExpr,
    VarDecl,
    FnDecl,
    GenericList,
    FnParams,
    FnParam,
    ThisParam,
    TypeExpr,
    PrimitiveType,
    BlockExpr,
    ExprStmt,
    IdentExpr,
    IntExpr,
    FloatExpr,
    IfExpr,
    TypeDecl,
    StructType,
    StructTypeField,
    TraitDecl,
    TraitMethod,
    IdentType,
    CallExpr,
    ReturnStmt,
    ModDecl,
    UseDecl,
    PathExpr,
    StructExpr,
    StructExprField,
    TupleExpr,
    TupleType,
    ApplyDecl,
    ApplyBlock,

    Whitespace,
    Comment,
    ModKw,
    UseKw,
    PubKw,
    FnKw,
    TypeKw,
    ApplyKw,
    ToKw,
    WhereKw,
    MutKw,
    IfKw,
    ElseKw,
    StructKw,
    TraitKw,
    LetKw,
    ReturnKw,
    INKw,
    UNKw,
    F64Kw,
    F32Kw,
    BoolKw,
    Ident,

    Comma,
    CmpEq,
    CmpNeq,
    CmpLt,
    CmpGt,
    CmpLte,
    CmpGte,
    Colon,
    DoubleColon,
    Plus,
    Minus,
    Star,
    Slash,
    Arrow,
    FatArrow,
    LParen,
    RParen,
    LBrace,
    RBrace,
    Eq,
    SemiColon,
    Error,
}

/// The number of syntax kinds.
pub const SYNTAX_KIND_COUNT: u16 = 80;

/// The number of a syntax kind.
pub open spec fn raw_of(kind: SyntaxKind) -> u16 {
    match kind {
        SyntaxKind::Root => 0,
        SyntaxKind::BinExpr => 1,
        SyntaxKind::PrefixExpr => 2,
        SyntaxKind::ParenExpr => 3,
        SyntaxKind::VarDecl => 4,
        SyntaxKind::FnDecl => 5,
        SyntaxKind::GenericList => 6,
        SyntaxKind::FnParams => 7,
        SyntaxKind::FnParam => 8,
        SyntaxKind::ThisParam => 9,
        SyntaxKind::TypeExpr => 10,
        SyntaxKind::PrimitiveType => 11,
        SyntaxKind::BlockExpr => 12,
        SyntaxKind::ExprStmt => 13,
        SyntaxKind::IdentExpr => 14,
        SyntaxKind::IntExpr => 15,
        SyntaxKind::FloatExpr => 16,
        SyntaxKind::IfExpr => 17,
        SyntaxKind::TypeDecl => 18,
        SyntaxKind::StructType => 19,
        SyntaxKind::StructTypeField => 20,
        SyntaxKind::TraitDecl => 21,
        SyntaxKind::TraitMethod => 22,
        SyntaxKind::IdentType => 23,
        SyntaxKind::CallExpr => 24,
        SyntaxKind::ReturnStmt => 25,
        SyntaxKind::ModDecl => 26,
        SyntaxKind::UseDecl => 27,
        SyntaxKind::PathExpr => 28,
        SyntaxKind::StructExpr => 29,
        SyntaxKind::StructExprField => 30,
        SyntaxKind::TupleExpr => 31,
        SyntaxKind::TupleType => 32,
        SyntaxKind::ApplyDecl => 33,
        SyntaxKind::ApplyBlock => 34,
        SyntaxKind::Whitespace => 35,
        SyntaxKind::Comment => 36,
        SyntaxKind::ModKw => 37,
        SyntaxKind::UseKw => 38,
        SyntaxKind::PubKw => 39,
        SyntaxKind::FnKw => 40,
        SyntaxKind::TypeKw => 41,
        SyntaxKind::ApplyKw => 42,
        SyntaxKind::ToKw => 43,
        SyntaxKind::WhereKw => 44,
        SyntaxKind::MutKw => 45,
        SyntaxKind::IfKw => 46,
        SyntaxKind::ElseKw => 47,
        SyntaxKind::StructKw => 48,
        SyntaxKind::TraitKw => 49,
        SyntaxKind::LetKw => 50,
        SyntaxKind::ReturnKw => 51,
        SyntaxKind::INKw => 52,
        SyntaxKind::UNKw => 53,
        SyntaxKind::F64Kw => 54,
        SyntaxKind::F32Kw => 55,
        SyntaxKind::BoolKw => 56,
        SyntaxKind::Ident => 57,
        SyntaxKind::Comma => 58,
        SyntaxKind::CmpEq => 59,
        SyntaxKind::CmpNeq => 60,
        SyntaxKind::CmpLt => 61,
        SyntaxKind::CmpGt => 62,
        SyntaxKind::CmpLte => 63,
        SyntaxKind::CmpGte => 64,
        SyntaxKind::Colon => 65,
        SyntaxKind::DoubleColon => 66,
        SyntaxKind::Plus => 67,
        SyntaxKind::Minus => 68,
        SyntaxKind::Star => 69,
        SyntaxKind::Slash => 70,
        SyntaxKind::Arrow => 71,
        SyntaxKind::FatArrow => 72,
        SyntaxKind::LParen => 73,
        SyntaxKind::RParen => 74,
        SyntaxKind::LBrace => 75,
        SyntaxKind::RBrace => 76,
        SyntaxKind::Eq => 77,
        SyntaxKind::SemiColon => 78,
        SyntaxKind::Error => 79,
    }
}

/// The syntax kind that a token of the kind `token_kind` has in a tree.
pub open spec fn syntax_kind_of(token_kind: TokenKind) -> SyntaxKind {
    match token_kind {
        TokenKind::Root => SyntaxKind::Root,
        TokenKind::Whitespace => SyntaxKind::Whitespace,
        TokenKind::Comment => SyntaxKind::Comment,
        TokenKind::Ident => SyntaxKind::Ident,
        TokenKind::IntLit => SyntaxKind::IntExpr,
        TokenKind::FloatLit => SyntaxKind::FloatExpr,
        TokenKind::ModKw => SyntaxKind::ModKw,
        TokenKind::UseKw => SyntaxKind::UseKw,
        TokenKind::PubKw => SyntaxKind::PubKw,
        TokenKind::FnKw => SyntaxKind::FnKw,
        TokenKind::TypeKw => SyntaxKind::TypeKw,
        TokenKind::ApplyKw => SyntaxKind::ApplyDecl,
        TokenKind::ToKw => SyntaxKind::ToKw,
        TokenKind::WhereKw => SyntaxKind::WhereKw,
        TokenKind::MutKw => SyntaxKind::MutKw,
        TokenKind::IfKw => SyntaxKind::IfKw,
        TokenKind::ElseKw => SyntaxKind::ElseKw,
        TokenKind::StructKw => SyntaxKind::StructKw,
        TokenKind::TraitKw => SyntaxKind::TraitKw,
        TokenKind::LetKw => SyntaxKind::LetKw,
        TokenKind::ReturnKw => SyntaxKind::ReturnKw,
        TokenKind::INKw => SyntaxKind::INKw,
        TokenKind::UNKw => SyntaxKind::UNKw,
        TokenKind::F64Kw => SyntaxKind::F64Kw,
        TokenKind::F32Kw => SyntaxKind::F32Kw,
        TokenKind::BoolKw => SyntaxKind::BoolKw,
        TokenKind::Comma => SyntaxKind::Comma,
        TokenKind::CmpEq => SyntaxKind::CmpEq,
        TokenKind::CmpNeq => SyntaxKind::CmpNeq,
        TokenKind::CmpLt => SyntaxKind::CmpLt,
        TokenKind::CmpGt => SyntaxKind::CmpGt,
        TokenKind::CmpLte => SyntaxKind::CmpLte,
        TokenKind::CmpGte => SyntaxKind::CmpGte,
        TokenKind::Colon => SyntaxKind::Colon,
        TokenKind::DoubleColon => SyntaxKind::DoubleColon,
        TokenKind::Plus => SyntaxKind::Plus,
        TokenKind::Minus => SyntaxKind::Minus,
        TokenKind::Star => SyntaxKind::Star,
        TokenKind::Slash => SyntaxKind::Slash,
        TokenKind::Arrow => SyntaxKind::Arrow,
        TokenKind::FatArrow => SyntaxKind::FatArrow,
        TokenKind::LParen => SyntaxKind::LParen,
        TokenKind::RParen => SyntaxKind::RParen,
        TokenKind::LBrace => SyntaxKind::RBrace,
        TokenKind::RBrace => SyntaxKind::RBrace,
        TokenKind::Eq => SyntaxKind::Eq,
        TokenKind::SemiColon => SyntaxKind::SemiColon,
        TokenKind::Error => SyntaxKind::Error,
    }
}

impl From<TokenKind> for SyntaxKind {
    fn from(token_kind: TokenKind) -> (kind: SyntaxKind) {
        match token_kind {
            TokenKind::Root => SyntaxKind::Root,
            TokenKind::Whitespace => SyntaxKind::Whitespace,
            TokenKind::Comment => SyntaxKind::Comment,
            TokenKind::Ident => SyntaxKind::Ident,
            TokenKind::IntLit => SyntaxKind::IntExpr,
            TokenKind::FloatLit => SyntaxKind::FloatExpr,
            TokenKind::ModKw => SyntaxKind::ModKw,
            TokenKind::UseKw => SyntaxKind::UseKw,
            TokenKind::PubKw => SyntaxKind::PubKw,
            TokenKind::FnKw => SyntaxKind::FnKw,
            TokenKind::TypeKw => SyntaxKind::TypeKw,
            TokenKind::ApplyKw => SyntaxKind::ApplyDecl,
            TokenKind::ToKw => SyntaxKind::ToKw,
            TokenKind::WhereKw => SyntaxKind::WhereKw,
            TokenKind::MutKw => SyntaxKind::MutKw,
            TokenKind::IfKw => SyntaxKind::IfKw,
            TokenKind::ElseKw => SyntaxKind::ElseKw,
            TokenKind::StructKw => SyntaxKind::StructKw,
            TokenKind::TraitKw => SyntaxKind::TraitKw,
            TokenKind::LetKw => SyntaxKind::LetKw,
            TokenKind::ReturnKw => SyntaxKind::ReturnKw,
            TokenKind::INKw => SyntaxKind::INKw,
            TokenKind::UNKw => SyntaxKind::UNKw,
            TokenKind::F64Kw => SyntaxKind::F64Kw,
            TokenKind::F32Kw => SyntaxKind::F32Kw,
            TokenKind::BoolKw => SyntaxKind::BoolKw,
            TokenKind::Comma => SyntaxKind::Comma,
            TokenKind::CmpEq => SyntaxKind::CmpEq,
            TokenKind::CmpNeq => SyntaxKind::CmpNeq,
            TokenKind::CmpLt => SyntaxKind::CmpLt,
            TokenKind::CmpGt => SyntaxKind::CmpGt,
            TokenKind::CmpLte => SyntaxKind::CmpLte,
            TokenKind::CmpGte => SyntaxKind::CmpGte,
            TokenKind::Colon => SyntaxKind::Colon,
            TokenKind::DoubleColon => SyntaxKind::DoubleColon,
            TokenKind::Plus => SyntaxKind::Plus,
            TokenKind::Minus => SyntaxKind::Minus,
            TokenKind::Star => SyntaxKind::Star,
            TokenKind::Slash => SyntaxKind::Slash,
            TokenKind::Arrow => SyntaxKind::Arrow,
            TokenKind::FatArrow => SyntaxKind::FatArrow,
            TokenKind::LParen => SyntaxKind::LParen,
            TokenKind::RParen => SyntaxKind::RParen,
            TokenKind::LBrace => SyntaxKind::RBrace,
            TokenKind::RBrace => SyntaxKind::RBrace,
            TokenKind::Eq => SyntaxKind::Eq,
            TokenKind::SemiColon => SyntaxKind::SemiColon,
            TokenKind::Error => SyntaxKind::Error,
        }
    }
}

impl vstd::std_specs::convert::FromSpecImpl<TokenKind> for SyntaxKind {
    open spec fn obeys_from_spec() -> bool {
        true
    }

    open spec fn from_spec(token_kind: TokenKind) -> SyntaxKind {
        syntax_kind_of(token_kind)
    }
}

impl SyntaxKind {
    /// The number of this kind.
    pub fn to_u16(self) -> (raw: u16)
        ensures
            raw == raw_of(self),
            raw < SYNTAX_KIND_COUNT,
    {
        match self {
            SyntaxKind::Root => 0,
            SyntaxKind::BinExpr => 1,
            SyntaxKind::PrefixExpr => 2,
            SyntaxKind::ParenExpr => 3,
            SyntaxKind::VarDecl => 4,
            SyntaxKind::FnDecl => 5,
            SyntaxKind::GenericList => 6,
            SyntaxKind::FnParams => 7,
            SyntaxKind::FnParam => 8,
            SyntaxKind::ThisParam => 9,
            SyntaxKind::TypeExpr => 10,
            SyntaxKind::PrimitiveType => 11,
            SyntaxKind::BlockExpr => 12,
            SyntaxKind::ExprStmt => 13,
            SyntaxKind::IdentExpr => 14,
            SyntaxKind::IntExpr => 15,
            SyntaxKind::FloatExpr => 16,
            SyntaxKind::IfExpr => 17,
            SyntaxKind::TypeDecl => 18,
            SyntaxKind::StructType => 19,
            SyntaxKind::StructTypeField => 20,
            SyntaxKind::TraitDecl => 21,
            SyntaxKind::TraitMethod => 22,
            SyntaxKind::IdentType => 23,
            SyntaxKind::CallExpr => 24,
            SyntaxKind::ReturnStmt => 25,
            SyntaxKind::ModDecl => 26,
            SyntaxKind::UseDecl => 27,
            SyntaxKind::PathExpr => 28,
            SyntaxKind::StructExpr => 29,
            SyntaxKind::StructExprField => 30,
            SyntaxKind::TupleExpr => 31,
            SyntaxKind::TupleType => 32,
            SyntaxKind::ApplyDecl => 33,
            SyntaxKind::ApplyBlock => 34,
            SyntaxKind::Whitespace => 35,
            SyntaxKind::Comment => 36,
            SyntaxKind::ModKw => 37,
            SyntaxKind::UseKw => 38,
            SyntaxKind::PubKw => 39,
            SyntaxKind::FnKw => 40,
            SyntaxKind::TypeKw => 41,
            SyntaxKind::ApplyKw => 42,
            SyntaxKind::ToKw => 43,
            SyntaxKind::WhereKw => 44,
            SyntaxKind::MutKw => 45,
            SyntaxKind::IfKw => 46,
            SyntaxKind::ElseKw => 47,
            SyntaxKind::StructKw => 48,
            SyntaxKind::TraitKw => 49,
            SyntaxKind::LetKw => 50,
            SyntaxKind::ReturnKw => 51,
            SyntaxKind::INKw => 52,
            SyntaxKind::UNKw => 53,
            SyntaxKind::F64Kw => 54,
            SyntaxKind::F32Kw => 55,
            SyntaxKind::BoolKw => 56,
            SyntaxKind::Ident => 57,
            SyntaxKind::Comma => 58,
            SyntaxKind::CmpEq => 59,
            SyntaxKind::CmpNeq => 60,
            SyntaxKind::CmpLt => 61,
            SyntaxKind::CmpGt => 62,
            SyntaxKind::CmpLte => 63,
            SyntaxKind::CmpGte => 64,
            SyntaxKind::Colon => 65,
            SyntaxKind::DoubleColon => 66,
            SyntaxKind::Plus => 67,
            SyntaxKind::Minus => 68,
            SyntaxKind::Star => 69,
            SyntaxKind::Slash => 70,
            SyntaxKind::Arrow => 71,
            SyntaxKind::FatArrow => 72,
            SyntaxKind::LParen => 73,
            SyntaxKind::RParen => 74,
            SyntaxKind::LBrace => 75,
            SyntaxKind::RBrace => 76,
            SyntaxKind::Eq => 77,
            SyntaxKind::SemiColon => 78,
            SyntaxKind::Error => 79,
        }
    }

    /// The kind with the number `raw`, if there is one.
    pub fn from_u16(raw: u16) -> (kind: Option<SyntaxKind>)
        ensures
            kind is Some <==> raw < SYNTAX_KIND_COUNT,
            kind matches Some(found) ==> raw_of(found) == raw,
    {
        match raw {
            0 => Some(SyntaxKind::Root),
            1 => Some(SyntaxKind::BinExpr),
            2 => Some(SyntaxKind::PrefixExpr),
            3 => Some(SyntaxKind::ParenExpr),
            4 => Some(SyntaxKind::VarDecl),
            5 => Some(SyntaxKind::FnDecl),
            6 => Some(SyntaxKind::GenericList),
            7 => Some(SyntaxKind::FnParams),
            8 => Some(SyntaxKind::FnParam),
            9 => Some(SyntaxKind::ThisParam),
            10 => Some(SyntaxKind::TypeExpr),
            11 => Some(SyntaxKind::PrimitiveType),
            12 => Some(SyntaxKind::BlockExpr),
            13 => Some(SyntaxKind::ExprStmt),
            14 => Some(SyntaxKind::IdentExpr),
            15 => Some(SyntaxKind::IntExpr),
            16 => Some(SyntaxKind::FloatExpr),
            17 => Some(SyntaxKind::IfExpr),
            18 => Some(SyntaxKind::TypeDecl),
            19 => Some(SyntaxKind::StructType),
            20 => Some(SyntaxKind::StructTypeField),
            21 => Some(SyntaxKind::TraitDecl),
            22 => Some(SyntaxKind::TraitMethod),
            23 => Some(SyntaxKind::IdentType),
            24 => Some(SyntaxKind::CallExpr),
            25 => Some(SyntaxKind::ReturnStmt),
            26 => Some(SyntaxKind::ModDecl),
            27 => Some(SyntaxKind::UseDecl),
            28 => Some(SyntaxKind::PathExpr),
            29 => Some(SyntaxKind::StructExpr),
            30 => Some(SyntaxKind::StructExprField),
            31 => Some(SyntaxKind::TupleExpr),
            32 => Some(SyntaxKind::TupleType),
            33 => Some(SyntaxKind::ApplyDecl),
            34 => Some(SyntaxKind::ApplyBlock),
            35 => Some(SyntaxKind::Whitespace),
            36 => Some(SyntaxKind::Comment),
            37 => Some(SyntaxKind::ModKw),
            38 => Some(SyntaxKind::UseKw),
            39 => Some(SyntaxKind::PubKw),
            40 => Some(SyntaxKind::FnKw),
            41 => Some(SyntaxKind::TypeKw),
            42 => Some(SyntaxKind::ApplyKw),
            43 => Some(SyntaxKind::ToKw),
            44 => Some(SyntaxKind::WhereKw),
            45 => Some(SyntaxKind::MutKw),
            46 => Some(SyntaxKind::IfKw),
            47 => Some(SyntaxKind::ElseKw),
            48 => Some(SyntaxKind::StructKw),
            49 => Some(SyntaxKind::TraitKw),
            50 => Some(SyntaxKind::LetKw),
            51 => Some(SyntaxKind::ReturnKw),
            52 => Some(SyntaxKind::INKw),
            53 => Some(SyntaxKind::UNKw),
            54 => Some(SyntaxKind::F64Kw),
            55 => Some(SyntaxKind::F32Kw),
            56 => Some(SyntaxKind::BoolKw),
            57 => Some(SyntaxKind::Ident),
            58 => Some(SyntaxKind::Comma),
            59 => Some(SyntaxKind::CmpEq),
            60 => Some(SyntaxKind::CmpNeq),
            61 => Some(SyntaxKind::CmpLt),
            62 => Some(SyntaxKind::CmpGt),
            63 => Some(SyntaxKind::CmpLte),
            64 => Some(SyntaxKind::CmpGte),
            65 => Some(SyntaxKind::Colon),
            66 => Some(SyntaxKind::DoubleColon),
            67 => Some(SyntaxKind::Plus),
            68 => Some(SyntaxKind::Minus),
            69 => Some(SyntaxKind::Star),
            70 => Some(SyntaxKind::Slash),
            71 => Some(SyntaxKind::Arrow),
            72 => Some(SyntaxKind::FatArrow),
            73 => Some(SyntaxKind::LParen),
            74 => Some(SyntaxKind::RParen),
            75 => Some(SyntaxKind::LBrace),
            76 => Some(SyntaxKind::RBrace),
            77 => Some(SyntaxKind::Eq),
            78 => Some(SyntaxKind::SemiColon),
            79 => Some(SyntaxKind::Error),
            _ => None,
        }
    }

    /// The kind with the number `raw`, which has to be the number of a kind.
    pub fn kind_from_raw(raw: u16) -> (kind: SyntaxKind)
        requires
            raw < SYNTAX_KIND_COUNT,
        ensures
            raw_of(kind) == raw,
    {
        match SyntaxKind::from_u16(raw) {
            Some(kind) => kind,
            None => SyntaxKind::Error,
        }
    }

    /// The number of the kind `kind`.
    pub fn kind_to_raw(kind: SyntaxKind) -> (raw: u16)
        ensures
            raw == raw_of(kind),
    {
        kind.to_u16()
    }
}

/// A kind is found again from its number.
pub proof fn law_kind_numbers_are_distinct(a: SyntaxKind, b: SyntaxKind)
    ensures
        raw_of(a) == raw_of(b) <==> a == b,
        raw_of(a) < SYNTAX_KIND_COUNT,
{
}

} // verus!
