use vstd::prelude::*;

verus! {

/// A function parameter pattern, as a closed set of structural variants.
#[derive(PartialEq, Eq)]
pub enum Pat {
    /// A plain bound identifier.
    Ident(String),
    /// `_`: binds nothing.
    Wild,
    /// A literal pattern: binds nothing.
    Lit,
    /// A range pattern: binds nothing.
    Range,
    /// A bare path (unit struct, enum constant): binds nothing.
    Path,
    /// A tuple, or a tuple-struct pattern with sub-patterns.
    Tuple(Vec<Pat>),
    /// A struct-destructuring pattern: the fields' sub-patterns, in order.
    Struct(Vec<Pat>),
    /// A slice pattern: prefix elements, optional rest binding, suffix elements.
    Slice(Vec<Pat>, Option<Box<Pat>>, Vec<Pat>),
    /// A boxed, referenced or parenthesized pattern around another pattern.
    Wrapped(Box<Pat>),
    /// A pattern produced by a macro invocation, opaque to inspection;
    /// carries its source location.
    Mac(u64),
}

/// A function or method body. Either the user's original body, opaque to the
/// engine and identified by a token, or a synthesized tracing wrapper.
#[derive(PartialEq, Eq)]
pub enum Block {
    Orig(u64),
    Traced(TracedBody),
}

/// The synthesized replacement body, as structured values: the trace tags,
/// the pause flag, the traced element's name, the reported argument names in
/// order, and the original body it wraps.
#[derive(PartialEq, Eq)]
pub struct TracedBody {
    pub prefix_enter: String,
    pub prefix_exit: String,
    pub pause: bool,
    pub fn_name: String,
    pub args: Vec<String>,
    pub inner: Box<Block>,
}

/// A function or method definition: its name, its parameter patterns in
/// declaration order, and its body.
#[derive(PartialEq, Eq)]
pub struct FnDef {
    pub name: String,
    pub params: Vec<Pat>,
    pub body: Block,
}

/// The type ascribed to a scope-local counter declaration.
#[derive(Clone, Copy, PartialEq, Eq)]
pub enum StaticTy {
    U32,
    Other,
}

/// The initializer of a scope-local counter declaration.
#[derive(Clone, Copy, PartialEq, Eq)]
pub enum StaticInit {
    Int(u64),
    Other,
}

/// A scope-local counter declaration inside a module.
#[derive(PartialEq, Eq)]
pub struct StaticDecl {
    pub span: u64,
    pub name: String,
    pub mutable: bool,
    pub ty: StaticTy,
    pub init: StaticInit,
}

/// One member of an implementation block: a method, or a member of
/// another kind (an associated constant or type), opaque to the engine.
#[derive(PartialEq, Eq)]
pub enum ImplMember {
    Method(FnDef),
    Opaque(u64),
}

/// One element of a module, as a closed set of variants. Nested modules and
/// any unrecognized elements are opaque and pass through unchanged.
#[derive(PartialEq, Eq)]
pub enum ModItem {
    Func(FnDef),
    ImplBlock(Vec<ImplMember>),
    Static(StaticDecl),
    Module(Vec<ModItem>),
    Opaque(u64),
}

/// The code element an annotation sits on.
#[derive(PartialEq, Eq)]
pub enum Target {
    /// An item: a function, a module, an implementation block, a counter
    /// declaration, or an opaque item.
    Item(ModItem),
    /// A method, when the annotation sits immediately on it.
    Method(FnDef),
    /// A trait item: the annotation does not apply.
    TraitItem(u64),
    /// A foreign item: the annotation does not apply.
    ForeignItem(u64),
    /// A bare statement: the annotation does not apply.
    Stmt(u64),
    /// A bare expression: the annotation does not apply.
    Expr(u64),
}

/// The character contents of a list of strings, in order.
pub open spec fn str_views(s: Seq<String>) -> Seq<Seq<char>> {
    s.map_values(|x: String| x@)
}

/// The name of the scope-local depth counter.
pub open spec fn depth_name() -> Seq<char> {
    "DEPTH"@
}

/// Whether a declaration claims the depth counter's name.
pub open spec fn is_depth_decl(s: StaticDecl) -> bool {
    s.name@ == depth_name()
}

/// Whether a declaration is a well-formed depth counter: mutable, 32-bit
/// unsigned, initially zero.
pub open spec fn depth_shape_ok(s: StaticDecl) -> bool {
    &&& s.mutable
    &&& s.ty is U32
    &&& s.init == StaticInit::Int(0)
}

} // verus!
