//! The syntactic model that the pass works on.
//!
//! Declarations are modelled down to exactly the level that the
//! classification and rewrite logic inspects: identifiers are strings,
//! and every construct the pass never looks inside (a multi-segment path,
//! a lifetime bound, an unusual pattern) is carried opaquely as its token
//! text, so that it passes through the transformation unchanged.
//!
//! Every executable type has a ghost counterpart (`Ty` / `TyV`, ...) in
//! which strings are `Seq<char>` and vectors are `Seq`; the `*_dv`
//! functions map a value to this mathematical model, and all contracts in
//! the crate are stated over it.

use vstd::prelude::*;

verus! {

/// A type, as far as the pass needs to understand it.
#[derive(Debug, PartialEq, Eq)]
pub enum Ty {
    /// A path of exactly one identifier, with the token text of its
    /// angle-bracketed argument list (empty when there is none).
    /// Multi-segment or qualified paths are carried as `Other`.
    Path { ident: String, args_text: String },
    /// A reference type `&T` or `&mut T`.
    Ref { mutable: bool, inner: Box<Ty> },
    /// A parameter-position existential type with its bound list.
    ImplTrait { bounds: Vec<Bound> },
    /// Any other type form, carried as token text.
    Other { text: String },
}

/// One angle-bracketed argument of a trait bound.
#[derive(Debug, PartialEq, Eq)]
pub enum TyArg {
    /// A type argument.
    Type(Ty),
    /// A lifetime or const argument, carried as token text.
    Other { text: String },
}

/// One bound of a type parameter or where-clause predicate.
#[derive(Debug, PartialEq, Eq)]
pub enum Bound {
    /// A trait bound: the token text of the path up to its last segment
    /// (empty for a single-segment path), the last segment's identifier,
    /// and the last segment's angle-bracketed arguments.
    Trait { prefix: String, last: String, args: Vec<TyArg> },
    /// Any other bound (a lifetime, `?Sized`, ...), carried as token text.
    Other { text: String },
}

/// The ghost counterpart of [`Ty`].
pub enum TyV {
    Path { ident: Seq<char>, args_text: Seq<char> },
    Ref { mutable: bool, inner: Box<TyV> },
    ImplTrait { bounds: Seq<BoundV> },
    Other { text: Seq<char> },
}

/// The ghost counterpart of [`TyArg`].
pub enum TyArgV {
    Type(TyV),
    Other { text: Seq<char> },
}

/// The ghost counterpart of [`Bound`].
pub enum BoundV {
    Trait { prefix: Seq<char>, last: Seq<char>, args: Seq<TyArgV> },
    Other { text: Seq<char> },
}

/// The mathematical model of a type.
pub open spec fn ty_dv(t: Ty) -> TyV
    decreases t,
{
    match t {
        Ty::Path { ident, args_text } => TyV::Path { ident: ident@, args_text: args_text@ },
        Ty::Ref { mutable, inner } => TyV::Ref { mutable, inner: Box::new(ty_dv(*inner)) },
        Ty::ImplTrait { bounds } => TyV::ImplTrait { bounds: bounds_dv(bounds@) },
        Ty::Other { text } => TyV::Other { text: text@ },
    }
}

/// The mathematical model of a bound list.
pub open spec fn bounds_dv(s: Seq<Bound>) -> Seq<BoundV>
    decreases s,
{
    if s.len() == 0 {
        Seq::empty()
    } else {
        bounds_dv(s.subrange(0, s.len() - 1)).push(bound_dv(s[s.len() - 1]))
    }
}

/// The mathematical model of a bound.
pub open spec fn bound_dv(b: Bound) -> BoundV
    decreases b,
{
    match b {
        Bound::Trait { prefix, last, args } => BoundV::Trait {
            prefix: prefix@,
            last: last@,
            args: ty_args_dv(args@),
        },
        Bound::Other { text } => BoundV::Other { text: text@ },
    }
}

/// The mathematical model of a trait-bound argument list.
pub open spec fn ty_args_dv(s: Seq<TyArg>) -> Seq<TyArgV>
    decreases s,
{
    if s.len() == 0 {
        Seq::empty()
    } else {
        ty_args_dv(s.subrange(0, s.len() - 1)).push(ty_arg_dv(s[s.len() - 1]))
    }
}

/// The mathematical model of a trait-bound argument.
pub open spec fn ty_arg_dv(a: TyArg) -> TyArgV
    decreases a,
{
    match a {
        TyArg::Type(t) => TyArgV::Type(ty_dv(t)),
        TyArg::Other { text } => TyArgV::Other { text: text@ },
    }
}

/// `bounds_dv` maps a sequence elementwise.
pub proof fn lemma_bounds_dv(s: Seq<Bound>)
    ensures
        bounds_dv(s).len() == s.len(),
        forall|i: int| 0 <= i < s.len() ==> bounds_dv(s)[i] == bound_dv(s[i]),
    decreases s.len(),
{
    if s.len() > 0 {
        lemma_bounds_dv(s.subrange(0, s.len() - 1));
    }
}

/// `ty_args_dv` maps a sequence elementwise.
pub proof fn lemma_ty_args_dv(s: Seq<TyArg>)
    ensures
        ty_args_dv(s).len() == s.len(),
        forall|i: int| 0 <= i < s.len() ==> ty_args_dv(s)[i] == ty_arg_dv(s[i]),
    decreases s.len(),
{
    if s.len() > 0 {
        lemma_ty_args_dv(s.subrange(0, s.len() - 1));
    }
}

/// One parameter of a generic-parameter list.
#[derive(Debug, PartialEq, Eq)]
pub enum GenericParam {
    /// A type parameter with its inline bounds.
    TypeParam { ident: String, bounds: Vec<Bound> },
    /// A lifetime or const parameter, carried as token text.
    Other { text: String },
}

/// One predicate of a where-clause.
#[derive(Debug, PartialEq, Eq)]
pub enum WherePred {
    /// A predicate `bounded : bounds`.
    TypeBound { bounded: Ty, bounds: Vec<Bound> },
    /// Any other predicate, carried as token text.
    Other { text: String },
}

/// A declaration's generics: its parameter list and, when the declaration
/// has a where-clause, the predicates of that clause.
#[derive(Debug, PartialEq, Eq)]
pub struct Generics {
    pub params: Vec<GenericParam>,
    pub preds: Option<Vec<WherePred>>,
}

/// A parameter's binding pattern.
#[derive(Debug, PartialEq, Eq)]
pub enum Pat {
    /// A simple identifier binding, possibly `mut`.
    Ident { ident: String, is_mut: bool },
    /// Any other pattern, carried as token text; such a binding is not
    /// supported and makes the whole transformation fail.
    Other { text: String },
}

/// One parameter of a function declaration.
#[derive(Debug, PartialEq, Eq)]
pub enum Param {
    /// A receiver parameter (`self`, `&self`, `&mut self`, ...), carried
    /// as token text.
    Receiver { text: String },
    /// An ordinary `pattern: type` parameter.
    Typed { pat: Pat, ty: Ty },
}

/// An expression, as far as the call-site folder needs to understand it.
#[derive(Debug, PartialEq, Eq)]
pub enum Expr {
    /// A path expression that is a single bare identifier.
    Ident { ident: String },
    /// A method invocation `receiver.method(args)`.
    MethodCall { receiver: Box<Expr>, method: String, args: Vec<Expr> },
    /// A call `func(args)`.
    Call { func: Box<Expr>, args: Vec<Expr> },
    /// Any other expression: an uninterpreted head with its ordered
    /// sub-expressions.
    Other { head: String, subs: Vec<Expr> },
}

/// The inlining mark a declaration carries.
#[derive(Debug, Clone, Copy, PartialEq, Eq, Structural)]
pub enum Inlining {
    /// No mark.
    Default,
    /// Marked for aggressive inlining.
    Always,
    /// Marked to never be inlined.
    Never,
}

/// A function (or method) declaration.
#[derive(Debug, PartialEq, Eq)]
pub struct FnDecl {
    /// The visibility's token text; empty for inherited visibility.
    pub vis: String,
    pub ident: String,
    pub generics: Generics,
    pub params: Vec<Param>,
    /// The return type's token text; empty when the default is used.
    pub ret: String,
    pub inlining: Inlining,
    pub body: Expr,
}

/// An annotated item: either a function declaration, which the pass
/// transforms, or anything else, which it returns unchanged.
#[derive(Debug, PartialEq, Eq)]
pub enum Item {
    Fn(FnDecl),
    Other { text: String },
}

/// The ghost counterpart of [`GenericParam`].
pub enum GenericParamV {
    TypeParam { ident: Seq<char>, bounds: Seq<BoundV> },
    Other { text: Seq<char> },
}

/// The ghost counterpart of [`WherePred`].
pub enum WherePredV {
    TypeBound { bounded: TyV, bounds: Seq<BoundV> },
    Other { text: Seq<char> },
}

/// The ghost counterpart of [`Generics`].
pub struct GenericsV {
    pub params: Seq<GenericParamV>,
    pub preds: Option<Seq<WherePredV>>,
}

/// The ghost counterpart of [`Pat`].
pub enum PatV {
    Ident { ident: Seq<char>, is_mut: bool },
    Other { text: Seq<char> },
}

/// The ghost counterpart of [`Param`].
pub enum ParamV {
    Receiver { text: Seq<char> },
    Typed { pat: PatV, ty: TyV },
}

/// The ghost counterpart of [`Expr`].
pub enum ExprV {
    Ident { ident: Seq<char> },
    MethodCall { receiver: Box<ExprV>, method: Seq<char>, args: Seq<ExprV> },
    Call { func: Box<ExprV>, args: Seq<ExprV> },
    Other { head: Seq<char>, subs: Seq<ExprV> },
}

/// The ghost counterpart of [`FnDecl`].
pub struct FnDeclV {
    pub vis: Seq<char>,
    pub ident: Seq<char>,
    pub generics: GenericsV,
    pub params: Seq<ParamV>,
    pub ret: Seq<char>,
    pub inlining: Inlining,
    pub body: ExprV,
}

/// The ghost counterpart of [`Item`].
pub enum ItemV {
    Fn(FnDeclV),
    Other { text: Seq<char> },
}

/// The mathematical model of a generic parameter.
pub open spec fn gp_dv(p: GenericParam) -> GenericParamV {
    match p {
        GenericParam::TypeParam { ident, bounds } => GenericParamV::TypeParam {
            ident: ident@,
            bounds: bounds_dv(bounds@),
        },
        GenericParam::Other { text } => GenericParamV::Other { text: text@ },
    }
}

/// The mathematical model of a generic-parameter list.
pub open spec fn gps_dv(s: Seq<GenericParam>) -> Seq<GenericParamV> {
    s.map_values(|p: GenericParam| gp_dv(p))
}

/// The mathematical model of a where-clause predicate.
pub open spec fn wp_dv(p: WherePred) -> WherePredV {
    match p {
        WherePred::TypeBound { bounded, bounds } => WherePredV::TypeBound {
            bounded: ty_dv(bounded),
            bounds: bounds_dv(bounds@),
        },
        WherePred::Other { text } => WherePredV::Other { text: text@ },
    }
}

/// The mathematical model of a predicate list.
pub open spec fn wps_dv(s: Seq<WherePred>) -> Seq<WherePredV> {
    s.map_values(|p: WherePred| wp_dv(p))
}

/// The mathematical model of a declaration's generics.
pub open spec fn generics_dv(g: Generics) -> GenericsV {
    GenericsV {
        params: gps_dv(g.params@),
        preds: match g.preds {
            Some(ps) => Some(wps_dv(ps@)),
            None => None,
        },
    }
}

/// The mathematical model of a binding pattern.
pub open spec fn pat_dv(p: Pat) -> PatV {
    match p {
        Pat::Ident { ident, is_mut } => PatV::Ident { ident: ident@, is_mut },
        Pat::Other { text } => PatV::Other { text: text@ },
    }
}

/// The mathematical model of a parameter.
pub open spec fn param_dv(p: Param) -> ParamV {
    match p {
        Param::Receiver { text } => ParamV::Receiver { text: text@ },
        Param::Typed { pat, ty } => ParamV::Typed { pat: pat_dv(pat), ty: ty_dv(ty) },
    }
}

/// The mathematical model of a parameter list.
pub open spec fn params_dv(s: Seq<Param>) -> Seq<ParamV> {
    s.map_values(|p: Param| param_dv(p))
}

/// The mathematical model of an expression.
pub open spec fn expr_dv(e: Expr) -> ExprV
    decreases e,
{
    match e {
        Expr::Ident { ident } => ExprV::Ident { ident: ident@ },
        Expr::MethodCall { receiver, method, args } => ExprV::MethodCall {
            receiver: Box::new(expr_dv(*receiver)),
            method: method@,
            args: exprs_dv(args@),
        },
        Expr::Call { func, args } => ExprV::Call {
            func: Box::new(expr_dv(*func)),
            args: exprs_dv(args@),
        },
        Expr::Other { head, subs } => ExprV::Other { head: head@, subs: exprs_dv(subs@) },
    }
}

/// The mathematical model of an expression list.
pub open spec fn exprs_dv(s: Seq<Expr>) -> Seq<ExprV>
    decreases s,
{
    if s.len() == 0 {
        Seq::empty()
    } else {
        exprs_dv(s.subrange(0, s.len() - 1)).push(expr_dv(s[s.len() - 1]))
    }
}

/// The mathematical model of a function declaration.
pub open spec fn decl_dv(d: FnDecl) -> FnDeclV {
    FnDeclV {
        vis: d.vis@,
        ident: d.ident@,
        generics: generics_dv(d.generics),
        params: params_dv(d.params@),
        ret: d.ret@,
        inlining: d.inlining,
        body: expr_dv(d.body),
    }
}

/// The mathematical model of an annotated item.
pub open spec fn item_dv(it: Item) -> ItemV {
    match it {
        Item::Fn(d) => ItemV::Fn(decl_dv(d)),
        Item::Other { text } => ItemV::Other { text: text@ },
    }
}

/// `exprs_dv` maps a sequence elementwise.
pub proof fn lemma_exprs_dv(s: Seq<Expr>)
    ensures
        exprs_dv(s).len() == s.len(),
        forall|i: int| 0 <= i < s.len() ==> exprs_dv(s)[i] == expr_dv(s[i]),
    decreases s.len(),
{
    if s.len() > 0 {
        lemma_exprs_dv(s.subrange(0, s.len() - 1));
    }
}

/// `exprs_dv` distributes over appending one expression.
pub proof fn lemma_exprs_dv_push(s: Seq<Expr>, x: Expr)
    ensures
        exprs_dv(s.push(x)) == exprs_dv(s).push(expr_dv(x)),
{
    let s2 = s.push(x);
    assert(s2.subrange(0, s2.len() - 1) =~= s);
    assert(s2[s2.len() - 1] == x);
}

/// Duplicates a type; the copy has the same mathematical model.
pub fn clone_ty(t: &Ty) -> (res: Ty)
    ensures
        ty_dv(res) == ty_dv(*t),
    decreases *t,
{
    match t {
        Ty::Path { ident, args_text } => Ty::Path {
            ident: ident.clone(),
            args_text: args_text.clone(),
        },
        Ty::Ref { mutable, inner } => Ty::Ref {
            mutable: *mutable,
            inner: Box::new(clone_ty(&**inner)),
        },
        Ty::ImplTrait { bounds } => Ty::ImplTrait { bounds: clone_bounds(bounds) },
        Ty::Other { text } => Ty::Other { text: text.clone() },
    }
}

/// Duplicates a bound list; the copy has the same mathematical model.
pub fn clone_bounds(v: &Vec<Bound>) -> (res: Vec<Bound>)
    ensures
        bounds_dv(res@) == bounds_dv(v@),
    decreases *v,
{
    let mut res: Vec<Bound> = Vec::new();
    let mut i: usize = 0;
    while i < v.len()
        invariant
            i <= v.len(),
            res@.len() == i,
            forall|j: int| 0 <= j < i ==> bound_dv(res@[j]) == bound_dv(v@[j]),
        decreases v.len() - i,
    {
        res.push(clone_bound(&v[i]));
        i += 1;
    }
    proof {
        lemma_bounds_dv(res@);
        lemma_bounds_dv(v@);
        assert(bounds_dv(res@) =~= bounds_dv(v@));
    }
    res
}

/// Duplicates a bound; the copy has the same mathematical model.
pub fn clone_bound(b: &Bound) -> (res: Bound)
    ensures
        bound_dv(res) == bound_dv(*b),
    decreases *b,
{
    match b {
        Bound::Trait { prefix, last, args } => Bound::Trait {
            prefix: prefix.clone(),
            last: last.clone(),
            args: clone_ty_args(args),
        },
        Bound::Other { text } => Bound::Other { text: text.clone() },
    }
}

/// Duplicates a trait-bound argument list; the copy has the same mathematical model.
pub fn clone_ty_args(v: &Vec<TyArg>) -> (res: Vec<TyArg>)
    ensures
        ty_args_dv(res@) == ty_args_dv(v@),
    decreases *v,
{
    let mut res: Vec<TyArg> = Vec::new();
    let mut i: usize = 0;
    while i < v.len()
        invariant
            i <= v.len(),
            res@.len() == i,
            forall|j: int| 0 <= j < i ==> ty_arg_dv(res@[j]) == ty_arg_dv(v@[j]),
        decreases v.len() - i,
    {
        res.push(clone_ty_arg(&v[i]));
        i += 1;
    }
    proof {
        lemma_ty_args_dv(res@);
        lemma_ty_args_dv(v@);
        assert(ty_args_dv(res@) =~= ty_args_dv(v@));
    }
    res
}

/// Duplicates a trait-bound argument; the copy has the same mathematical model.
pub fn clone_ty_arg(a: &TyArg) -> (res: TyArg)
    ensures
        ty_arg_dv(res) == ty_arg_dv(*a),
    decreases *a,
{
    match a {
        TyArg::Type(t) => TyArg::Type(clone_ty(t)),
        TyArg::Other { text } => TyArg::Other { text: text.clone() },
    }
}

/// Duplicates a generic parameter; the copy has the same mathematical model.
pub fn clone_gp(p: &GenericParam) -> (res: GenericParam)
    ensures
        gp_dv(res) == gp_dv(*p),
{
    match p {
        GenericParam::TypeParam { ident, bounds } => GenericParam::TypeParam {
            ident: ident.clone(),
            bounds: clone_bounds(bounds),
        },
        GenericParam::Other { text } => GenericParam::Other { text: text.clone() },
    }
}

/// Duplicates a where-clause predicate; the copy has the same mathematical model.
pub fn clone_wp(p: &WherePred) -> (res: WherePred)
    ensures
        wp_dv(res) == wp_dv(*p),
{
    match p {
        WherePred::TypeBound { bounded, bounds } => WherePred::TypeBound {
            bounded: clone_ty(bounded),
            bounds: clone_bounds(bounds),
        },
        WherePred::Other { text } => WherePred::Other { text: text.clone() },
    }
}

/// Duplicates a binding pattern; the copy has the same mathematical model.
pub fn clone_pat(p: &Pat) -> (res: Pat)
    ensures
        pat_dv(res) == pat_dv(*p),
{
    match p {
        Pat::Ident { ident, is_mut } => Pat::Ident { ident: ident.clone(), is_mut: *is_mut },
        Pat::Other { text } => Pat::Other { text: text.clone() },
    }
}

/// Duplicates a parameter; the copy has the same mathematical model.
pub fn clone_param(p: &Param) -> (res: Param)
    ensures
        param_dv(res) == param_dv(*p),
{
    match p {
        Param::Receiver { text } => Param::Receiver { text: text.clone() },
        Param::Typed { pat, ty } => Param::Typed { pat: clone_pat(pat), ty: clone_ty(ty) },
    }
}

} // verus!
