//! Assembly of the two output declarations: the thin, still-generic outer
//! wrapper that forwards to the inner implementation, and the inner
//! declaration with concrete converted parameter types and folded body.

use vstd::prelude::*;
use vstd::string::StringExecFns;

use crate::ast::{
    decl_dv, expr_dv, exprs_dv, generics_dv, item_dv, params_dv, Expr, ExprV, FnDecl, FnDeclV,
    Inlining, Item, ItemV,
};
use crate::classify::{parse_generics, spec_retained, spec_table};
use crate::conversion::{registry_dv, ConversionV};
use crate::fold::spec_fold;
use crate::split::{
    convert, spec_argexprs, spec_bad_pat, spec_has_bad, spec_has_receiver, spec_inner_params,
    spec_registry, SplitOutput, TransformError,
};

verus! {

/// The inner declaration's identifier, derived deterministically from the
/// outer identifier; its extra characters keep the two names distinct.
pub open spec fn spec_inner_ident(ident: Seq<char>) -> Seq<char> {
    "_"@ + ident + "_inner"@
}

/// The outer declaration's generated body: exactly one forwarding call to
/// the inner declaration — through the receiver when there is one.
pub open spec fn spec_outer_body(d: FnDeclV, m: Map<Seq<char>, ConversionV>) -> ExprV {
    let argexprs = spec_argexprs(d.params, m);
    if spec_has_receiver(d.params) {
        ExprV::MethodCall {
            receiver: Box::new(ExprV::Ident { ident: "self"@ }),
            method: spec_inner_ident(d.ident),
            args: argexprs,
        }
    } else {
        ExprV::Call {
            func: Box::new(ExprV::Ident { ident: spec_inner_ident(d.ident) }),
            args: argexprs,
        }
    }
}

/// The outer declaration: the original signature, visibility and generics
/// kept — callers still see the flexible generic signature — with the
/// body replaced by the forwarding call and the declaration marked for
/// aggressive inlining.
pub open spec fn spec_outer(d: FnDeclV) -> FnDeclV {
    let m = spec_table(d.generics);
    FnDeclV {
        vis: d.vis,
        ident: d.ident,
        generics: d.generics,
        params: d.params,
        ret: d.ret,
        inlining: Inlining::Always,
        body: spec_outer_body(d, m),
    }
}

/// The inner declaration: private, under the derived identifier, with
/// only the unclassified generics, converted parameter types, the folded
/// body, and marked to never be inlined.
pub open spec fn spec_inner(d: FnDeclV) -> FnDeclV {
    let m = spec_table(d.generics);
    FnDeclV {
        vis: Seq::empty(),
        ident: spec_inner_ident(d.ident),
        generics: spec_retained(d.generics),
        params: spec_inner_params(d.params, m),
        ret: d.ret,
        inlining: Inlining::Never,
        body: spec_fold(spec_registry(d.params, m), d.body),
    }
}

/// What the pass produces for one annotated item.
#[derive(Debug, PartialEq, Eq)]
pub enum MomoOutput {
    /// A function declaration was expanded into its outer wrapper and
    /// inner implementation.
    Expanded { outer: FnDecl, inner: FnDecl },
    /// The annotated item is not a function declaration; it is returned
    /// unchanged.
    Unchanged { item: Item },
}

/// Derives the inner declaration's identifier from the outer one.
fn make_inner_ident(ident: &String) -> (r: String)
    ensures
        r@ == spec_inner_ident(ident@),
{
    let mut s = "_".to_owned();
    s.append(ident.as_str());
    s.append("_inner");
    s
}

/// Transforms one annotated item: a function declaration becomes its
/// outer wrapper and inner implementation; any other item is returned
/// unchanged; a function with a non-identifier parameter binding is
/// rejected, naming the first offending parameter position.
pub fn momo(item: Item) -> (r: Result<MomoOutput, TransformError>)
    ensures
        match r {
            Ok(out) => match item_dv(item) {
                ItemV::Fn(d) => {
                    &&& !spec_has_bad(d.params)
                    &&& out matches MomoOutput::Expanded { outer, inner } && decl_dv(outer)
                        == spec_outer(d) && decl_dv(inner) == spec_inner(d)
                },
                ItemV::Other { text } => out matches MomoOutput::Unchanged { item: it } && it
                    == item,
            },
            Err(e) => match item_dv(item) {
                ItemV::Fn(d) => {
                    &&& e matches TransformError::UnsupportedPattern { index }
                    &&& (index as int) < d.params.len()
                    &&& spec_bad_pat(d.params[index as int])
                    &&& forall|j: int| 0 <= j < index as int ==> !spec_bad_pat(d.params[j])
                },
                ItemV::Other { text } => false,
            },
        },
{
    let d: FnDecl = match item {
        Item::Fn(d) => d,
        Item::Other { text } => {
            return Ok(MomoOutput::Unchanged { item: Item::Other { text } });
        },
    };
    let ghost dv = decl_dv(d);
    let (table, retained) = parse_generics(&d.generics);
    let ghost m = table.dv();
    let split = match convert(&d.params, &table) {
        Ok(s) => s,
        Err(e) => {
            return Err(e);
        },
    };
    let SplitOutput { argtypes, conversions, argexprs, has_self } = split;
    let inner_ident = make_inner_ident(&d.ident);
    let folded = conversions.fold_expr(&d.body);
    let ghost argexprs_v = exprs_dv(argexprs@);
    let outer_body: Expr = if has_self {
        let bare = Expr::Ident { ident: "self".to_owned() };
        let ghost bare_v = expr_dv(bare);
        let out = Expr::MethodCall {
            receiver: Box::new(bare),
            method: inner_ident.clone(),
            args: argexprs,
        };
        proof {
            assert(bare_v == (ExprV::Ident { ident: "self"@ }));
            assert(expr_dv(out) == ExprV::MethodCall {
                receiver: Box::new(bare_v),
                method: spec_inner_ident(dv.ident),
                args: argexprs_v,
            });
        }
        out
    } else {
        let bare = Expr::Ident { ident: inner_ident.clone() };
        let ghost bare_v = expr_dv(bare);
        let out = Expr::Call { func: Box::new(bare), args: argexprs };
        proof {
            assert(bare_v == (ExprV::Ident { ident: spec_inner_ident(dv.ident) }));
            assert(expr_dv(out) == ExprV::Call { func: Box::new(bare_v), args: argexprs_v });
        }
        out
    };
    let ret_inner = d.ret.clone();
    let FnDecl { vis, ident, generics, params, ret, inlining: _, body: _ } = d;
    let outer = FnDecl {
        vis,
        ident,
        generics,
        params,
        ret,
        inlining: Inlining::Always,
        body: outer_body,
    };
    let inner = FnDecl {
        vis: String::new(),
        ident: inner_ident,
        generics: retained,
        params: argtypes,
        ret: ret_inner,
        inlining: Inlining::Never,
        body: folded,
    };
    proof {
        assert(decl_dv(outer) == spec_outer(dv));
        assert(decl_dv(inner) == spec_inner(dv));
    }
    Ok(MomoOutput::Expanded { outer, inner })
}

} // verus!
