//! The parameter splitter: walks the ordered parameter list, partitions
//! each parameter into pass-through or converted, and produces the inner
//! declaration's parameter list, the registry of converted identifiers,
//! and the outer declaration's forwarding-argument list.

use vstd::prelude::*;

use crate::ast::{
    clone_param, clone_pat, expr_dv, exprs_dv, param_dv, params_dv, pat_dv, Expr, ExprV,
    Param, ParamV, Pat, PatV, Ty, TyV,
};
use crate::classify::{parse_bounds, spec_parse_bounds};
use crate::conversion::{
    conv_dv, registry_dv, spec_add, spec_conversion_expr, spec_target_type, Conversion,
    ConversionTable, ConversionV, Conversions, ConversionsV,
};

verus! {

/// Why a transformation failed.
#[derive(Debug, PartialEq, Eq)]
pub enum TransformError {
    /// The parameter at this position has a binding that is not a simple
    /// identifier pattern; such a declaration is never transformed.
    UnsupportedPattern { index: usize },
}

/// A parameter whose binding is not a simple identifier pattern.
pub open spec fn spec_bad_pat(p: ParamV) -> bool {
    p matches ParamV::Typed { pat: PatV::Other { .. }, .. }
}

/// Some parameter's binding is not a simple identifier pattern.
pub open spec fn spec_has_bad(ps: Seq<ParamV>) -> bool {
    exists|i: int| 0 <= i < ps.len() && spec_bad_pat(ps[i])
}

/// The conversion a parameter undergoes, if any: an existential parameter
/// whose own bound list denotes a conversion, or a named-type parameter
/// whose single type identifier the table classifies.
pub open spec fn spec_param_conv(p: ParamV, m: Map<Seq<char>, ConversionV>) -> Option<
    ConversionV,
> {
    match p {
        ParamV::Typed { pat, ty } => match ty {
            TyV::ImplTrait { bounds } => spec_parse_bounds(bounds),
            TyV::Path { ident, args_text } => if m.dom().contains(ident) {
                Some(m[ident])
            } else {
                None
            },
            _ => None,
        },
        ParamV::Receiver { .. } => None,
    }
}

/// The identifier a supported binding pattern binds.
pub open spec fn spec_pat_ident(p: PatV) -> Seq<char> {
    match p {
        PatV::Ident { ident, is_mut } => ident,
        PatV::Other { text } => Seq::empty(),
    }
}

/// The identifier a parameter binds.
pub open spec fn spec_param_ident(p: ParamV) -> Seq<char> {
    match p {
        ParamV::Typed { pat, ty } => spec_pat_ident(pat),
        ParamV::Receiver { text } => Seq::empty(),
    }
}

/// What a parameter becomes in the inner declaration: a converted
/// parameter's type is replaced by its conversion's target type; every
/// other parameter, the receiver included, is copied unchanged.
pub open spec fn spec_inner_param(p: ParamV, m: Map<Seq<char>, ConversionV>) -> ParamV {
    match p {
        ParamV::Typed { pat, ty } => match spec_param_conv(p, m) {
            Some(c) => ParamV::Typed { pat, ty: spec_target_type(c) },
            None => p,
        },
        ParamV::Receiver { .. } => p,
    }
}

/// The inner declaration's parameter list.
pub open spec fn spec_inner_params(ps: Seq<ParamV>, m: Map<Seq<char>, ConversionV>) -> Seq<
    ParamV,
> {
    ps.map_values(|p: ParamV| spec_inner_param(p, m))
}

/// The forwarding expression the outer declaration passes for a
/// non-receiver parameter: the conversion applied to the bare identifier
/// for a converted parameter, the bare identifier otherwise.
pub open spec fn spec_fwd_expr(p: ParamV, m: Map<Seq<char>, ConversionV>) -> ExprV {
    match spec_param_conv(p, m) {
        Some(c) => spec_conversion_expr(c, spec_param_ident(p)),
        None => ExprV::Ident { ident: spec_param_ident(p) },
    }
}

/// The outer declaration's forwarding-argument list: one expression per
/// parameter, in order, the receiver excluded.
pub open spec fn spec_argexprs(ps: Seq<ParamV>, m: Map<Seq<char>, ConversionV>) -> Seq<ExprV> {
    ps.filter(|p: ParamV| !(p is Receiver)).map_values(|p: ParamV| spec_fwd_expr(p, m))
}

/// The registry accumulated over a parameter list: each converted
/// parameter's identifier, appended under its conversion kind, in order.
pub open spec fn spec_registry(ps: Seq<ParamV>, m: Map<Seq<char>, ConversionV>) -> ConversionsV
    decreases ps,
{
    if ps.len() == 0 {
        ConversionsV {
            intos: Seq::empty(),
            as_refs: Seq::empty(),
            as_muts: Seq::empty(),
        }
    } else {
        let prev = spec_registry(ps.subrange(0, ps.len() - 1), m);
        let p = ps[ps.len() - 1];
        match spec_param_conv(p, m) {
            Some(c) => spec_add(prev, spec_param_ident(p), c),
            None => prev,
        }
    }
}

/// The parameter list contains a receiver.
pub open spec fn spec_has_receiver(ps: Seq<ParamV>) -> bool {
    exists|i: int| 0 <= i < ps.len() && ps[i] is Receiver
}

/// Extracts the identifier a binding pattern binds; nothing for a
/// pattern that is not a simple identifier binding.
pub fn pat_to_ident(p: &Pat) -> (r: Option<&String>)
    ensures
        match r {
            Some(i) => pat_dv(*p) matches PatV::Ident { ident, is_mut } && ident == i@,
            None => pat_dv(*p) is Other,
        },
{
    match p {
        Pat::Ident { ident, is_mut } => Some(ident),
        Pat::Other { text } => None,
    }
}

/// The bare-identifier expression a supported binding pattern forwards as.
pub fn pat_to_expr(p: &Pat) -> (r: Expr)
    requires
        !(pat_dv(*p) is Other),
    ensures
        expr_dv(r) == (ExprV::Ident { ident: spec_pat_ident(pat_dv(*p)) }),
{
    match p {
        Pat::Ident { ident, is_mut } => Expr::Ident { ident: ident.clone() },
        Pat::Other { text } => vstd::pervasive::unreached(),
    }
}

/// What the splitter produces for a declaration's parameter list.
#[derive(Debug, PartialEq, Eq)]
pub struct SplitOutput {
    /// The inner declaration's parameter list.
    pub argtypes: Vec<Param>,
    /// The registry of converted identifiers, for call-site folding.
    pub conversions: Conversions,
    /// The outer declaration's forwarding-argument list.
    pub argexprs: Vec<Expr>,
    /// Whether the list contains a receiver.
    pub has_self: bool,
}

/// Splits the parameter list. Fails, naming the first offending position,
/// exactly when some parameter's binding is not a simple identifier.
pub fn convert(inputs: &Vec<Param>, table: &ConversionTable) -> (r: Result<
    SplitOutput,
    TransformError,
>)
    requires
        table.wf(),
    ensures
        match r {
            Ok(out) => {
                let ps = params_dv(inputs@);
                let m = table.dv();
                &&& !spec_has_bad(ps)
                &&& params_dv(out.argtypes@) == spec_inner_params(ps, m)
                &&& registry_dv(out.conversions) == spec_registry(ps, m)
                &&& exprs_dv(out.argexprs@) == spec_argexprs(ps, m)
                &&& out.has_self == spec_has_receiver(ps)
            },
            Err(e) => {
                let ps = params_dv(inputs@);
                &&& e matches TransformError::UnsupportedPattern { index }
                &&& (index as int) < ps.len()
                &&& spec_bad_pat(ps[index as int])
                &&& forall|j: int| 0 <= j < index as int ==> !spec_bad_pat(ps[j])
            },
        },
{
    let ghost ps = params_dv(inputs@);
    let ghost m = table.dv();
    let mut argtypes: Vec<Param> = Vec::new();
    let mut conversions = Conversions::new();
    let mut argexprs: Vec<Expr> = Vec::new();
    let mut has_self = false;
    let n = inputs.len();
    proof {
        reveal(Seq::filter);
        assert(ps.subrange(0, 0) =~= Seq::<ParamV>::empty());
        assert(params_dv(argtypes@) =~= spec_inner_params(ps.subrange(0, 0), m));
        assert(exprs_dv(argexprs@) =~= spec_argexprs(ps.subrange(0, 0), m));
    }
    let mut i: usize = 0;
    while i < n
        invariant
            table.wf(),
            m == table.dv(),
            n == inputs.len(),
            i <= n,
            ps == params_dv(inputs@),
            ps.len() == n,
            params_dv(argtypes@) == spec_inner_params(ps.subrange(0, i as int), m),
            registry_dv(conversions) == spec_registry(ps.subrange(0, i as int), m),
            exprs_dv(argexprs@) == spec_argexprs(ps.subrange(0, i as int), m),
            has_self == spec_has_receiver(ps.subrange(0, i as int)),
            forall|j: int| 0 <= j < i ==> !spec_bad_pat(ps[j]),
        decreases n - i,
    {
        let p = &inputs[i];
        let ghost pre = ps.subrange(0, i as int);
        let ghost cur = ps.subrange(0, i as int + 1);
        proof {
            reveal(Seq::filter);
            assert(cur.drop_last() =~= pre);
            assert(cur.last() == param_dv(*p));
        }
        match p {
            Param::Receiver { text } => {
                has_self = true;
                let ghost a0 = argtypes@;
                argtypes.push(clone_param(p));
                proof {
                    assert(params_dv(argtypes@) =~= params_dv(a0).push(param_dv(*p)));
                    assert(spec_inner_params(cur, m) =~= spec_inner_params(pre, m).push(
                        spec_inner_param(param_dv(*p), m),
                    ));
                    assert(cur[i as int] is Receiver);
                    assert(spec_has_receiver(cur));
                }
            },
            Param::Typed { pat, ty } => {
                let ident: &String = match pat_to_ident(pat) {
                    Some(ident) => ident,
                    None => {
                        return Err(TransformError::UnsupportedPattern { index: i });
                    },
                };
                let conv_opt: Option<Conversion> = match ty {
                    Ty::ImplTrait { bounds } => parse_bounds(bounds),
                    Ty::Path { ident: ty_ident, args_text } => match table.get(ty_ident) {
                        Some(c) => Some(c.duplicate()),
                        None => None,
                    },
                    _ => None,
                };
                proof {
                    assert(match conv_opt {
                        Some(c) => spec_param_conv(param_dv(*p), m) == Some(conv_dv(c)),
                        None => spec_param_conv(param_dv(*p), m) is None,
                    });
                }
                let ghost a0 = argtypes@;
                let ghost e0 = argexprs@;
                match conv_opt {
                    Some(c) => {
                        argtypes.push(Param::Typed { pat: clone_pat(pat), ty: c.target_type() });
                        conversions.add(ident.clone(), &c);
                        let fwd = c.conversion_expr(ident);
                        proof {
                            crate::ast::lemma_exprs_dv_push(e0, fwd);
                        }
                        argexprs.push(fwd);
                    },
                    None => {
                        argtypes.push(clone_param(p));
                        let fwd = pat_to_expr(pat);
                        proof {
                            crate::ast::lemma_exprs_dv_push(e0, fwd);
                        }
                        argexprs.push(fwd);
                    },
                }
                proof {
                    assert(params_dv(argtypes@) =~= params_dv(a0).push(
                        spec_inner_param(param_dv(*p), m),
                    ));
                    assert(spec_inner_params(cur, m) =~= spec_inner_params(pre, m).push(
                        spec_inner_param(param_dv(*p), m),
                    ));
                    assert(exprs_dv(argexprs@) =~= exprs_dv(e0).push(
                        spec_fwd_expr(param_dv(*p), m),
                    ));
                    assert(spec_argexprs(cur, m) =~= spec_argexprs(pre, m).push(
                        spec_fwd_expr(param_dv(*p), m),
                    ));
                    assert(spec_has_receiver(cur) == spec_has_receiver(pre)) by {
                        if spec_has_receiver(cur) {
                            let k = choose|k: int| 0 <= k < cur.len() && cur[k] is Receiver;
                            assert(k < pre.len() && pre[k] is Receiver);
                        } else {
                            if spec_has_receiver(pre) {
                                let k = choose|k: int|
                                    0 <= k < pre.len() && pre[k] is Receiver;
                                assert(cur[k] is Receiver);
                            }
                        }
                    }
                }
            },
        }
        i += 1;
    }
    proof {
        assert(ps.subrange(0, n as int) =~= ps);
        assert(!spec_has_bad(ps));
    }
    Ok(SplitOutput { argtypes, conversions, argexprs, has_self })
}

} // verus!
