//! Properties of the pass, stated and proved over the mathematical model:
//! reclassifying the inner generics records nothing, folding removes the
//! redundant conversion calls and touches nothing else, and the outer
//! wrapper forwards to exactly the inner declaration.

use vstd::prelude::*;

use crate::ast::{ExprV, FnDeclV, GenericsV};
use crate::classify::{
    spec_classify_param, spec_classify_pred, spec_retained, spec_table, spec_table_params,
    spec_table_preds,
};
use crate::conversion::{spec_method_name, ConversionV, ConversionsV};
use crate::fold::{spec_fold, spec_fold_matches, spec_fold_seq};
use crate::split::{spec_param_conv, spec_registry};
use crate::transform::{spec_inner, spec_inner_ident, spec_outer};

verus! {

/// A parameter list in which no parameter classifies records nothing.
proof fn lemma_table_params_none(
    m: Map<Seq<char>, ConversionV>,
    ps: Seq<crate::ast::GenericParamV>,
)
    requires
        forall|i: int| 0 <= i < ps.len() ==> spec_classify_param(ps[i]) is None,
    ensures
        spec_table_params(m, ps) == m,
    decreases ps.len(),
{
    if ps.len() > 0 {
        lemma_table_params_none(m, ps.subrange(0, ps.len() - 1));
    }
}

/// A predicate list in which no predicate classifies records nothing.
proof fn lemma_table_preds_none(m: Map<Seq<char>, ConversionV>, ps: Seq<crate::ast::WherePredV>)
    requires
        forall|i: int| 0 <= i < ps.len() ==> spec_classify_pred(ps[i]) is None,
    ensures
        spec_table_preds(m, ps) == m,
    decreases ps.len(),
{
    if ps.len() > 0 {
        lemma_table_preds_none(m, ps.subrange(0, ps.len() - 1));
    }
}

/// Classification is idempotent: the generics retained for the inner
/// declaration carry no conversion bound any more, so reclassifying them
/// yields an empty conversion table.
pub proof fn classification_idempotent(g: GenericsV)
    ensures
        spec_table(spec_retained(g)) == Map::<Seq<char>, ConversionV>::empty(),
{
    let rg = spec_retained(g);
    let ppred = |p: crate::ast::GenericParamV| spec_classify_param(p) is None;
    assert forall|i: int| 0 <= i < rg.params.len() implies spec_classify_param(
        rg.params[i],
    ) is None by {
        g.params.lemma_filter_pred(ppred, i);
    }
    lemma_table_params_none(Map::empty(), rg.params);
    match g.preds {
        Some(ps) => {
            let wpred = |p: crate::ast::WherePredV| spec_classify_pred(p) is None;
            let rps = ps.filter(wpred);
            assert forall|i: int| 0 <= i < rps.len() implies spec_classify_pred(
                rps[i],
            ) is None by {
                ps.lemma_filter_pred(wpred, i);
            }
            lemma_table_preds_none(Map::empty(), rps);
        },
        None => {},
    }
}

/// The expression holds no foldable invocation: no sub-expression is an
/// argument-less conversion-method call on a registered identifier.
pub open spec fn spec_clean(r: ConversionsV, e: ExprV) -> bool
    decreases e,
{
    match e {
        ExprV::Ident { ident } => true,
        ExprV::MethodCall { receiver, method, args } => {
            &&& !(args.len() == 0 && spec_fold_matches(r, *receiver, method))
            &&& spec_clean(r, *receiver)
            &&& spec_clean_seq(r, args)
        },
        ExprV::Call { func, args } => spec_clean(r, *func) && spec_clean_seq(r, args),
        ExprV::Other { head, subs } => spec_clean_seq(r, subs),
    }
}

/// Every expression of the list holds no foldable invocation.
pub open spec fn spec_clean_seq(r: ConversionsV, s: Seq<ExprV>) -> bool
    decreases s,
{
    if s.len() == 0 {
        true
    } else {
        spec_clean_seq(r, s.subrange(0, s.len() - 1)) && spec_clean(r, s[s.len() - 1])
    }
}

/// The expression holds no chained conversion: no argument-less method
/// call whose receiver is itself a foldable invocation of an identifier
/// that is also registered under the outer call's method. Folding such a
/// chain exposes a new foldable invocation that the single pass leaves.
pub open spec fn spec_no_chain(r: ConversionsV, e: ExprV) -> bool
    decreases e,
{
    match e {
        ExprV::Ident { ident } => true,
        ExprV::MethodCall { receiver, method, args } => {
            &&& (args.len() == 0 ==> !(*receiver matches ExprV::MethodCall {
                receiver: rr,
                method: mm,
                args: aa,
            } && aa.len() == 0 && spec_fold_matches(r, *rr, mm) && spec_fold_matches(
                r,
                *rr,
                method,
            )))
            &&& spec_no_chain(r, *receiver)
            &&& spec_no_chain_seq(r, args)
        },
        ExprV::Call { func, args } => spec_no_chain(r, *func) && spec_no_chain_seq(r, args),
        ExprV::Other { head, subs } => spec_no_chain_seq(r, subs),
    }
}

/// Every expression of the list holds no chained conversion.
pub open spec fn spec_no_chain_seq(r: ConversionsV, s: Seq<ExprV>) -> bool
    decreases s,
{
    if s.len() == 0 {
        true
    } else {
        spec_no_chain_seq(r, s.subrange(0, s.len() - 1)) && spec_no_chain(r, s[s.len() - 1])
    }
}

/// Fold soundness: on a body without chained conversions, the single
/// rewrite pass leaves no foldable invocation at all — every registered
/// identifier's matching argument-less conversion call is gone.
pub proof fn fold_sound(r: ConversionsV, e: ExprV)
    requires
        spec_no_chain(r, e),
    ensures
        spec_clean(r, spec_fold(r, e)),
    decreases e,
{
    match e {
        ExprV::Ident { ident } => {},
        ExprV::MethodCall { receiver, method, args } => {
            if args.len() == 0 && spec_fold_matches(r, *receiver, method) {
                assert(*receiver is Ident);
            } else {
                fold_sound(r, *receiver);
                fold_sound_seq(r, args);
                crate::fold::lemma_spec_fold_seq(r, args);
                let fr = spec_fold(r, *receiver);
                if args.len() == 0 && spec_fold_matches(r, fr, method) {
                    assert(fr is Ident);
                    match *receiver {
                        ExprV::Ident { ident } => {
                            assert(fr == *receiver);
                            assert(false);
                        },
                        ExprV::MethodCall { receiver: rr, method: mm, args: aa } => {
                            if aa.len() == 0 && spec_fold_matches(r, *rr, mm) {
                                assert(fr == *rr);
                                assert(false);
                            } else {
                                assert(fr is MethodCall);
                                assert(false);
                            }
                        },
                        ExprV::Call { func, args: aa } => {
                            assert(fr is Call);
                            assert(false);
                        },
                        ExprV::Other { head, subs } => {
                            assert(fr is Other);
                            assert(false);
                        },
                    }
                }
            }
        },
        ExprV::Call { func, args } => {
            fold_sound(r, *func);
            fold_sound_seq(r, args);
        },
        ExprV::Other { head, subs } => {
            fold_sound_seq(r, subs);
        },
    }
}

/// Fold soundness, over a list of sub-expressions.
proof fn fold_sound_seq(r: ConversionsV, s: Seq<ExprV>)
    requires
        spec_no_chain_seq(r, s),
    ensures
        spec_clean_seq(r, spec_fold_seq(r, s)),
    decreases s,
{
    if s.len() > 0 {
        fold_sound_seq(r, s.subrange(0, s.len() - 1));
        fold_sound(r, s[s.len() - 1]);
        let fs = spec_fold_seq(r, s);
        assert(fs.subrange(0, fs.len() - 1) =~= spec_fold_seq(r, s.subrange(0, s.len() - 1)));
    }
}

/// Fold precision: a body without foldable invocations — every method
/// call with the same name but arguments, on an unregistered identifier,
/// or on a non-identifier receiver included — passes through the fold
/// entirely unaltered.
pub proof fn fold_precise(r: ConversionsV, e: ExprV)
    requires
        spec_clean(r, e),
    ensures
        spec_fold(r, e) == e,
    decreases e,
{
    match e {
        ExprV::Ident { ident } => {},
        ExprV::MethodCall { receiver, method, args } => {
            fold_precise(r, *receiver);
            fold_precise_seq(r, args);
        },
        ExprV::Call { func, args } => {
            fold_precise(r, *func);
            fold_precise_seq(r, args);
        },
        ExprV::Other { head, subs } => {
            fold_precise_seq(r, subs);
        },
    }
}

/// Fold precision, over a list of sub-expressions.
proof fn fold_precise_seq(r: ConversionsV, s: Seq<ExprV>)
    requires
        spec_clean_seq(r, s),
    ensures
        spec_fold_seq(r, s) == s,
    decreases s,
{
    if s.len() == 0 {
        assert(spec_fold_seq(r, s) =~= s);
    } else {
        fold_precise_seq(r, s.subrange(0, s.len() - 1));
        fold_precise(r, s[s.len() - 1]);
        assert(spec_fold_seq(r, s) =~= s);
    }
}

/// Fold soundness, at the declaration: when the annotated body holds no
/// chained conversion, the generated inner body holds no foldable
/// invocation at all.
pub proof fn inner_body_is_clean(d: FnDeclV)
    requires
        spec_no_chain(spec_registry(d.params, spec_table(d.generics)), d.body),
    ensures
        spec_clean(spec_registry(d.params, spec_table(d.generics)), spec_inner(d).body),
{
    fold_sound(spec_registry(d.params, spec_table(d.generics)), d.body);
}

/// Fold precision, at the declaration: a body with no foldable invocation
/// is carried into the inner declaration unaltered.
pub proof fn inner_body_unchanged_when_clean(d: FnDeclV)
    requires
        spec_clean(spec_registry(d.params, spec_table(d.generics)), d.body),
    ensures
        spec_inner(d).body == d.body,
{
    fold_precise(spec_registry(d.params, spec_table(d.generics)), d.body);
}

/// The three conversion-method names are pairwise distinct.
proof fn lemma_method_names_distinct()
    ensures
        "into"@ != "as_ref"@,
        "into"@ != "as_mut"@,
        "as_ref"@ != "as_mut"@,
{
    reveal_strlit("into");
    reveal_strlit("as_ref");
    reveal_strlit("as_mut");
    assert("into"@.len() == 4);
    assert("as_ref"@.len() == 6);
    assert("as_ref"@[3] != "as_mut"@[3]);
}

/// Appending to a list extends what it contains by the appended element.
proof fn lemma_push_contains(s: Seq<Seq<char>>, v: Seq<char>, x: Seq<char>)
    ensures
        s.push(v).contains(x) <==> (s.contains(x) || v == x),
{
    if s.push(v).contains(x) {
        let i = choose|i: int| 0 <= i < s.push(v).len() && s.push(v)[i] == x;
        if i < s.len() {
            assert(s[i] == x);
        }
    }
    if s.contains(x) {
        let i = choose|i: int| 0 <= i < s.len() && s[i] == x;
        assert(s.push(v)[i] == x);
    }
    if v == x {
        assert(s.push(v)[s.len() as int] == x);
    }
}

/// The parameter at some position was converted, binds `x`, and its
/// conversion's method is `meth`.
pub open spec fn spec_converted_with(
    ps: Seq<crate::ast::ParamV>,
    m: Map<Seq<char>, ConversionV>,
    x: Seq<char>,
    meth: Seq<char>,
) -> bool {
    exists|i: int| 0 <= i < ps.len() && spec_param_is(ps[i], m, x, meth)
}

/// One parameter was converted, binds `x`, and its conversion's method is
/// `meth`.
pub open spec fn spec_param_is(
    p: crate::ast::ParamV,
    m: Map<Seq<char>, ConversionV>,
    x: Seq<char>,
    meth: Seq<char>,
) -> bool {
    &&& spec_param_conv(p, m) matches Some(c) && spec_method_name(c) == meth
    &&& crate::split::spec_param_ident(p) == x
}

/// The registry drives folding faithfully: an argument-less invocation
/// `x.meth()` is folded exactly when the splitter converted a parameter
/// bound to `x` with a conversion whose method is `meth` — so the folder
/// touches exactly the identifiers that already hold converted values.
pub proof fn registry_names_converted_parameters(
    ps: Seq<crate::ast::ParamV>,
    m: Map<Seq<char>, ConversionV>,
    x: Seq<char>,
    meth: Seq<char>,
)
    ensures
        spec_fold_matches(spec_registry(ps, m), ExprV::Ident { ident: x }, meth)
            <==> spec_converted_with(ps, m, x, meth),
    decreases ps.len(),
{
    lemma_method_names_distinct();
    if ps.len() == 0 {
        assert(!Seq::<Seq<char>>::empty().contains(x));
    } else {
        let sub = ps.subrange(0, ps.len() - 1);
        registry_names_converted_parameters(sub, m, x, meth);
        let p = ps[ps.len() - 1];
        let prev = spec_registry(sub, m);
        match spec_param_conv(p, m) {
            None => {
                if spec_converted_with(ps, m, x, meth) {
                    let i = choose|i: int|
                        0 <= i < ps.len() && spec_param_is(ps[i], m, x, meth);
                    assert(sub[i] == ps[i]);
                    assert(spec_converted_with(sub, m, x, meth));
                }
                if spec_converted_with(sub, m, x, meth) {
                    let i = choose|i: int|
                        0 <= i < sub.len() && spec_param_is(sub[i], m, x, meth);
                    assert(spec_param_is(ps[i], m, x, meth));
                }
            },
            Some(c) => {
                let id = crate::split::spec_param_ident(p);
                lemma_push_contains(prev.intos, id, x);
                lemma_push_contains(prev.as_refs, id, x);
                lemma_push_contains(prev.as_muts, id, x);
                if spec_converted_with(sub, m, x, meth) {
                    let i = choose|i: int|
                        0 <= i < sub.len() && spec_param_is(sub[i], m, x, meth);
                    assert(spec_param_is(ps[i], m, x, meth));
                    assert(spec_converted_with(ps, m, x, meth));
                }
                if spec_param_is(p, m, x, meth) {
                    assert(spec_converted_with(ps, m, x, meth));
                }
                if spec_converted_with(ps, m, x, meth) && !spec_param_is(p, m, x, meth) {
                    let i = choose|i: int|
                        0 <= i < ps.len() && spec_param_is(ps[i], m, x, meth);
                    assert(i < sub.len());
                    assert(sub[i] == ps[i]);
                    assert(spec_converted_with(sub, m, x, meth));
                }
            },
        }
    }
}

/// The callee a generated outer body forwards to.
pub open spec fn spec_callee(e: ExprV) -> Option<Seq<char>> {
    match e {
        ExprV::MethodCall { receiver, method, args } => Some(method),
        ExprV::Call { func, args } => match *func {
            ExprV::Ident { ident } => Some(ident),
            _ => None,
        },
        _ => None,
    }
}

/// No duplication: whatever generic arguments the outer declaration is
/// instantiated at, its body is one call that names exactly the inner
/// declaration's identifier — an identifier distinct from the outer one —
/// so every instantiation routes through the single inner declaration.
pub proof fn outer_forwards_to_inner(d: FnDeclV)
    ensures
        spec_callee(spec_outer(d).body) == Some(spec_inner(d).ident),
        spec_inner(d).ident != d.ident,
        spec_outer(d).ident == d.ident,
{
    reveal_strlit("_");
    reveal_strlit("_inner");
    assert(spec_inner_ident(d.ident).len() == d.ident.len() + 7);
}

} // verus!
