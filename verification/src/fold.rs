//! The call-site folder: rewrites the original body into the inner
//! declaration's body by replacing every argument-less invocation of a
//! registered identifier's own conversion method with the bare
//! identifier, eliminating double conversion.

use vstd::prelude::*;

use crate::ast::{expr_dv, exprs_dv, lemma_exprs_dv, lemma_exprs_dv_push, Expr, ExprV};
use crate::conversion::{registry_dv, strings_dv, Conversions, ConversionsV};

verus! {

/// The expression is a bare identifier that occurs in the list.
pub open spec fn spec_has_conversion(idents: Seq<Seq<char>>, e: ExprV) -> bool {
    match e {
        ExprV::Ident { ident } => idents.contains(ident),
        _ => false,
    }
}

/// An argument-less invocation of `method` on `receiver` is folded
/// exactly when the receiver is a bare identifier registered under the
/// conversion kind whose method is `method`.
pub open spec fn spec_fold_matches(r: ConversionsV, receiver: ExprV, method: Seq<char>) -> bool {
    if method == "into"@ {
        spec_has_conversion(r.intos, receiver)
    } else if method == "as_ref"@ {
        spec_has_conversion(r.as_refs, receiver)
    } else if method == "as_mut"@ {
        spec_has_conversion(r.as_muts, receiver)
    } else {
        false
    }
}

/// The single structural rewrite pass over an expression: sub-expressions
/// are visited top-down, and a matching argument-less method invocation
/// is replaced by its receiver; everything else is kept.
pub open spec fn spec_fold(r: ConversionsV, e: ExprV) -> ExprV
    decreases e,
{
    match e {
        ExprV::Ident { ident } => e,
        ExprV::MethodCall { receiver, method, args } => {
            if args.len() == 0 && spec_fold_matches(r, *receiver, method) {
                *receiver
            } else {
                ExprV::MethodCall {
                    receiver: Box::new(spec_fold(r, *receiver)),
                    method,
                    args: spec_fold_seq(r, args),
                }
            }
        },
        ExprV::Call { func, args } => ExprV::Call {
            func: Box::new(spec_fold(r, *func)),
            args: spec_fold_seq(r, args),
        },
        ExprV::Other { head, subs } => ExprV::Other { head, subs: spec_fold_seq(r, subs) },
    }
}

/// The rewrite pass over a list of sub-expressions, in order.
pub open spec fn spec_fold_seq(r: ConversionsV, s: Seq<ExprV>) -> Seq<ExprV>
    decreases s,
{
    if s.len() == 0 {
        Seq::empty()
    } else {
        spec_fold_seq(r, s.subrange(0, s.len() - 1)).push(spec_fold(r, s[s.len() - 1]))
    }
}

/// `spec_fold_seq` maps a sequence elementwise.
pub proof fn lemma_spec_fold_seq(r: ConversionsV, s: Seq<ExprV>)
    ensures
        spec_fold_seq(r, s).len() == s.len(),
        forall|i: int| 0 <= i < s.len() ==> spec_fold_seq(r, s)[i] == spec_fold(r, s[i]),
    decreases s.len(),
{
    if s.len() > 0 {
        lemma_spec_fold_seq(r, s.subrange(0, s.len() - 1));
    }
}

/// Decides whether an expression is a bare identifier occurring in the
/// list of registered identifiers.
pub fn has_conversion(idents: &Vec<String>, expr: &Expr) -> (r: bool)
    ensures
        r == spec_has_conversion(strings_dv(idents@), expr_dv(*expr)),
{
    match expr {
        Expr::Ident { ident } => {
            let n = idents.len();
            let mut i: usize = 0;
            while i < n
                invariant
                    n == idents.len(),
                    i <= n,
                    expr_dv(*expr) == (ExprV::Ident { ident: ident@ }),
                    forall|j: int| 0 <= j < i ==> idents@[j]@ != ident@,
                decreases n - i,
            {
                if idents[i] == *ident {
                    proof {
                        assert(strings_dv(idents@).contains(ident@)) by {
                            assert(strings_dv(idents@)[i as int] == ident@);
                        }
                    }
                    return true;
                }
                i += 1;
            }
            proof {
                assert forall|j: int|
                    0 <= j < strings_dv(idents@).len() implies strings_dv(idents@)[j]
                    != ident@ by {
                    assert(idents@[j]@ != ident@);
                }
            }
            false
        },
        _ => {
            proof {
                assert(!(expr_dv(*expr) is Ident));
            }
            false
        },
    }
}

impl Conversions {
    /// Rewrites one expression, visiting its sub-expressions in a fixed
    /// top-down, depth-first order.
    pub fn fold_expr(&self, e: &Expr) -> (r: Expr)
        ensures
            expr_dv(r) == spec_fold(registry_dv(*self), expr_dv(*e)),
        decreases *e,
    {
        match e {
            Expr::Ident { ident } => Expr::Ident { ident: ident.clone() },
            Expr::MethodCall { receiver, method, args } => {
                let ghost reg = registry_dv(*self);
                let ghost rv = expr_dv(**receiver);
                let ghost mv = method@;
                let ghost av = exprs_dv(args@);
                proof {
                    lemma_exprs_dv(args@);
                    assert(expr_dv(*e) == ExprV::MethodCall {
                        receiver: Box::new(rv),
                        method: mv,
                        args: av,
                    });
                }
                if args.len() == 0 {
                    let is_into = *method == "into".to_owned();
                    let is_as_ref = *method == "as_ref".to_owned();
                    let is_as_mut = *method == "as_mut".to_owned();
                    let matched: bool = if is_into {
                        has_conversion(&self.intos, &**receiver)
                    } else if is_as_ref {
                        has_conversion(&self.as_refs, &**receiver)
                    } else if is_as_mut {
                        has_conversion(&self.as_muts, &**receiver)
                    } else {
                        false
                    };
                    proof {
                        assert(matched == spec_fold_matches(reg, rv, mv));
                    }
                    if matched {
                        match &**receiver {
                            Expr::Ident { ident } => {
                                let out = Expr::Ident { ident: ident.clone() };
                                proof {
                                    assert(rv == ExprV::Ident { ident: ident@ });
                                    assert(expr_dv(out) == rv);
                                }
                                return out;
                            },
                            _ => {
                                return vstd::pervasive::unreached();
                            },
                        }
                    }
                }
                proof {
                    assert(!(av.len() == 0 && spec_fold_matches(reg, rv, mv)));
                }
                let folded_recv = self.fold_expr(receiver);
                let ghost frv = expr_dv(folded_recv);
                let folded_args = self.fold_args(args);
                let ghost fav = exprs_dv(folded_args@);
                let out = Expr::MethodCall {
                    receiver: Box::new(folded_recv),
                    method: method.clone(),
                    args: folded_args,
                };
                proof {
                    assert(expr_dv(out) == ExprV::MethodCall {
                        receiver: Box::new(frv),
                        method: method@,
                        args: fav,
                    });
                }
                out
            },
            Expr::Call { func, args } => {
                let folded_func = self.fold_expr(func);
                let ghost ffv = expr_dv(folded_func);
                let folded_args = self.fold_args(args);
                let ghost fav = exprs_dv(folded_args@);
                let out = Expr::Call { func: Box::new(folded_func), args: folded_args };
                proof {
                    assert(expr_dv(out) == ExprV::Call { func: Box::new(ffv), args: fav });
                }
                out
            },
            Expr::Other { head, subs } => {
                let folded_subs = self.fold_args(subs);
                let ghost fsv = exprs_dv(folded_subs@);
                let out = Expr::Other { head: head.clone(), subs: folded_subs };
                proof {
                    assert(expr_dv(out) == ExprV::Other { head: head@, subs: fsv });
                }
                out
            },
        }
    }

    /// Rewrites each expression of a list, in order.
    fn fold_args(&self, v: &Vec<Expr>) -> (r: Vec<Expr>)
        ensures
            exprs_dv(r@) == spec_fold_seq(registry_dv(*self), exprs_dv(v@)),
        decreases *v,
    {
        let ghost s = exprs_dv(v@);
        let ghost reg = registry_dv(*self);
        let mut out: Vec<Expr> = Vec::new();
        let n = v.len();
        proof {
            lemma_exprs_dv(v@);
            assert(exprs_dv(out@) =~= spec_fold_seq(reg, s.subrange(0, 0)));
        }
        let mut i: usize = 0;
        while i < n
            invariant
                n == v.len(),
                i <= n,
                s == exprs_dv(v@),
                s.len() == n,
                reg == registry_dv(*self),
                exprs_dv(out@) == spec_fold_seq(reg, s.subrange(0, i as int)),
            decreases n - i,
        {
            proof {
                lemma_exprs_dv(v@);
            }
            let folded = self.fold_expr(&v[i]);
            let ghost cur = s.subrange(0, i as int + 1);
            proof {
                lemma_exprs_dv_push(out@, folded);
                assert(cur.subrange(0, cur.len() - 1) =~= s.subrange(0, i as int));
                assert(cur[cur.len() - 1] == expr_dv(v@[i as int]));
            }
            out.push(folded);
            i += 1;
        }
        proof {
            assert(s.subrange(0, n as int) =~= s);
        }
        out
    }
}

} // verus!
