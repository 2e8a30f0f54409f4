use momo::ast::{
    Bound, Expr, FnDecl, GenericParam, Generics, Inlining, Item, Param, Pat, Ty, TyArg, WherePred,
};
use momo::conversion::Conversions;
use momo::transform::MomoOutput;

fn s(x: &str) -> String {
    x.to_string()
}

fn path_ty(name: &str) -> Ty {
    Ty::Path { ident: s(name), args_text: String::new() }
}

fn ident_pat(name: &str) -> Pat {
    Pat::Ident { ident: s(name), is_mut: false }
}

fn ident_expr(name: &str) -> Expr {
    Expr::Ident { ident: s(name) }
}

fn mcall(recv: Expr, method: &str, args: Vec<Expr>) -> Expr {
    Expr::MethodCall { receiver: Box::new(recv), method: s(method), args }
}

fn conv_bound(tr: &str, target: Ty) -> Bound {
    Bound::Trait { prefix: String::new(), last: s(tr), args: vec![TyArg::Type(target)] }
}

fn tparam(name: &str, bounds: Vec<Bound>) -> GenericParam {
    GenericParam::TypeParam { ident: s(name), bounds }
}

fn decl(generics: Generics, params: Vec<Param>, body: Expr) -> FnDecl {
    FnDecl {
        vis: String::new(),
        ident: s("g"),
        generics,
        params,
        ret: String::new(),
        inlining: Inlining::Default,
        body,
    }
}

fn expand(d: FnDecl) -> (FnDecl, FnDecl) {
    match momo::transform::momo(Item::Fn(d)).unwrap() {
        MomoOutput::Expanded { outer, inner } => (outer, inner),
        MomoOutput::Unchanged { .. } => panic!("expected an expansion"),
    }
}

fn registry(intos: &[&str], as_refs: &[&str], as_muts: &[&str]) -> Conversions {
    Conversions {
        intos: intos.iter().map(|x| s(x)).collect(),
        as_refs: as_refs.iter().map(|x| s(x)).collect(),
        as_muts: as_muts.iter().map(|x| s(x)).collect(),
    }
}

#[test]
fn where_clause_bound_classifies() {
    let g = Generics {
        params: vec![tparam("T", vec![])],
        preds: Some(vec![WherePred::TypeBound {
            bounded: path_ty("T"),
            bounds: vec![conv_bound("Into", path_ty("usize"))],
        }]),
    };
    let (outer, inner) = expand(decl(
        g,
        vec![Param::Typed { pat: ident_pat("x"), ty: path_ty("T") }],
        mcall(ident_expr("x"), "into", vec![]),
    ));
    // the where-clause predicate is consumed; the parameter list it bound is
    // reduced, and the empty where-clause itself is kept
    assert_eq!(inner.generics, Generics { params: vec![tparam("T", vec![])], preds: Some(vec![]) });
    assert_eq!(
        inner.params,
        vec![Param::Typed { pat: ident_pat("x"), ty: path_ty("usize") }]
    );
    assert_eq!(inner.body, ident_expr("x"));
    assert_eq!(
        outer.body,
        Expr::Call {
            func: Box::new(ident_expr("_g_inner")),
            args: vec![mcall(ident_expr("x"), "into", vec![])],
        }
    );
}

fn dangling_pred() -> WherePred {
    WherePred::TypeBound {
        bounded: path_ty("T"),
        bounds: vec![Bound::Trait { prefix: String::new(), last: s("Clone"), args: vec![] }],
    }
}

#[test]
fn unrelated_predicate_on_classified_parameter_is_retained() {
    // a parameter classified by its inline bound may still be named by an
    // unrelated where-clause predicate; that predicate is kept as it is
    let g = Generics {
        params: vec![tparam("T", vec![conv_bound("Into", path_ty("usize"))])],
        preds: Some(vec![dangling_pred()]),
    };
    let (_, inner) = expand(decl(
        g,
        vec![Param::Typed { pat: ident_pat("x"), ty: path_ty("T") }],
        ident_expr("x"),
    ));
    assert_eq!(inner.generics, Generics { params: vec![], preds: Some(vec![dangling_pred()]) });
}

#[test]
fn later_where_record_overrides_inline_record() {
    let g = Generics {
        params: vec![tparam("T", vec![conv_bound("Into", path_ty("usize"))])],
        preds: Some(vec![WherePred::TypeBound {
            bounded: path_ty("T"),
            bounds: vec![conv_bound("AsRef", path_ty("str"))],
        }]),
    };
    let (outer, inner) = expand(decl(
        g,
        vec![Param::Typed { pat: ident_pat("x"), ty: path_ty("T") }],
        ident_expr("x"),
    ));
    assert_eq!(
        inner.params,
        vec![Param::Typed {
            pat: ident_pat("x"),
            ty: Ty::Ref { mutable: false, inner: Box::new(path_ty("str")) },
        }]
    );
    assert_eq!(
        outer.body,
        Expr::Call {
            func: Box::new(ident_expr("_g_inner")),
            args: vec![mcall(ident_expr("x"), "as_ref", vec![])],
        }
    );
}

fn ambiguous_params() -> Vec<GenericParam> {
    vec![
        tparam(
            "A",
            vec![
                conv_bound("Into", path_ty("usize")),
                Bound::Trait { prefix: String::new(), last: s("Clone"), args: vec![] },
            ],
        ),
        tparam("B", vec![Bound::Trait { prefix: String::new(), last: s("Into"), args: vec![] }]),
        tparam(
            "C",
            vec![Bound::Trait {
                prefix: String::new(),
                last: s("Into"),
                args: vec![TyArg::Type(path_ty("u8")), TyArg::Type(path_ty("u16"))],
            }],
        ),
    ]
}

fn ambiguous_fn_params() -> Vec<Param> {
    let impl_debug = Ty::ImplTrait {
        bounds: vec![Bound::Trait { prefix: String::new(), last: s("Debug"), args: vec![] }],
    };
    vec![
        Param::Typed { pat: ident_pat("a"), ty: path_ty("A") },
        Param::Typed { pat: ident_pat("b"), ty: path_ty("B") },
        Param::Typed { pat: ident_pat("c"), ty: path_ty("C") },
        Param::Typed { pat: ident_pat("d"), ty: impl_debug },
    ]
}

#[test]
fn ambiguous_bounds_fall_back_to_ordinary_parameters() {
    // two bounds, a zero-argument conversion trait, a two-argument one, and
    // an unsupported existential bound: none classifies, every parameter is
    // kept as written
    let g = Generics { params: ambiguous_params(), preds: None };
    let (outer, inner) = expand(decl(g, ambiguous_fn_params(), ident_expr("a")));
    assert_eq!(inner.generics.params, ambiguous_params());
    assert_eq!(inner.params, ambiguous_fn_params());
    assert_eq!(
        outer.body,
        Expr::Call {
            func: Box::new(ident_expr("_g_inner")),
            args: vec![ident_expr("a"), ident_expr("b"), ident_expr("c"), ident_expr("d")],
        }
    );
}

#[test]
fn lifetime_parameters_are_retained() {
    let g = Generics {
        params: vec![
            GenericParam::Other { text: s("'a") },
            tparam("I", vec![conv_bound("Into", path_ty("usize"))]),
        ],
        preds: None,
    };
    let (_, inner) = expand(decl(
        g,
        vec![Param::Typed { pat: ident_pat("x"), ty: path_ty("I") }],
        ident_expr("x"),
    ));
    assert_eq!(
        inner.generics,
        Generics { params: vec![GenericParam::Other { text: s("'a") }], preds: None }
    );
}

#[test]
fn qualified_conversion_trait_classifies() {
    let b = Bound::Trait {
        prefix: s("::core::convert::"),
        last: s("Into"),
        args: vec![TyArg::Type(path_ty("usize"))],
    };
    let g = Generics { params: vec![tparam("I", vec![b])], preds: None };
    let (_, inner) = expand(decl(
        g,
        vec![Param::Typed { pat: ident_pat("x"), ty: path_ty("I") }],
        ident_expr("x"),
    ));
    assert_eq!(inner.params, vec![Param::Typed { pat: ident_pat("x"), ty: path_ty("usize") }]);
}

#[test]
fn fold_removes_matching_invocation() {
    let r = registry(&["i"], &[], &[]);
    assert_eq!(r.fold_expr(&mcall(ident_expr("i"), "into", vec![])), ident_expr("i"));
}

#[test]
fn fold_reaches_nested_positions() {
    let r = registry(&[], &["src"], &[]);
    let e = Expr::Other {
        head: s("block"),
        subs: vec![
            Expr::Call {
                func: Box::new(ident_expr("consume")),
                args: vec![mcall(ident_expr("src"), "as_ref", vec![])],
            },
            mcall(mcall(ident_expr("src"), "as_ref", vec![]), "len", vec![]),
        ],
    };
    let folded = r.fold_expr(&e);
    assert_eq!(
        folded,
        Expr::Other {
            head: s("block"),
            subs: vec![
                Expr::Call { func: Box::new(ident_expr("consume")), args: vec![ident_expr("src")] },
                mcall(ident_expr("src"), "len", vec![]),
            ],
        }
    );
}

#[test]
fn fold_keeps_call_with_arguments() {
    let r = registry(&["i"], &[], &[]);
    let e = mcall(ident_expr("i"), "into", vec![ident_expr("x")]);
    assert_eq!(r.fold_expr(&e), e);
}

#[test]
fn fold_keeps_unregistered_identifier() {
    let r = registry(&["i"], &[], &[]);
    let e = mcall(ident_expr("j"), "into", vec![]);
    assert_eq!(r.fold_expr(&e), e);
}

#[test]
fn fold_keeps_other_method_of_registered_identifier() {
    let r = registry(&["i"], &[], &[]);
    let e = mcall(ident_expr("i"), "as_ref", vec![]);
    assert_eq!(r.fold_expr(&e), e);
}

#[test]
fn fold_keeps_non_identifier_receiver() {
    let r = registry(&["i"], &[], &[]);
    let e = mcall(
        Expr::Call { func: Box::new(ident_expr("make")), args: vec![] },
        "into",
        vec![],
    );
    assert_eq!(r.fold_expr(&e), e);
}

#[test]
fn fold_is_a_single_pass_on_chained_conversions() {
    // the pass is a single top-down rewrite: folding the receiver of an
    // outer call does not make the outer call a candidate again
    let r = registry(&["i"], &[], &[]);
    let e = mcall(mcall(ident_expr("i"), "into", vec![]), "into", vec![]);
    assert_eq!(r.fold_expr(&e), mcall(ident_expr("i"), "into", vec![]));
}

#[test]
fn has_conversion_checks_bare_identifiers_only() {
    let idents = vec![s("i"), s("j")];
    assert!(momo::fold::has_conversion(&idents, &ident_expr("j")));
    assert!(!momo::fold::has_conversion(&idents, &ident_expr("k")));
    assert!(!momo::fold::has_conversion(&idents, &mcall(ident_expr("i"), "into", vec![])));
}

#[test]
fn parse_bounds_recognizes_each_conversion() {
    let b = vec![conv_bound("Into", path_ty("usize"))];
    assert_eq!(
        momo::classify::parse_bounds(&b),
        Some(momo::conversion::Conversion::Value(path_ty("usize")))
    );
    let b = vec![conv_bound("AsRef", path_ty("str"))];
    assert_eq!(
        momo::classify::parse_bounds(&b),
        Some(momo::conversion::Conversion::Borrow(path_ty("str")))
    );
    let b = vec![conv_bound("AsMut", path_ty("str"))];
    assert_eq!(
        momo::classify::parse_bounds(&b),
        Some(momo::conversion::Conversion::BorrowMut(path_ty("str")))
    );
}

#[test]
fn parse_bounds_rejects_other_shapes() {
    // another trait, a lifetime argument, two bounds, and an empty list
    let other = vec![conv_bound("From", path_ty("usize"))];
    assert_eq!(momo::classify::parse_bounds(&other), None);
    let lifetime_arg = vec![Bound::Trait {
        prefix: String::new(),
        last: s("Into"),
        args: vec![TyArg::Other { text: s("'a") }],
    }];
    assert_eq!(momo::classify::parse_bounds(&lifetime_arg), None);
    let two = vec![
        conv_bound("Into", path_ty("usize")),
        conv_bound("AsRef", path_ty("str")),
    ];
    assert_eq!(momo::classify::parse_bounds(&two), None);
    assert_eq!(momo::classify::parse_bounds(&vec![]), None);
}

#[test]
fn parse_bounded_type_takes_single_identifiers_only() {
    assert_eq!(momo::classify::parse_bounded_type(&path_ty("T")), Some(&s("T")));
    assert_eq!(
        momo::classify::parse_bounded_type(&Ty::Other { text: s("a::B") }),
        None
    );
    assert_eq!(
        momo::classify::parse_bounded_type(&Ty::Ref {
            mutable: false,
            inner: Box::new(path_ty("T")),
        }),
        None
    );
}

#[test]
fn empty_generics_pass_through() {
    let g = Generics { params: vec![], preds: None };
    let (outer, inner) = expand(decl(
        g,
        vec![Param::Typed { pat: ident_pat("x"), ty: path_ty("usize") }],
        ident_expr("x"),
    ));
    assert_eq!(outer.generics, Generics { params: vec![], preds: None });
    assert_eq!(inner.generics, Generics { params: vec![], preds: None });
    assert_eq!(inner.params, vec![Param::Typed { pat: ident_pat("x"), ty: path_ty("usize") }]);
    assert_eq!(
        outer.body,
        Expr::Call { func: Box::new(ident_expr("_g_inner")), args: vec![ident_expr("x")] }
    );
}
