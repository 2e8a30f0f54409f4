use momo::ast::{
    Bound, Expr, FnDecl, GenericParam, Generics, Inlining, Item, Param, Pat, Ty, TyArg,
};
use momo::transform::MomoOutput;
use momo::split::TransformError;

fn s(x: &str) -> String {
    x.to_string()
}

fn path_ty(name: &str) -> Ty {
    Ty::Path { ident: s(name), args_text: String::new() }
}

fn ident_pat(name: &str) -> Pat {
    Pat::Ident { ident: s(name), is_mut: false }
}

fn mut_pat(name: &str) -> Pat {
    Pat::Ident { ident: s(name), is_mut: true }
}

fn ident_expr(name: &str) -> Expr {
    Expr::Ident { ident: s(name) }
}

fn mcall(recv: Expr, method: &str, args: Vec<Expr>) -> Expr {
    Expr::MethodCall { receiver: Box::new(recv), method: s(method), args }
}

fn conv_bound(tr: &str, target: Ty) -> Bound {
    Bound::Trait { prefix: String::new(), last: s(tr), args: vec![TyArg::Type(target)] }
}

fn tparam(name: &str, bounds: Vec<Bound>) -> GenericParam {
    GenericParam::TypeParam { ident: s(name), bounds }
}

fn typed(name: &str, ty: Ty) -> Param {
    Param::Typed { pat: ident_pat(name), ty }
}

fn expand(decl: FnDecl) -> (FnDecl, FnDecl) {
    match momo::transform::momo(Item::Fn(decl)).unwrap() {
        MomoOutput::Expanded { outer, inner } => (outer, inner),
        MomoOutput::Unchanged { .. } => panic!("expected an expansion"),
    }
}

fn into_usize_decl() -> FnDecl {
    FnDecl {
        vis: String::new(),
        ident: s("f"),
        generics: Generics {
            params: vec![tparam("I", vec![conv_bound("Into", path_ty("usize"))])],
            preds: None,
        },
        params: vec![typed("i", path_ty("I"))],
        ret: s("-> usize"),
        inlining: Inlining::Default,
        body: mcall(ident_expr("i"), "into", vec![]),
    }
}

#[test]
fn into_usize_outer_shape() {
    let (outer, _) = expand(into_usize_decl());
    let original = into_usize_decl();
    assert_eq!(outer.vis, original.vis);
    assert_eq!(outer.ident, s("f"));
    assert_eq!(outer.generics, original.generics);
    assert_eq!(outer.params, original.params);
    assert_eq!(outer.ret, original.ret);
    assert_eq!(outer.inlining, Inlining::Always);
    assert_eq!(
        outer.body,
        Expr::Call {
            func: Box::new(ident_expr("_f_inner")),
            args: vec![mcall(ident_expr("i"), "into", vec![])],
        }
    );
}

#[test]
fn into_usize_inner_shape() {
    let (_, inner) = expand(into_usize_decl());
    assert_eq!(inner.vis, String::new());
    assert_eq!(inner.ident, s("_f_inner"));
    assert_eq!(inner.generics, Generics { params: vec![], preds: None });
    assert_eq!(inner.params, vec![typed("i", path_ty("usize"))]);
    assert_eq!(inner.ret, s("-> usize"));
    assert_eq!(inner.inlining, Inlining::Never);
    assert_eq!(inner.body, ident_expr("i"));
}

fn f<I: Into<usize>>(i: I) -> usize {
    _f_inner(i.into())
}

fn _f_inner(i: usize) -> usize {
    i
}

#[test]
fn into_usize_evaluates() {
    assert_eq!(f(1u8), 1);
}

#[test]
fn instantiations_share_the_inner_declaration() {
    // two generic argument sets that convert to the same concrete type
    // produce the same result through the one inner function
    assert_eq!(f(1u8), 1);
    assert_eq!(f(2u16), 2);
    // and the generated outer body names exactly the inner declaration
    let (outer, inner) = expand(into_usize_decl());
    match outer.body {
        Expr::Call { func, .. } => assert_eq!(*func, Expr::Ident { ident: inner.ident }),
        _ => panic!("the outer body must be a single forwarding call"),
    }
}

fn three_decl(existential: bool) -> FnDecl {
    let (generics, tys): (Generics, Vec<Ty>) = if existential {
        (
            Generics { params: vec![], preds: None },
            vec![
                Ty::ImplTrait { bounds: vec![conv_bound("Into", path_ty("usize"))] },
                Ty::ImplTrait { bounds: vec![conv_bound("AsRef", path_ty("str"))] },
                Ty::ImplTrait {
                    bounds: vec![conv_bound("AsMut", Ty::Other { text: s("[usize]") })],
                },
            ],
        )
    } else {
        (
            Generics {
                params: vec![
                    tparam("I", vec![conv_bound("Into", path_ty("usize"))]),
                    tparam("S", vec![conv_bound("AsRef", path_ty("str"))]),
                    tparam("M", vec![conv_bound("AsMut", Ty::Other { text: s("[usize]") })]),
                ],
                preds: None,
            },
            vec![path_ty("I"), path_ty("S"), path_ty("M")],
        )
    };
    let mut tys = tys.into_iter();
    FnDecl {
        vis: s("pub"),
        ident: s("test3"),
        generics,
        params: vec![
            Param::Typed { pat: ident_pat("i"), ty: tys.next().unwrap() },
            Param::Typed { pat: ident_pat("s"), ty: tys.next().unwrap() },
            Param::Typed { pat: mut_pat("m"), ty: tys.next().unwrap() },
        ],
        ret: s("-> usize"),
        inlining: Inlining::Default,
        body: Expr::Other {
            head: s("sum"),
            subs: vec![
                mcall(ident_expr("i"), "into", vec![]),
                mcall(ident_expr("s"), "as_ref", vec![]),
                mcall(ident_expr("m"), "as_mut", vec![]),
            ],
        },
    }
}

fn check_three(decl: FnDecl) {
    let (outer, inner) = expand(decl);
    assert_eq!(
        outer.body,
        Expr::Call {
            func: Box::new(ident_expr("_test3_inner")),
            args: vec![
                mcall(ident_expr("i"), "into", vec![]),
                mcall(ident_expr("s"), "as_ref", vec![]),
                mcall(ident_expr("m"), "as_mut", vec![]),
            ],
        }
    );
    assert_eq!(inner.generics, Generics { params: vec![], preds: None });
    assert_eq!(
        inner.params,
        vec![
            Param::Typed { pat: ident_pat("i"), ty: path_ty("usize") },
            Param::Typed {
                pat: ident_pat("s"),
                ty: Ty::Ref { mutable: false, inner: Box::new(path_ty("str")) },
            },
            Param::Typed {
                pat: mut_pat("m"),
                ty: Ty::Ref {
                    mutable: true,
                    inner: Box::new(Ty::Other { text: s("[usize]") }),
                },
            },
        ]
    );
    assert_eq!(
        inner.body,
        Expr::Other {
            head: s("sum"),
            subs: vec![ident_expr("i"), ident_expr("s"), ident_expr("m")],
        }
    );
}

#[test]
fn three_conversions_generic_form() {
    check_three(three_decl(false));
}

#[test]
fn three_conversions_existential_form() {
    check_three(three_decl(true));
}

#[test]
fn three_conversions_method_form() {
    let mut decl = three_decl(false);
    decl.params.insert(0, Param::Receiver { text: s("&self") });
    let (outer, inner) = expand(decl);
    assert_eq!(
        outer.body,
        Expr::MethodCall {
            receiver: Box::new(ident_expr("self")),
            method: s("_test3_inner"),
            args: vec![
                mcall(ident_expr("i"), "into", vec![]),
                mcall(ident_expr("s"), "as_ref", vec![]),
                mcall(ident_expr("m"), "as_mut", vec![]),
            ],
        }
    );
    assert_eq!(inner.params[0], Param::Receiver { text: s("&self") });
    assert_eq!(inner.params.len(), 4);
}

fn test3<I: Into<usize>, S: AsRef<str>, M: AsMut<[usize]>>(i: I, s: S, mut m: M) -> usize {
    _test3_inner(i.into(), s.as_ref(), m.as_mut())
}

fn _test3_inner(i: usize, s: &str, m: &mut [usize]) -> usize {
    i + s.len() + m[0]
}

fn test3e(
    i: impl Into<usize>,
    s: impl AsRef<str>,
    mut m: impl AsMut<[usize]>,
) -> usize {
    _test3_inner(i.into(), s.as_ref(), m.as_mut())
}

struct Counter {
    base: usize,
}

impl Counter {
    fn add_all<I: Into<usize>, S: AsRef<str>, M: AsMut<[usize]>>(
        &self,
        i: I,
        s: S,
        mut m: M,
    ) -> usize {
        self._add_all_inner(i.into(), s.as_ref(), m.as_mut())
    }

    fn _add_all_inner(&self, i: usize, s: &str, m: &mut [usize]) -> usize {
        self.base + i + s.len() + m[0]
    }
}

#[test]
fn three_conversions_evaluate() {
    let expected = 1 + "Hello, Rust!".len() + 3;
    assert_eq!(test3(1u8, "Hello, Rust!", [3usize, 42]), expected);
    assert_eq!(test3e(1u8, "Hello, Rust!", [3usize, 42]), expected);
    let c = Counter { base: 0 };
    assert_eq!(c.add_all(1u8, "Hello, Rust!", [3usize, 42]), expected);
    assert_eq!(test3(1u8, "Hello, Rust!", [3usize, 42]), test3e(1u8, "Hello, Rust!", [3usize, 42]));
}

#[test]
fn non_function_item_unchanged() {
    let item = Item::Other { text: s("struct S;") };
    match momo::transform::momo(item).unwrap() {
        MomoOutput::Unchanged { item } => {
            assert_eq!(item, Item::Other { text: s("struct S;") });
        }
        MomoOutput::Expanded { .. } => panic!("a non-function item must pass through"),
    }
}

#[test]
fn destructuring_binding_is_rejected() {
    let mut decl = into_usize_decl();
    decl.params = vec![Param::Typed { pat: Pat::Other { text: s("(a, b)") }, ty: path_ty("I") }];
    let err = momo::transform::momo(Item::Fn(decl)).unwrap_err();
    assert_eq!(err, TransformError::UnsupportedPattern { index: 0 });
}

#[test]
fn destructuring_binding_reports_first_position() {
    let mut decl = three_decl(false);
    decl.params.insert(0, Param::Receiver { text: s("&self") });
    decl.params[2] = Param::Typed { pat: Pat::Other { text: s("[a, b]") }, ty: path_ty("S") };
    let err = momo::transform::momo(Item::Fn(decl)).unwrap_err();
    assert_eq!(err, TransformError::UnsupportedPattern { index: 2 });
}

#[test]
fn reclassifying_inner_generics_is_empty() {
    let (_, inner) = expand(three_decl(false));
    let (table, retained) = momo::classify::parse_generics(&inner.generics);
    assert!(table.entries.is_empty());
    assert_eq!(retained, inner.generics);
}
