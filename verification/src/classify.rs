//! The bound classifier: recognizes which generic parameters and
//! where-clause predicates carry exactly one single-argument conversion
//! bound, records them in a [`ConversionTable`], and drops them from the
//! generics that remain on the inner declaration.

use vstd::prelude::*;

use crate::ast::{
    bounds_dv, clone_gp, clone_ty, clone_wp, generics_dv, gp_dv, gps_dv, lemma_bounds_dv, ty_dv,
    wp_dv, wps_dv, Bound, BoundV, GenericParam, GenericParamV, Generics, GenericsV, Ty, TyArg,
    TyArgV, TyV, WherePred, WherePredV,
};
use crate::conversion::{conv_dv, Conversion, ConversionTable, ConversionV};

verus! {

/// The identifier a bounded type resolves to: a path of exactly one
/// identifier resolves to that identifier, anything else to nothing.
pub open spec fn spec_bounded_ident(t: TyV) -> Option<Seq<char>> {
    match t {
        TyV::Path { ident, args_text } => Some(ident),
        _ => None,
    }
}

/// The conversion a bound list denotes: it must consist of exactly one
/// trait bound whose last segment is one of the three conversion traits,
/// applied to exactly one type argument — the conversion's target.
pub open spec fn spec_parse_bounds(bs: Seq<BoundV>) -> Option<ConversionV> {
    if bs.len() != 1 {
        None
    } else {
        match bs[0] {
            BoundV::Trait { prefix, last, args } => {
                if args.len() != 1 {
                    None
                } else {
                    match args[0] {
                        TyArgV::Type(t) => {
                            if last == "Into"@ {
                                Some(ConversionV::Value(t))
                            } else if last == "AsRef"@ {
                                Some(ConversionV::Borrow(t))
                            } else if last == "AsMut"@ {
                                Some(ConversionV::BorrowMut(t))
                            } else {
                                None
                            }
                        },
                        TyArgV::Other { text } => None,
                    }
                }
            },
            BoundV::Other { text } => None,
        }
    }
}

/// The classification of one generic parameter: the identifier and
/// conversion it records, or nothing when it is retained.
pub open spec fn spec_classify_param(p: GenericParamV) -> Option<(Seq<char>, ConversionV)> {
    match p {
        GenericParamV::TypeParam { ident, bounds } => match spec_parse_bounds(bounds) {
            Some(c) => Some((ident, c)),
            None => None,
        },
        GenericParamV::Other { text } => None,
    }
}

/// The classification of one where-clause predicate.
pub open spec fn spec_classify_pred(p: WherePredV) -> Option<(Seq<char>, ConversionV)> {
    match p {
        WherePredV::TypeBound { bounded, bounds } => match spec_bounded_ident(bounded) {
            Some(ident) => match spec_parse_bounds(bounds) {
                Some(c) => Some((ident, c)),
                None => None,
            },
            None => None,
        },
        WherePredV::Other { text } => None,
    }
}

/// The table recorded by a sequence of generic parameters, later records
/// overriding earlier ones, starting from `m`.
pub open spec fn spec_table_params(
    m: Map<Seq<char>, ConversionV>,
    ps: Seq<GenericParamV>,
) -> Map<Seq<char>, ConversionV>
    decreases ps,
{
    if ps.len() == 0 {
        m
    } else {
        let prev = spec_table_params(m, ps.subrange(0, ps.len() - 1));
        match spec_classify_param(ps[ps.len() - 1]) {
            Some((ident, c)) => prev.insert(ident, c),
            None => prev,
        }
    }
}

/// The table recorded by a sequence of predicates, starting from `m`.
pub open spec fn spec_table_preds(
    m: Map<Seq<char>, ConversionV>,
    ps: Seq<WherePredV>,
) -> Map<Seq<char>, ConversionV>
    decreases ps,
{
    if ps.len() == 0 {
        m
    } else {
        let prev = spec_table_preds(m, ps.subrange(0, ps.len() - 1));
        match spec_classify_pred(ps[ps.len() - 1]) {
            Some((ident, c)) => prev.insert(ident, c),
            None => prev,
        }
    }
}

/// The conversion table of a declaration's generics: inline bounds first,
/// then where-clause predicates.
pub open spec fn spec_table(g: GenericsV) -> Map<Seq<char>, ConversionV> {
    let after_params = spec_table_params(Map::empty(), g.params);
    match g.preds {
        Some(ps) => spec_table_preds(after_params, ps),
        None => after_params,
    }
}

/// The generics retained for the inner declaration: the unclassified
/// parameters and predicates, in their original relative order.
pub open spec fn spec_retained(g: GenericsV) -> GenericsV {
    GenericsV {
        params: g.params.filter(|p: GenericParamV| spec_classify_param(p) is None),
        preds: match g.preds {
            Some(ps) => Some(ps.filter(|p: WherePredV| spec_classify_pred(p) is None)),
            None => None,
        },
    }
}

/// Extracts the single identifier a bounded type names, if any.
pub fn parse_bounded_type(ty: &Ty) -> (r: Option<&String>)
    ensures
        match r {
            Some(i) => spec_bounded_ident(ty_dv(*ty)) == Some(i@),
            None => spec_bounded_ident(ty_dv(*ty)) is None,
        },
{
    match ty {
        Ty::Path { ident, args_text } => Some(ident),
        _ => None,
    }
}

/// Recognizes a bound list that denotes a supported conversion and
/// extracts the conversion, target type included.
pub fn parse_bounds(bounds: &Vec<Bound>) -> (r: Option<Conversion>)
    ensures
        match r {
            Some(c) => spec_parse_bounds(bounds_dv(bounds@)) == Some(conv_dv(c)),
            None => spec_parse_bounds(bounds_dv(bounds@)) is None,
        },
{
    proof {
        lemma_bounds_dv(bounds@);
    }
    if bounds.len() != 1 {
        return None;
    }
    match &bounds[0] {
        Bound::Trait { prefix, last, args } => {
            proof {
                crate::ast::lemma_ty_args_dv(args@);
            }
            if args.len() != 1 {
                return None;
            }
            match &args[0] {
                TyArg::Type(t) => {
                    if *last == "Into".to_owned() {
                        Some(Conversion::Value(clone_ty(t)))
                    } else if *last == "AsRef".to_owned() {
                        Some(Conversion::Borrow(clone_ty(t)))
                    } else if *last == "AsMut".to_owned() {
                        Some(Conversion::BorrowMut(clone_ty(t)))
                    } else {
                        None
                    }
                },
                TyArg::Other { text } => None,
            }
        },
        Bound::Other { text } => None,
    }
}

/// Builds the conversion table of a declaration's generics and the
/// reduced generics retained for the inner declaration.
///
/// A where-clause predicate that classifies overrides an earlier record
/// from the parameter's own inline bound. A predicate that does not
/// classify is retained as it stands, even when it names a parameter an
/// inline bound classified — the caller then sees a leftover constraint
/// on a parameter the reduced generics no longer declare.
pub fn parse_generics(generics: &Generics) -> (r: (ConversionTable, Generics))
    ensures
        r.0.wf(),
        r.0.dv() == spec_table(generics_dv(*generics)),
        generics_dv(r.1) == spec_retained(generics_dv(*generics)),
{
    let ghost pv = gps_dv(generics.params@);
    let mut table = ConversionTable::new();
    let mut retained: Vec<GenericParam> = Vec::new();
    let n = generics.params.len();
    proof {
        reveal(Seq::filter);
        assert(pv.subrange(0, 0) =~= Seq::<GenericParamV>::empty());
        assert(gps_dv(retained@) =~= Seq::<GenericParamV>::empty());
    }
    let mut i: usize = 0;
    while i < n
        invariant
            n == generics.params.len(),
            i <= n,
            pv == gps_dv(generics.params@),
            pv.len() == n,
            table.wf(),
            table.dv() == spec_table_params(Map::empty(), pv.subrange(0, i as int)),
            gps_dv(retained@) == pv.subrange(0, i as int).filter(
                |p: GenericParamV| spec_classify_param(p) is None,
            ),
        decreases n - i,
    {
        let gp = &generics.params[i];
        let ghost pre = pv.subrange(0, i as int);
        let ghost cur = pv.subrange(0, i as int + 1);
        proof {
            reveal(Seq::filter);
            assert(cur.drop_last() =~= pre);
            assert(cur.last() == gp_dv(*gp));
        }
        let mut keep = true;
        match gp {
            GenericParam::TypeParam { ident, bounds } => {
                match parse_bounds(bounds) {
                    Some(c) => {
                        table.insert(ident.clone(), c);
                        keep = false;
                    },
                    None => {},
                }
            },
            GenericParam::Other { text } => {},
        }
        if keep {
            let ghost r0 = retained@;
            retained.push(clone_gp(gp));
            proof {
                assert(gps_dv(retained@) =~= gps_dv(r0).push(gp_dv(*gp)));
            }
        }
        i += 1;
    }
    proof {
        assert(pv.subrange(0, n as int) =~= pv);
    }
    let preds: Option<Vec<WherePred>> = match &generics.preds {
        None => None,
        Some(ps) => {
            let ghost wv = wps_dv(ps@);
            let ghost m0 = table.dv();
            let mut kept: Vec<WherePred> = Vec::new();
            let m = ps.len();
            proof {
                reveal(Seq::filter);
                assert(wv.subrange(0, 0) =~= Seq::<WherePredV>::empty());
                assert(wps_dv(kept@) =~= Seq::<WherePredV>::empty());
            }
            let mut j: usize = 0;
            while j < m
                invariant
                    m == ps.len(),
                    j <= m,
                    wv == wps_dv(ps@),
                    wv.len() == m,
                    table.wf(),
                    table.dv() == spec_table_preds(m0, wv.subrange(0, j as int)),
                    wps_dv(kept@) == wv.subrange(0, j as int).filter(
                        |p: WherePredV| spec_classify_pred(p) is None,
                    ),
                decreases m - j,
            {
                let wp = &ps[j];
                let ghost pre = wv.subrange(0, j as int);
                let ghost cur = wv.subrange(0, j as int + 1);
                proof {
                    reveal(Seq::filter);
                    assert(cur.drop_last() =~= pre);
                    assert(cur.last() == wp_dv(*wp));
                }
                let mut keep = true;
                match wp {
                    WherePred::TypeBound { bounded, bounds } => {
                        match parse_bounded_type(bounded) {
                            Some(ident) => {
                                match parse_bounds(bounds) {
                                    Some(c) => {
                                        let id = ident.clone();
                                        table.insert(id, c);
                                        keep = false;
                                    },
                                    None => {},
                                }
                            },
                            None => {},
                        }
                    },
                    WherePred::Other { text } => {},
                }
                if keep {
                    let ghost k0 = kept@;
                    kept.push(clone_wp(wp));
                    proof {
                        assert(wps_dv(kept@) =~= wps_dv(k0).push(wp_dv(*wp)));
                    }
                }
                j += 1;
            }
            proof {
                assert(wv.subrange(0, m as int) =~= wv);
            }
            Some(kept)
        },
    };
    (table, Generics { params: retained, preds })
}

} // verus!
