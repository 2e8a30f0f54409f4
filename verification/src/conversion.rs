//! The supported conversions, the per-function table that maps classified
//! generic-parameter identifiers to their conversion, and the registry of
//! converted parameter identifiers that drives call-site folding.

use vstd::prelude::*;

use crate::ast::{clone_ty, expr_dv, exprs_dv, ty_dv, Expr, ExprV, Ty, TyV};

verus! {

/// One supported conversion capability, carrying the target element type
/// named in the original bound.
#[derive(Debug, PartialEq, Eq)]
pub enum Conversion {
    /// The parameter is converted into an owned target (an `Into` bound).
    Value(Ty),
    /// The parameter is converted into an immutable borrow of the target
    /// (an `AsRef` bound).
    Borrow(Ty),
    /// The parameter is converted into a mutable borrow of the target
    /// (an `AsMut` bound).
    BorrowMut(Ty),
}

/// The ghost counterpart of [`Conversion`].
pub enum ConversionV {
    Value(TyV),
    Borrow(TyV),
    BorrowMut(TyV),
}

/// The mathematical model of a conversion.
pub open spec fn conv_dv(c: Conversion) -> ConversionV {
    match c {
        Conversion::Value(t) => ConversionV::Value(ty_dv(t)),
        Conversion::Borrow(t) => ConversionV::Borrow(ty_dv(t)),
        Conversion::BorrowMut(t) => ConversionV::BorrowMut(ty_dv(t)),
    }
}

/// The name of the conversion method a kind stands for; the call-site
/// folder removes exactly the argument-less invocations of this method.
pub open spec fn spec_method_name(c: ConversionV) -> Seq<char> {
    match c {
        ConversionV::Value(_) => "into"@,
        ConversionV::Borrow(_) => "as_ref"@,
        ConversionV::BorrowMut(_) => "as_mut"@,
    }
}

/// The concrete parameter type the inner declaration uses in place of a
/// classified parameter's type.
pub open spec fn spec_target_type(c: ConversionV) -> TyV {
    match c {
        ConversionV::Value(t) => t,
        ConversionV::Borrow(t) => TyV::Ref { mutable: false, inner: Box::new(t) },
        ConversionV::BorrowMut(t) => TyV::Ref { mutable: true, inner: Box::new(t) },
    }
}

/// The forwarding expression the outer declaration applies to a converted
/// parameter: the conversion method, invoked on the bare identifier.
pub open spec fn spec_conversion_expr(c: ConversionV, ident: Seq<char>) -> ExprV {
    ExprV::MethodCall {
        receiver: Box::new(ExprV::Ident { ident }),
        method: spec_method_name(c),
        args: Seq::empty(),
    }
}

impl Conversion {
    /// The concrete type to use for the parameter in the inner signature.
    pub fn target_type(&self) -> (t: Ty)
        ensures
            ty_dv(t) == spec_target_type(conv_dv(*self)),
    {
        match self {
            Conversion::Value(t) => clone_ty(t),
            Conversion::Borrow(t) => Ty::Ref { mutable: false, inner: Box::new(clone_ty(t)) },
            Conversion::BorrowMut(t) => Ty::Ref { mutable: true, inner: Box::new(clone_ty(t)) },
        }
    }

    /// The forwarding expression to apply to the identifier at the call site.
    pub fn conversion_expr(&self, ident: &String) -> (e: Expr)
        ensures
            expr_dv(e) == spec_conversion_expr(conv_dv(*self), ident@),
    {
        let method: String = match self {
            Conversion::Value(_) => "into".to_owned(),
            Conversion::Borrow(_) => "as_ref".to_owned(),
            Conversion::BorrowMut(_) => "as_mut".to_owned(),
        };
        let args: Vec<Expr> = Vec::new();
        let bare = Expr::Ident { ident: ident.clone() };
        proof {
            assert(exprs_dv(args@) =~= Seq::<ExprV>::empty());
            assert(expr_dv(bare) == ExprV::Ident { ident: ident@ });
        }
        let ghost bare_v = expr_dv(bare);
        let e = Expr::MethodCall { receiver: Box::new(bare), method, args };
        proof {
            assert(expr_dv(e) == ExprV::MethodCall {
                receiver: Box::new(bare_v),
                method: method@,
                args: Seq::empty(),
            });
        }
        e
    }

    /// Duplicates the conversion; the copy has the same mathematical model.
    pub fn duplicate(&self) -> (c: Conversion)
        ensures
            conv_dv(c) == conv_dv(*self),
    {
        match self {
            Conversion::Value(t) => Conversion::Value(clone_ty(t)),
            Conversion::Borrow(t) => Conversion::Borrow(clone_ty(t)),
            Conversion::BorrowMut(t) => Conversion::BorrowMut(clone_ty(t)),
        }
    }
}

/// The per-function table from classified generic-parameter identifier to
/// conversion. Built once by the classifier, then consulted read-only.
#[derive(Debug, PartialEq, Eq)]
pub struct ConversionTable {
    pub entries: Vec<(String, Conversion)>,
}

/// The mathematical model of a table: a finite map from identifier to
/// conversion, later entries overriding earlier ones.
pub open spec fn table_map_of(s: Seq<(String, Conversion)>) -> Map<Seq<char>, ConversionV>
    decreases s,
{
    if s.len() == 0 {
        Map::empty()
    } else {
        table_map_of(s.subrange(0, s.len() - 1)).insert(
            s[s.len() - 1].0@,
            conv_dv(s[s.len() - 1].1),
        )
    }
}

/// Each identifier appears at most once among the entries.
pub open spec fn table_keys_unique(s: Seq<(String, Conversion)>) -> bool {
    forall|i: int, j: int| 0 <= i < j < s.len() ==> s[i].0@ != s[j].0@
}

/// A key is in the table's map exactly when some entry carries it.
pub proof fn lemma_table_contains(s: Seq<(String, Conversion)>, k: Seq<char>)
    ensures
        table_map_of(s).dom().contains(k) <==> (exists|i: int|
            0 <= i < s.len() && s[i].0@ == k),
    decreases s.len(),
{
    if s.len() > 0 {
        let sub = s.subrange(0, s.len() - 1);
        lemma_table_contains(sub, k);
        if s[s.len() - 1].0@ == k {
            assert(s[s.len() - 1].0@ == k);
        } else if table_map_of(sub).dom().contains(k) {
            let i = choose|i: int| 0 <= i < sub.len() && sub[i].0@ == k;
            assert(s[i].0@ == k);
        } else if exists|i: int| 0 <= i < s.len() && s[i].0@ == k {
            let i = choose|i: int| 0 <= i < s.len() && s[i].0@ == k;
            assert(sub[i].0@ == k);
        }
    }
}

/// With unique keys, the entry at any index is what the map holds.
pub proof fn lemma_table_value(s: Seq<(String, Conversion)>, i: int)
    requires
        table_keys_unique(s),
        0 <= i < s.len(),
    ensures
        table_map_of(s).dom().contains(s[i].0@),
        table_map_of(s)[s[i].0@] == conv_dv(s[i].1),
    decreases s.len(),
{
    let sub = s.subrange(0, s.len() - 1);
    if i < s.len() - 1 {
        lemma_table_value(sub, i);
        assert(sub[i] == s[i]);
    }
}

/// Replacing the entry that holds a key models as a map insert.
pub proof fn lemma_table_update(s: Seq<(String, Conversion)>, i: int, k: String, c: Conversion)
    requires
        table_keys_unique(s),
        0 <= i < s.len(),
        s[i].0@ == k@,
    ensures
        table_map_of(s.update(i, (k, c))) =~= table_map_of(s).insert(k@, conv_dv(c)),
    decreases s.len(),
{
    let s2 = s.update(i, (k, c));
    let sub = s.subrange(0, s.len() - 1);
    let sub2 = s2.subrange(0, s2.len() - 1);
    if i == s.len() - 1 {
        assert(sub2 =~= sub);
    } else {
        assert(sub2 =~= sub.update(i, (k, c)));
        lemma_table_update(sub, i, k, c);
        assert(s2[s2.len() - 1] == s[s.len() - 1]);
        assert(s[s.len() - 1].0@ != k@);
    }
}

/// Appending an entry models as a map insert.
pub proof fn lemma_table_push(s: Seq<(String, Conversion)>, k: String, c: Conversion)
    ensures
        table_map_of(s.push((k, c))) =~= table_map_of(s).insert(k@, conv_dv(c)),
{
    let s2 = s.push((k, c));
    assert(s2.subrange(0, s2.len() - 1) =~= s);
    assert(s2[s2.len() - 1] == (k, c));
}

impl ConversionTable {
    /// The table's mathematical model.
    pub open spec fn dv(&self) -> Map<Seq<char>, ConversionV> {
        table_map_of(self.entries@)
    }

    /// The table's invariant: identifiers appear at most once.
    pub open spec fn wf(&self) -> bool {
        table_keys_unique(self.entries@)
    }

    /// An empty table.
    pub fn new() -> (t: ConversionTable)
        ensures
            t.wf(),
            t.dv() =~= Map::<Seq<char>, ConversionV>::empty(),
    {
        ConversionTable { entries: Vec::new() }
    }

    /// Records `ident -> c`, overriding any earlier record for `ident`.
    pub fn insert(&mut self, ident: String, c: Conversion)
        requires
            old(self).wf(),
        ensures
            final(self).wf(),
            final(self).dv() == old(self).dv().insert(ident@, conv_dv(c)),
    {
        let n = self.entries.len();
        let mut i: usize = 0;
        while i < n
            invariant
                old(self).wf(),
                n == self.entries.len(),
                i <= n,
                *self == *old(self),
                forall|j: int| 0 <= j < i ==> self.entries@[j].0@ != ident@,
            decreases n - i,
        {
            if self.entries[i].0 == ident {
                proof {
                    lemma_table_update(self.entries@, i as int, ident, c);
                }
                let ghost s0 = self.entries@;
                self.entries.set(i, (ident, c));
                proof {
                    assert forall|p: int, q: int|
                        0 <= p < q < self.entries@.len() implies self.entries@[p].0@
                        != self.entries@[q].0@ by {
                        assert(s0[p].0@ != s0[q].0@);
                    }
                }
                return;
            }
            i += 1;
        }
        proof {
            lemma_table_push(self.entries@, ident, c);
        }
        let ghost s0 = self.entries@;
        self.entries.push((ident, c));
        proof {
            assert forall|p: int, q: int|
                0 <= p < q < self.entries@.len() implies self.entries@[p].0@
                != self.entries@[q].0@ by {
                if q < s0.len() {
                    assert(s0[p].0@ != s0[q].0@);
                } else {
                    assert(s0[p].0@ != ident@);
                }
            }
        }
    }

    /// Looks up the conversion recorded for an identifier.
    pub fn get(&self, ident: &String) -> (r: Option<&Conversion>)
        requires
            self.wf(),
        ensures
            match r {
                Some(c) => self.dv().dom().contains(ident@) && conv_dv(*c) == self.dv()[ident@],
                None => !self.dv().dom().contains(ident@),
            },
    {
        let n = self.entries.len();
        let mut i: usize = 0;
        while i < n
            invariant
                self.wf(),
                n == self.entries.len(),
                i <= n,
                forall|j: int| 0 <= j < i ==> self.entries@[j].0@ != ident@,
            decreases n - i,
        {
            if self.entries[i].0 == *ident {
                proof {
                    lemma_table_value(self.entries@, i as int);
                }
                return Some(&self.entries[i].1);
            }
            i += 1;
        }
        proof {
            lemma_table_contains(self.entries@, ident@);
        }
        None
    }
}

/// The registry of converted parameter identifiers, one ordered list per
/// conversion kind; built while splitting parameters and consumed by the
/// call-site folder.
#[derive(Debug, PartialEq, Eq)]
pub struct Conversions {
    pub intos: Vec<String>,
    pub as_refs: Vec<String>,
    pub as_muts: Vec<String>,
}

/// The ghost counterpart of [`Conversions`].
pub struct ConversionsV {
    pub intos: Seq<Seq<char>>,
    pub as_refs: Seq<Seq<char>>,
    pub as_muts: Seq<Seq<char>>,
}

/// The mathematical model of a list of identifiers.
pub open spec fn strings_dv(s: Seq<String>) -> Seq<Seq<char>> {
    s.map_values(|x: String| x@)
}

/// The mathematical model of a registry.
pub open spec fn registry_dv(c: Conversions) -> ConversionsV {
    ConversionsV {
        intos: strings_dv(c.intos@),
        as_refs: strings_dv(c.as_refs@),
        as_muts: strings_dv(c.as_muts@),
    }
}

/// Registering an identifier appends it to the list of its conversion kind.
pub open spec fn spec_add(r: ConversionsV, ident: Seq<char>, c: ConversionV) -> ConversionsV {
    match c {
        ConversionV::Value(_) => ConversionsV { intos: r.intos.push(ident), ..r },
        ConversionV::Borrow(_) => ConversionsV { as_refs: r.as_refs.push(ident), ..r },
        ConversionV::BorrowMut(_) => ConversionsV { as_muts: r.as_muts.push(ident), ..r },
    }
}

impl Conversions {
    /// An empty registry.
    pub fn new() -> (r: Conversions)
        ensures
            registry_dv(r) == (ConversionsV {
                intos: Seq::<Seq<char>>::empty(),
                as_refs: Seq::<Seq<char>>::empty(),
                as_muts: Seq::<Seq<char>>::empty(),
            }),
    {
        let r = Conversions { intos: Vec::new(), as_refs: Vec::new(), as_muts: Vec::new() };
        proof {
            assert(strings_dv(r.intos@) =~= Seq::<Seq<char>>::empty());
            assert(strings_dv(r.as_refs@) =~= Seq::<Seq<char>>::empty());
            assert(strings_dv(r.as_muts@) =~= Seq::<Seq<char>>::empty());
        }
        r
    }

    /// Registers an identifier under the kind of the given conversion.
    pub fn add(&mut self, ident: String, conv: &Conversion)
        ensures
            registry_dv(*final(self)) == spec_add(registry_dv(*old(self)), ident@, conv_dv(*conv)),
    {
        match conv {
            Conversion::Value(_) => {
                self.intos.push(ident);
                proof {
                    assert(strings_dv(self.intos@) =~= strings_dv(old(self).intos@).push(ident@));
                }
            },
            Conversion::Borrow(_) => {
                self.as_refs.push(ident);
                proof {
                    assert(strings_dv(self.as_refs@) =~= strings_dv(
                        old(self).as_refs@,
                    ).push(ident@));
                }
            },
            Conversion::BorrowMut(_) => {
                self.as_muts.push(ident);
                proof {
                    assert(strings_dv(self.as_muts@) =~= strings_dv(
                        old(self).as_muts@,
                    ).push(ident@));
                }
            },
        }
    }
}

} // verus!
