//! Lossless value tree of the broker tape. Floating-point values are kept as
//! their bit patterns and map keys keep their own type.
use vstd::prelude::*;

verus! {

/// One recorded value. Variants: unit, boolean, signed and unsigned integer,
/// the bits of an `f32` and of an `f64`, text, bytes, an optional value that
/// is present or absent, a sequence, a map as key/value pairs, and an enum
/// variant with its name and payload.
#[derive(Debug)]
pub enum Exact {
    Unit,
    Bool(bool),
    I(i64),
    U(u64),
    F32(u32),
    F64(u64),
    Str(String),
    Bytes(Vec<u8>),
    Present(Box<Exact>),
    Absent,
    Sequence(Vec<Exact>),
    Mapping(Vec<(Exact, Exact)>),
    Enum(String, Box<Exact>),
}

/// An encoding or decoding failure, with its message.
#[derive(Debug)]
pub struct Error(pub String);

/// Estimated memory of a value: the size of the node plus the bytes of its
/// text and payloads, recursively.
pub open spec fn bajty(e: Exact) -> nat
    decreases e,
{
    vstd::layout::size_of::<Exact>() + match e {
        Exact::Str(v) => crate::tekst::dlugosc_utf8(v@),
        Exact::Bytes(v) => v@.len(),
        Exact::Present(v) => bajty(*v),
        Exact::Enum(n, v) => crate::tekst::dlugosc_utf8(n@) + bajty(*v),
        Exact::Sequence(v) => bajty_ciagu(v@),
        Exact::Mapping(v) => bajty_par(v@),
        _ => 0,
    }
}

pub open spec fn bajty_ciagu(s: Seq<Exact>) -> nat
    decreases s,
{
    if s.len() == 0 {
        0
    } else {
        bajty_ciagu(s.drop_last()) + bajty(s.last())
    }
}

pub open spec fn bajty_par(s: Seq<(Exact, Exact)>) -> nat
    decreases s,
{
    if s.len() == 0 {
        0
    } else {
        bajty_par(s.drop_last()) + bajty(s.last().0) + bajty(s.last().1)
    }
}

proof fn lemma_bajty_ciagu_rosna(s: Seq<Exact>, k: int)
    requires
        0 <= k <= s.len(),
    ensures
        bajty_ciagu(s.take(k)) <= bajty_ciagu(s),
    decreases s.len() - k,
{
    if k < s.len() {
        lemma_bajty_ciagu_rosna(s, k + 1);
        assert(s.take(k + 1).drop_last() =~= s.take(k));
    } else {
        assert(s.take(k) =~= s);
    }
}

proof fn lemma_bajty_par_rosna(s: Seq<(Exact, Exact)>, k: int)
    requires
        0 <= k <= s.len(),
    ensures
        bajty_par(s.take(k)) <= bajty_par(s),
    decreases s.len() - k,
{
    if k < s.len() {
        lemma_bajty_par_rosna(s, k + 1);
        assert(s.take(k + 1).drop_last() =~= s.take(k));
    } else {
        assert(s.take(k) =~= s);
    }
}

impl Exact {
    /// Estimated memory of the value (see `bajty`).
    pub fn estimated_bytes(&self) -> (r: usize)
        requires
            bajty(*self) <= usize::MAX,
        ensures
            r == bajty(*self),
        decreases *self,
    {
        let n = core::mem::size_of::<Exact>();
        let extra: usize = match self {
            Exact::Str(v) => crate::tekst::dlugosc_bajtow(v.as_str()),
            Exact::Bytes(v) => v.len(),
            Exact::Present(v) => (**v).estimated_bytes(),
            Exact::Enum(nazwa, v) => crate::tekst::dlugosc_bajtow(nazwa.as_str()) + (**v).estimated_bytes(),
            Exact::Sequence(v) => {
                let mut suma: usize = 0;
                let mut k: usize = 0;
                while k < v.len()
                    invariant
                        k <= v@.len(),
                        *self == Exact::Sequence(*v),
                        suma == bajty_ciagu(v@.take(k as int)),
                        bajty_ciagu(v@) <= usize::MAX,
                    decreases v@.len() - k,
                {
                    proof {
                        assert(v@.take(k + 1).drop_last() =~= v@.take(k as int));
                        lemma_bajty_ciagu_rosna(v@, k + 1);
                        vstd::std_specs::vec::axiom_vec_index_decreases(*v, k as int);
                        assert(decreases_to!(*self => (*self)->Sequence_0));
                    }
                    suma = suma + v[k].estimated_bytes();
                    k = k + 1;
                }
                assert(v@.take(k as int) =~= v@);
                suma
            },
            Exact::Mapping(v) => {
                let mut suma: usize = 0;
                let mut k: usize = 0;
                while k < v.len()
                    invariant
                        k <= v@.len(),
                        *self == Exact::Mapping(*v),
                        suma == bajty_par(v@.take(k as int)),
                        bajty_par(v@) <= usize::MAX,
                    decreases v@.len() - k,
                {
                    proof {
                        assert(v@.take(k + 1).drop_last() =~= v@.take(k as int));
                        lemma_bajty_par_rosna(v@, k + 1);
                        vstd::std_specs::vec::axiom_vec_index_decreases(*v, k as int);
                        assert(decreases_to!(*self => (*self)->Mapping_0));
                        assert(decreases_to!(v[k as int] => v[k as int].0));
                        assert(decreases_to!(v[k as int] => v[k as int].1));
                    }
                    suma = suma + v[k].0.estimated_bytes() + v[k].1.estimated_bytes();
                    k = k + 1;
                }
                assert(v@.take(k as int) =~= v@);
                suma
            },
            _ => 0,
        };
        n + extra
    }
}

/// Two values are the same tree: same variants, same scalars and bits, same
/// texts and bytes, and the same children in the same order.
pub open spec fn zgodne(a: Exact, b: Exact) -> bool
    decreases a,
{
    match a {
        Exact::Unit => b is Unit,
        Exact::Bool(x) => b matches Exact::Bool(y) && x == y,
        Exact::I(x) => b matches Exact::I(y) && x == y,
        Exact::U(x) => b matches Exact::U(y) && x == y,
        Exact::F32(x) => b matches Exact::F32(y) && x == y,
        Exact::F64(x) => b matches Exact::F64(y) && x == y,
        Exact::Str(x) => b matches Exact::Str(y) && x@ == y@,
        Exact::Bytes(x) => b matches Exact::Bytes(y) && x@ == y@,
        Exact::Present(x) => b matches Exact::Present(y) && zgodne(*x, *y),
        Exact::Absent => b is Absent,
        Exact::Sequence(x) => b matches Exact::Sequence(y) && zgodne_ciagi(x@, y@),
        Exact::Mapping(x) => b matches Exact::Mapping(y) && zgodne_pary(x@, y@),
        Exact::Enum(n, x) => b matches Exact::Enum(m, y) && n@ == m@ && zgodne(*x, *y),
    }
}

pub open spec fn zgodne_ciagi(x: Seq<Exact>, y: Seq<Exact>) -> bool
    decreases x,
{
    x.len() == y.len() && (x.len() == 0 || (zgodne_ciagi(x.drop_last(), y.drop_last()) && zgodne(x.last(), y.last())))
}

pub open spec fn zgodne_pary(x: Seq<(Exact, Exact)>, y: Seq<(Exact, Exact)>) -> bool
    decreases x,
{
    x.len() == y.len() && (x.len() == 0 || (zgodne_pary(x.drop_last(), y.drop_last()) && zgodne(x.last().0, y.last().0)
        && zgodne(x.last().1, y.last().1)))
}

impl Exact {
    /// Whether two values are the same tree (see `zgodne`).
    pub fn rowne(&self, o: &Exact) -> (r: bool)
        ensures
            r == zgodne(*self, *o),
        decreases *self,
    {
        match (self, o) {
            (Exact::Unit, Exact::Unit) => true,
            (Exact::Bool(x), Exact::Bool(y)) => *x == *y,
            (Exact::I(x), Exact::I(y)) => *x == *y,
            (Exact::U(x), Exact::U(y)) => *x == *y,
            (Exact::F32(x), Exact::F32(y)) => *x == *y,
            (Exact::F64(x), Exact::F64(y)) => *x == *y,
            (Exact::Str(x), Exact::Str(y)) => *x == *y,
            (Exact::Bytes(x), Exact::Bytes(y)) => {
                if x.len() != y.len() {
                    return false;
                }
                let mut k: usize = 0;
                while k < x.len()
                    invariant
                        k <= x@.len(),
                        x@.len() == y@.len(),
                        *self == Exact::Bytes(*x),
                        *o == Exact::Bytes(*y),
                        forall|j: int| 0 <= j < k ==> x@[j] == y@[j],
                    decreases x@.len() - k,
                {
                    if x[k] != y[k] {
                        return false;
                    }
                    k = k + 1;
                }
                assert(x@ =~= y@);
                true
            },
            (Exact::Present(x), Exact::Present(y)) => {
                proof {
                    assert(decreases_to!(*self => (*self)->Present_0));
                }
                (**x).rowne(&**y)
            },
            (Exact::Absent, Exact::Absent) => true,
            (Exact::Sequence(x), Exact::Sequence(y)) => {
                if x.len() != y.len() {
                    assert(!zgodne_ciagi(x@, y@));
                    return false;
                }
                let mut k: usize = 0;
                while k < x.len()
                    invariant
                        k <= x@.len(),
                        x@.len() == y@.len(),
                        *self == Exact::Sequence(*x),
                        *o == Exact::Sequence(*y),
                        zgodne_ciagi(x@.take(k as int), y@.take(k as int)),
                    decreases x@.len() - k,
                {
                    proof {
                        assert(x@.take(k + 1).drop_last() =~= x@.take(k as int));
                        assert(y@.take(k + 1).drop_last() =~= y@.take(k as int));
                        vstd::std_specs::vec::axiom_vec_index_decreases(*x, k as int);
                        assert(decreases_to!(*self => (*self)->Sequence_0));
                    }
                    if !x[k].rowne(&y[k]) {
                        proof {
                            lemma_ciagi_prefiks(x@, y@, k + 1);
                        }
                        return false;
                    }
                    k = k + 1;
                }
                assert(x@.take(k as int) =~= x@);
                assert(y@.take(k as int) =~= y@);
                true
            },
            (Exact::Mapping(x), Exact::Mapping(y)) => {
                if x.len() != y.len() {
                    assert(!zgodne_pary(x@, y@));
                    return false;
                }
                let mut k: usize = 0;
                while k < x.len()
                    invariant
                        k <= x@.len(),
                        x@.len() == y@.len(),
                        *self == Exact::Mapping(*x),
                        *o == Exact::Mapping(*y),
                        zgodne_pary(x@.take(k as int), y@.take(k as int)),
                    decreases x@.len() - k,
                {
                    proof {
                        assert(x@.take(k + 1).drop_last() =~= x@.take(k as int));
                        assert(y@.take(k + 1).drop_last() =~= y@.take(k as int));
                        vstd::std_specs::vec::axiom_vec_index_decreases(*x, k as int);
                        assert(decreases_to!(*self => (*self)->Mapping_0));
                        assert(decreases_to!(x[k as int] => x[k as int].0));
                        assert(decreases_to!(x[k as int] => x[k as int].1));
                    }
                    if !x[k].0.rowne(&y[k].0) || !x[k].1.rowne(&y[k].1) {
                        proof {
                            lemma_pary_prefiks(x@, y@, k + 1);
                        }
                        return false;
                    }
                    k = k + 1;
                }
                assert(x@.take(k as int) =~= x@);
                assert(y@.take(k as int) =~= y@);
                true
            },
            (Exact::Enum(n, x), Exact::Enum(m, y)) => {
                if *n != *m {
                    return false;
                }
                proof {
                    assert(decreases_to!(*self => (*self)->Enum_1));
                }
                (**x).rowne(&**y)
            },
            _ => false,
        }
    }
}

proof fn lemma_ciagi_prefiks(x: Seq<Exact>, y: Seq<Exact>, k: int)
    requires
        0 < k <= x.len(),
        x.len() == y.len(),
        !zgodne(x[k - 1], y[k - 1]),
    ensures
        !zgodne_ciagi(x, y),
    decreases x.len() - k,
{
    if k < x.len() {
        lemma_ciagi_prefiks(x.drop_last(), y.drop_last(), k);
    }
}

proof fn lemma_pary_prefiks(x: Seq<(Exact, Exact)>, y: Seq<(Exact, Exact)>, k: int)
    requires
        0 < k <= x.len(),
        x.len() == y.len(),
        !(zgodne(x[k - 1].0, y[k - 1].0) && zgodne(x[k - 1].1, y[k - 1].1)),
    ensures
        !zgodne_pary(x, y),
    decreases x.len() - k,
{
    if k < x.len() {
        lemma_pary_prefiks(x.drop_last(), y.drop_last(), k);
    }
}

/// Every value is the same tree as itself.
pub proof fn zgodne_zwrotne(a: Exact)
    ensures
        zgodne(a, a),
    decreases a,
{
    match a {
        Exact::Present(x) => {
            zgodne_zwrotne(*x);
        },
        Exact::Enum(_, x) => {
            zgodne_zwrotne(*x);
        },
        Exact::Sequence(x) => {
            zgodne_ciagi_zwrotne(x@);
        },
        Exact::Mapping(x) => {
            zgodne_pary_zwrotne(x@);
        },
        _ => {},
    }
}

proof fn zgodne_ciagi_zwrotne(x: Seq<Exact>)
    ensures
        zgodne_ciagi(x, x),
    decreases x,
{
    if x.len() > 0 {
        zgodne_ciagi_zwrotne(x.drop_last());
        zgodne_zwrotne(x.last());
    }
}

proof fn zgodne_pary_zwrotne(x: Seq<(Exact, Exact)>)
    ensures
        zgodne_pary(x, x),
    decreases x,
{
    if x.len() > 0 {
        zgodne_pary_zwrotne(x.drop_last());
        zgodne_zwrotne(x.last().0);
        zgodne_zwrotne(x.last().1);
    }
}

/// Being the same tree is symmetric.
pub proof fn zgodne_symetryczne(a: Exact, b: Exact)
    requires
        zgodne(a, b),
    ensures
        zgodne(b, a),
    decreases a,
{
    match a {
        Exact::Present(x) => {
            if let Exact::Present(y) = b {
                zgodne_symetryczne(*x, *y);
            }
        },
        Exact::Enum(_, x) => {
            if let Exact::Enum(_, y) = b {
                zgodne_symetryczne(*x, *y);
            }
        },
        Exact::Sequence(x) => {
            if let Exact::Sequence(y) = b {
                zgodne_ciagi_symetryczne(x@, y@);
            }
        },
        Exact::Mapping(x) => {
            if let Exact::Mapping(y) = b {
                zgodne_pary_symetryczne(x@, y@);
            }
        },
        _ => {},
    }
}

proof fn zgodne_ciagi_symetryczne(x: Seq<Exact>, y: Seq<Exact>)
    requires
        zgodne_ciagi(x, y),
    ensures
        zgodne_ciagi(y, x),
    decreases x,
{
    if x.len() > 0 {
        zgodne_ciagi_symetryczne(x.drop_last(), y.drop_last());
        zgodne_symetryczne(x.last(), y.last());
    }
}

proof fn zgodne_pary_symetryczne(x: Seq<(Exact, Exact)>, y: Seq<(Exact, Exact)>)
    requires
        zgodne_pary(x, y),
    ensures
        zgodne_pary(y, x),
    decreases x,
{
    if x.len() > 0 {
        zgodne_pary_symetryczne(x.drop_last(), y.drop_last());
        zgodne_symetryczne(x.last().0, y.last().0);
        zgodne_symetryczne(x.last().1, y.last().1);
    }
}

/// The content of a value as a mathematical tree: texts and byte strings by
/// their contents, children by their trees, in order.
pub enum Drzewo {
    Unit,
    Bool(bool),
    I(i64),
    U(u64),
    F32(u32),
    F64(u64),
    Str(Seq<char>),
    Bytes(Seq<u8>),
    Present(Box<Drzewo>),
    Absent,
    Sequence(Seq<Drzewo>),
    Mapping(Seq<(Drzewo, Drzewo)>),
    Enum(Seq<char>, Box<Drzewo>),
}

/// The tree that a value holds.
pub open spec fn drzewo(e: Exact) -> Drzewo
    decreases e,
{
    match e {
        Exact::Unit => Drzewo::Unit,
        Exact::Bool(x) => Drzewo::Bool(x),
        Exact::I(x) => Drzewo::I(x),
        Exact::U(x) => Drzewo::U(x),
        Exact::F32(x) => Drzewo::F32(x),
        Exact::F64(x) => Drzewo::F64(x),
        Exact::Str(x) => Drzewo::Str(x@),
        Exact::Bytes(x) => Drzewo::Bytes(x@),
        Exact::Present(x) => Drzewo::Present(Box::new(drzewo(*x))),
        Exact::Absent => Drzewo::Absent,
        Exact::Sequence(x) => Drzewo::Sequence(drzewa(x@)),
        Exact::Mapping(x) => Drzewo::Mapping(drzewa_par(x@)),
        Exact::Enum(n, x) => Drzewo::Enum(n@, Box::new(drzewo(*x))),
    }
}

/// The trees of a sequence of values, in order.
pub open spec fn drzewa(s: Seq<Exact>) -> Seq<Drzewo>
    decreases s,
{
    if s.len() == 0 {
        Seq::empty()
    } else {
        drzewa(s.drop_last()).push(drzewo(s.last()))
    }
}

/// The trees of a sequence of key/value pairs, in order.
pub open spec fn drzewa_par(s: Seq<(Exact, Exact)>) -> Seq<(Drzewo, Drzewo)>
    decreases s,
{
    if s.len() == 0 {
        Seq::empty()
    } else {
        drzewa_par(s.drop_last()).push((drzewo(s.last().0), drzewo(s.last().1)))
    }
}

/// Values that `rowne` takes for one are one value: the same variant with the
/// same contents all the way down. In particular two enum values with
/// different variant names, or two texts that differ, are never merged.
pub proof fn zgodne_to_ta_sama_wartosc(a: Exact, b: Exact)
    requires
        zgodne(a, b),
    ensures
        drzewo(a) == drzewo(b),
    decreases a,
{
    match a {
        Exact::Present(x) => {
            if let Exact::Present(y) = b {
                zgodne_to_ta_sama_wartosc(*x, *y);
            }
        },
        Exact::Enum(_, x) => {
            if let Exact::Enum(_, y) = b {
                zgodne_to_ta_sama_wartosc(*x, *y);
            }
        },
        Exact::Sequence(x) => {
            if let Exact::Sequence(y) = b {
                ciagi_ta_sama_wartosc(x@, y@);
            }
        },
        Exact::Mapping(x) => {
            if let Exact::Mapping(y) = b {
                pary_ta_sama_wartosc(x@, y@);
            }
        },
        _ => {},
    }
}

proof fn ciagi_ta_sama_wartosc(x: Seq<Exact>, y: Seq<Exact>)
    requires
        zgodne_ciagi(x, y),
    ensures
        drzewa(x) == drzewa(y),
    decreases x,
{
    if x.len() > 0 {
        ciagi_ta_sama_wartosc(x.drop_last(), y.drop_last());
        zgodne_to_ta_sama_wartosc(x.last(), y.last());
    }
}

proof fn pary_ta_sama_wartosc(x: Seq<(Exact, Exact)>, y: Seq<(Exact, Exact)>)
    requires
        zgodne_pary(x, y),
    ensures
        drzewa_par(x) == drzewa_par(y),
    decreases x,
{
    if x.len() > 0 {
        pary_ta_sama_wartosc(x.drop_last(), y.drop_last());
        zgodne_to_ta_sama_wartosc(x.last().0, y.last().0);
        zgodne_to_ta_sama_wartosc(x.last().1, y.last().1);
    }
}

proof fn lemma_drzewa_dlugosc(s: Seq<Exact>)
    ensures
        drzewa(s).len() == s.len(),
    decreases s,
{
    if s.len() > 0 {
        lemma_drzewa_dlugosc(s.drop_last());
    }
}

proof fn lemma_drzewa_par_dlugosc(s: Seq<(Exact, Exact)>)
    ensures
        drzewa_par(s).len() == s.len(),
    decreases s,
{
    if s.len() > 0 {
        lemma_drzewa_par_dlugosc(s.drop_last());
    }
}

/// Values with the same tree are taken for one: `rowne` answers exactly
/// whether two values hold the same tree.
pub proof fn ta_sama_wartosc_to_zgodne(a: Exact, b: Exact)
    requires
        drzewo(a) == drzewo(b),
    ensures
        zgodne(a, b),
    decreases a,
{
    match a {
        Exact::Present(x) => {
            if let Exact::Present(y) = b {
                ta_sama_wartosc_to_zgodne(*x, *y);
            }
        },
        Exact::Enum(_, x) => {
            if let Exact::Enum(_, y) = b {
                ta_sama_wartosc_to_zgodne(*x, *y);
            }
        },
        Exact::Sequence(x) => {
            if let Exact::Sequence(y) = b {
                ciagi_zgodne_z_wartosci(x@, y@);
            }
        },
        Exact::Mapping(x) => {
            if let Exact::Mapping(y) = b {
                pary_zgodne_z_wartosci(x@, y@);
            }
        },
        _ => {},
    }
}

proof fn ciagi_zgodne_z_wartosci(x: Seq<Exact>, y: Seq<Exact>)
    requires
        drzewa(x) == drzewa(y),
    ensures
        zgodne_ciagi(x, y),
    decreases x,
{
    lemma_drzewa_dlugosc(x);
    lemma_drzewa_dlugosc(y);
    if x.len() > 0 {
        let dx = drzewa(x);
        assert(dx.drop_last() =~= drzewa(x.drop_last()));
        assert(drzewa(y).drop_last() =~= drzewa(y.drop_last()));
        assert(dx.last() == drzewo(x.last()));
        assert(drzewa(y).last() == drzewo(y.last()));
        ciagi_zgodne_z_wartosci(x.drop_last(), y.drop_last());
        ta_sama_wartosc_to_zgodne(x.last(), y.last());
    }
}

proof fn pary_zgodne_z_wartosci(x: Seq<(Exact, Exact)>, y: Seq<(Exact, Exact)>)
    requires
        drzewa_par(x) == drzewa_par(y),
    ensures
        zgodne_pary(x, y),
    decreases x,
{
    lemma_drzewa_par_dlugosc(x);
    lemma_drzewa_par_dlugosc(y);
    if x.len() > 0 {
        let dx = drzewa_par(x);
        assert(dx.drop_last() =~= drzewa_par(x.drop_last()));
        assert(drzewa_par(y).drop_last() =~= drzewa_par(y.drop_last()));
        assert(dx.last() == (drzewo(x.last().0), drzewo(x.last().1)));
        assert(drzewa_par(y).last() == (drzewo(y.last().0), drzewo(y.last().1)));
        pary_zgodne_z_wartosci(x.drop_last(), y.drop_last());
        ta_sama_wartosc_to_zgodne(x.last().0, y.last().0);
        ta_sama_wartosc_to_zgodne(x.last().1, y.last().1);
    }
}

/// Two enum values are taken for one only where their variant names are the
/// same text.
pub proof fn rowne_warianty_maja_te_sama_nazwe(a: Exact, b: Exact)
    requires
        zgodne(a, b),
        a is Enum,
        b is Enum,
    ensures
        a->Enum_0@ == b->Enum_0@,
{
    zgodne_to_ta_sama_wartosc(a, b);
}

} // verus!
