//! The interning registry used by the compaction pass.
//!
//! A registry holds two ordered tables: one of distinct strings and one
//! of distinct type descriptors.  Registering a value returns its
//! one-based index; a value that is already present keeps the index of
//! its first registration, so indices are assigned in first-seen order
//! with no gaps.

use vstd::prelude::*;

verus! {

/// Holds when no entry of `tbl` occurs twice.
pub open spec fn nodup<T>(tbl: Seq<T>) -> bool {
    forall|i: int, j: int| 0 <= i < j < tbl.len() ==> tbl[i] != tbl[j]
}

/// The table after interning `x`: unchanged when `x` is already
/// present, extended by `x` at the end otherwise.
pub open spec fn intern_at<T>(tbl: Seq<T>, x: T) -> Seq<T> {
    if tbl.contains(x) {
        tbl
    } else {
        tbl.push(x)
    }
}

/// The zero-based position `x` occupies once interned into `tbl`.
pub open spec fn interned_pos<T>(tbl: Seq<T>, x: T) -> int {
    intern_at(tbl, x).index_of(x)
}

/// What interning does to a duplicate-free table: the table stays
/// duplicate-free, existing entries keep their positions, and the
/// interned value sits at exactly one position.
pub proof fn lemma_intern_at<T>(tbl: Seq<T>, x: T)
    requires
        nodup(tbl),
    ensures
        nodup(intern_at(tbl, x)),
        intern_at(tbl, x).contains(x),
        tbl.len() <= intern_at(tbl, x).len() <= tbl.len() + 1,
        forall|j: int| 0 <= j < tbl.len() ==> intern_at(tbl, x)[j] == tbl[j],
        0 <= interned_pos(tbl, x) < intern_at(tbl, x).len(),
        intern_at(tbl, x)[interned_pos(tbl, x)] == x,
        forall|j: int|
            0 <= j < intern_at(tbl, x).len() && j != interned_pos(tbl, x) ==> intern_at(
                tbl,
                x,
            )[j] != x,
        tbl.contains(x) ==> intern_at(tbl, x) == tbl,
        !tbl.contains(x) ==> intern_at(tbl, x) == tbl.push(x) && interned_pos(tbl, x)
            == tbl.len(),
{
    let tbl1 = intern_at(tbl, x);
    if tbl.contains(x) {
        assert(tbl1 == tbl);
        let w = choose|i: int| 0 <= i < tbl.len() && tbl[i] == x;
        assert(0 <= tbl1.index_of(x) < tbl1.len() && tbl1[tbl1.index_of(x)] == x);
    } else {
        assert(forall|i: int| 0 <= i < tbl.len() ==> tbl[i] != x);
        assert(tbl1[tbl.len() as int] == x);
        assert(tbl1.contains(x));
        assert(nodup(tbl1));
        assert(0 <= tbl1.index_of(x) < tbl1.len() && tbl1[tbl1.index_of(x)] == x);
        assert(tbl1.index_of(x) == tbl.len());
    }
}

/// A structural descriptor of a type: the path segments of its
/// canonical name together with the descriptors of its generic
/// parameters, in order.  Two descriptors denote the same type exactly
/// when they are structurally equal; display-name aliases are not part
/// of a descriptor.
pub struct TypeDescriptor {
    /// Path segments of the type's canonical name.
    pub segments: Vec<String>,
    /// Descriptors of the generic type parameters, in order.
    pub params: Vec<TypeDescriptor>,
}

/// The mathematical value of a `TypeDescriptor`.
#[verifier::ext_equal]
pub struct TypeModel {
    pub segments: Seq<Seq<char>>,
    pub params: Seq<TypeModel>,
}

impl TypeDescriptor {
    /// The mathematical value of this descriptor.
    pub open spec fn model(self) -> TypeModel
        decreases self, 1int,
    {
        proof {
            assert(decreases_to!(self => self.params));
            assert(decreases_to!(self.params => self.params@));
        }
        TypeModel { segments: self.segments.deep_view(), params: Self::models_of(self.params@) }
    }

    /// The mathematical values of a sequence of descriptors, in order.
    pub open spec fn models_of(ps: Seq<TypeDescriptor>) -> Seq<TypeModel>
        decreases ps, 0int,
    {
        if ps.len() == 0 {
            Seq::empty()
        } else {
            Self::models_of(ps.subrange(0, ps.len() - 1)).push(ps[ps.len() - 1].model())
        }
    }

    /// The descriptor of the unit type, used as the default parameter
    /// type before a builder sets one.
    pub fn unit() -> (r: Self)
        ensures
            r@.segments == Seq::<Seq<char>>::empty(),
            r@.params == Seq::<TypeModel>::empty(),
    {
        let r = TypeDescriptor { segments: Vec::new(), params: Vec::new() };
        proof {
            assert(r@.segments =~= Seq::<Seq<char>>::empty());
            assert(r@.params =~= Seq::<TypeModel>::empty());
        }
        r
    }

    /// Returns a structurally identical copy of this descriptor.
    pub fn duplicate(&self) -> (r: TypeDescriptor)
        ensures
            r@ == self@,
        decreases *self,
    {
        let segments = clone_strings(&self.segments);
        let mut params: Vec<TypeDescriptor> = Vec::new();
        let mut i: usize = 0;
        while i < self.params.len()
            invariant
                i <= self.params.len(),
                params@.len() == i,
                forall|j: int| 0 <= j < i ==> params@[j]@ == self.params@[j]@,
            decreases self.params.len() - i,
        {
            proof {
                assert(decreases_to!(*self => self.params));
                assert(decreases_to!(self.params => self.params@));
                assert(decreases_to!(self.params@ => self.params@[i as int]));
            }
            params.push(self.params[i].duplicate());
            i += 1;
        }
        let r = TypeDescriptor { segments, params };
        proof {
            lemma_models_of(r.params@);
            lemma_models_of(self.params@);
            assert(r@.params =~= self@.params);
            assert(r@ =~= self@);
        }
        r
    }
}

impl View for TypeDescriptor {
    type V = TypeModel;

    open spec fn view(&self) -> TypeModel {
        self.model()
    }
}

/// The model of a descriptor sequence is the sequence of the models.
pub broadcast proof fn lemma_models_of(ps: Seq<TypeDescriptor>)
    ensures
        (#[trigger] TypeDescriptor::models_of(ps)).len() == ps.len(),
        forall|i: int| 0 <= i < ps.len() ==> TypeDescriptor::models_of(ps)[i] == ps[i]@,
    decreases ps.len(),
{
    if ps.len() > 0 {
        let pre = ps.subrange(0, ps.len() - 1);
        lemma_models_of(pre);
        assert(forall|i: int| 0 <= i < pre.len() ==> pre[i] == ps[i]);
    }
}

/// Returns a copy of a string vector with equal contents.
pub(crate) fn clone_strings(v: &Vec<String>) -> (r: Vec<String>)
    ensures
        r@ == v@,
{
    let mut r: Vec<String> = Vec::new();
    let mut i: usize = 0;
    while i < v.len()
        invariant
            i <= v.len(),
            r@.len() == i,
            forall|j: int| 0 <= j < i ==> r@[j] == v@[j],
        decreases v.len() - i,
    {
        r.push(v[i].clone());
        i += 1;
    }
    proof {
        assert(r@ =~= v@);
    }
    r
}

/// Compares two string vectors for equality of their character
/// sequences.
fn str_vec_eq(a: &Vec<String>, b: &Vec<String>) -> (r: bool)
    ensures
        r == (a.deep_view() == b.deep_view()),
{
    proof {
        assert(a.deep_view().len() == a@.len());
        assert(b.deep_view().len() == b@.len());
    }
    if a.len() != b.len() {
        return false;
    }
    let mut i: usize = 0;
    while i < a.len()
        invariant
            i <= a.len(),
            a@.len() == b@.len(),
            forall|j: int| 0 <= j < i ==> a.deep_view()[j] == b.deep_view()[j],
        decreases a.len() - i,
    {
        proof {
            assert(a.deep_view()[i as int] == a@[i as int]@);
            assert(b.deep_view()[i as int] == b@[i as int]@);
        }
        if !(a[i] == b[i]) {
            return false;
        }
        i += 1;
    }
    proof {
        assert(a.deep_view() =~= b.deep_view());
    }
    true
}

/// Deep structural equality of two type descriptors.
fn td_eq(a: &TypeDescriptor, b: &TypeDescriptor) -> (r: bool)
    ensures
        r == (a@ == b@),
    decreases *a,
{
    proof {
        lemma_models_of(a.params@);
        lemma_models_of(b.params@);
        assert(a@.segments == a.segments.deep_view());
        assert(b@.segments == b.segments.deep_view());
        assert(a@.params == TypeDescriptor::models_of(a.params@));
        assert(b@.params == TypeDescriptor::models_of(b.params@));
    }
    if !str_vec_eq(&a.segments, &b.segments) {
        return false;
    }
    if a.params.len() != b.params.len() {
        return false;
    }
    let mut i: usize = 0;
    while i < a.params.len()
        invariant
            i <= a.params.len(),
            a.params@.len() == b.params@.len(),
            a@.segments == b@.segments,
            a@.params.len() == a.params@.len(),
            b@.params.len() == b.params@.len(),
            forall|j: int| 0 <= j < i ==> a@.params[j] == b@.params[j],
        decreases a.params.len() - i,
    {
        proof {
            lemma_models_of(a.params@);
            lemma_models_of(b.params@);
            assert(decreases_to!(*a => a.params));
            assert(decreases_to!(a.params => a.params@));
            assert(decreases_to!(a.params@ => a.params@[i as int]));
        }
        if !td_eq(&a.params[i], &b.params[i]) {
            proof {
                assert(a@.params[i as int] == a.params@[i as int]@);
                assert(b@.params[i as int] == b.params@[i as int]@);
                assert(a@.params[i as int] != b@.params[i as int]);
                assert(a@ != b@);
            }
            return false;
        }
        i += 1;
    }
    proof {
        lemma_models_of(a.params@);
        lemma_models_of(b.params@);
        assert(a@.params =~= b@.params);
        assert(a@ =~= b@);
    }
    true
}

/// The interning registry: ordered tables of distinct strings and
/// distinct type descriptors.
pub struct Registry {
    /// The interned strings, in first-seen order.
    pub strings: Vec<String>,
    /// The interned type descriptors, in first-seen order.
    pub types: Vec<TypeDescriptor>,
}

/// The mathematical value of a `Registry`: both tables as sequences.
#[verifier::ext_equal]
pub struct RegistryModel {
    pub strings: Seq<Seq<char>>,
    pub types: Seq<TypeModel>,
}

impl RegistryModel {
    /// Both interning tables hold pairwise-distinct entries.
    pub open spec fn wf(self) -> bool {
        nodup(self.strings) && nodup(self.types)
    }
}

impl View for Registry {
    type V = RegistryModel;

    open spec fn view(&self) -> RegistryModel {
        RegistryModel {
            strings: self.strings.deep_view(),
            types: Seq::new(self.types@.len(), |i: int| self.types@[i]@),
        }
    }
}

/// The types table after registering `t`: first `t` itself, then its
/// parameter descriptors, depth-first and in declaration order.
pub open spec fn register_type_model(tbl: Seq<TypeModel>, t: TypeModel) -> Seq<TypeModel>
    decreases t, 0int,
{
    register_type_list(intern_at(tbl, t), t.params)
}

/// The types table after registering every descriptor of `ts`, in
/// order.
pub open spec fn register_type_list(tbl: Seq<TypeModel>, ts: Seq<TypeModel>) -> Seq<TypeModel>
    decreases ts, 1int,
{
    if ts.len() == 0 {
        tbl
    } else {
        register_type_model(
            register_type_list(tbl, ts.subrange(0, ts.len() - 1)),
            ts[ts.len() - 1],
        )
    }
}

/// Finds the first entry of `types` that is structurally equal to `t`.
fn find_type(types: &Vec<TypeDescriptor>, t: &TypeDescriptor) -> (r: Option<usize>)
    ensures
        match r {
            Some(i) => {
                &&& (i as int) < types@.len()
                &&& types@[i as int]@ == t@
                &&& forall|j: int| 0 <= j < i ==> types@[j]@ != t@
            },
            None => forall|j: int| 0 <= j < types@.len() ==> types@[j]@ != t@,
        },
{
    let mut i: usize = 0;
    while i < types.len()
        invariant
            i <= types.len(),
            forall|j: int| 0 <= j < i ==> types@[j]@ != t@,
        decreases types.len() - i,
    {
        if td_eq(&types[i], t) {
            return Some(i);
        }
        i += 1;
    }
    None
}

impl Registry {
    /// Creates an empty registry.
    pub fn new() -> (r: Registry)
        ensures
            r@.strings == Seq::<Seq<char>>::empty(),
            r@.types == Seq::<TypeModel>::empty(),
            r@.wf(),
    {
        let r = Registry { strings: Vec::new(), types: Vec::new() };
        proof {
            assert(r@.strings =~= Seq::<Seq<char>>::empty());
            assert(r@.types =~= Seq::<TypeModel>::empty());
        }
        r
    }

    /// Interns `s`, returning its one-based index in the string table.
    ///
    /// A string that is already present keeps the index of its first
    /// registration and leaves the registry unchanged; a fresh string
    /// is appended and receives the next index.
    pub fn register_string(&mut self, s: String) -> (idx: usize)
        requires
            old(self)@.wf(),
        ensures
            final(self)@.wf(),
            final(self)@.strings == intern_at(old(self)@.strings, s@),
            final(self)@.types == old(self)@.types,
            idx >= 1,
            idx - 1 == interned_pos(old(self)@.strings, s@),
            (idx - 1) < final(self)@.strings.len(),
            final(self)@.strings[idx - 1] == s@,
            forall|j: int|
                0 <= j < final(self)@.strings.len() && j != idx - 1
                    ==> final(self)@.strings[j] != s@,
            old(self)@.strings.contains(s@) ==> *final(self) == *old(self),
    {
        proof {
            lemma_intern_at(self@.strings, s@);
        }
        let ghost sv = s@;
        let n = self.strings.len();
        let mut i: usize = 0;
        while i < n
            invariant
                i <= n,
                *self == *old(self),
                n == self.strings.len(),
                old(self)@.wf(),
                forall|j: int| 0 <= j < i ==> self@.strings[j] != sv,
                sv == s@,
            decreases n - i,
        {
            if self.strings[i] == s {
                proof {
                    assert(self@.strings[i as int] == sv);
                    assert(self@.strings.contains(sv));
                    lemma_intern_at(self@.strings, sv);
                    assert(interned_pos(self@.strings, sv) == i as int);
                }
                return i + 1;
            }
            i += 1;
        }
        proof {
            assert(!old(self)@.strings.contains(sv)) by {
                if old(self)@.strings.contains(sv) {
                    let w = choose|j: int|
                        0 <= j < old(self)@.strings.len() && old(self)@.strings[j] == sv;
                    assert(self@.strings[w] != sv);
                }
            }
        }
        self.strings.push(s);
        let idx = self.strings.len();
        proof {
            assert(self@.strings =~= old(self)@.strings.push(sv));
            lemma_intern_at(old(self)@.strings, sv);
            assert(self@.types =~= old(self)@.types);
        }
        idx
    }

    /// Interns the descriptor `t` and, recursively, its parameter
    /// descriptors; returns the one-based index of `t` in the types
    /// table.
    pub fn register_type(&mut self, t: &TypeDescriptor) -> (idx: usize)
        requires
            old(self)@.wf(),
        ensures
            final(self)@.wf(),
            final(self)@.strings == old(self)@.strings,
            final(self)@.types == register_type_model(old(self)@.types, t@),
            idx >= 1,
            idx - 1 == interned_pos(old(self)@.types, t@),
            (idx - 1) < final(self)@.types.len(),
            final(self)@.types[idx - 1] == t@,
            forall|j: int|
                0 <= j < final(self)@.types.len() && j != idx - 1 ==> final(self)@.types[j] != t@,
            final(self)@.types.len() >= old(self)@.types.len(),
            forall|j: int|
                0 <= j < old(self)@.types.len() ==> final(self)@.types[j] == old(self)@.types[j],
        decreases *t,
    {
        broadcast use lemma_models_of;

        proof {
            lemma_intern_at(self@.types, t@);
        }
        let idx: usize;
        match find_type(&self.types, t) {
            Some(i) => {
                let _n = self.types.len();
                proof {
                    assert(self@.types[i as int] == t@);
                    assert(self@.types.contains(t@));
                    assert(interned_pos(old(self)@.types, t@) == i as int);
                }
                idx = i + 1;
            },
            None => {
                proof {
                    assert(!self@.types.contains(t@)) by {
                        if self@.types.contains(t@) {
                            let w = choose|j: int|
                                0 <= j < self@.types.len() && self@.types[j] == t@;
                            assert(self@.types[w] == t@);
                        }
                    }
                }
                let d = t.duplicate();
                self.types.push(d);
                idx = self.types.len();
                proof {
                    assert(self@.types =~= old(self)@.types.push(t@));
                    assert(self@.strings =~= old(self)@.strings);
                }
            },
        }
        proof {
            lemma_models_of(t.params@);
            assert(self@.types == intern_at(old(self)@.types, t@));
            assert(self@.wf());
            assert(t@.params.subrange(0, 0).len() == 0);
        }
        let ghost mid = self@;
        let ghost pos = (idx - 1) as int;
        proof {
            assert(mid.types[pos] == t@);
        }
        let mut k: usize = 0;
        while k < t.params.len()
            invariant
                k <= t.params.len(),
                self@.wf(),
                mid.wf(),
                self@.strings == mid.strings,
                t@.params.len() == t.params@.len(),
                self@.types == register_type_list(mid.types, t@.params.subrange(0, k as int)),
                self@.types.len() >= mid.types.len(),
                forall|j: int| 0 <= j < mid.types.len() ==> self@.types[j] == mid.types[j],
                forall|j: int| 0 <= j < t.params@.len() ==> t.params@[j]@ == t@.params[j],
                decreases_to!(*t => t.params@),
            decreases t.params.len() - k,
        {
            proof {
                assert(decreases_to!(t.params@ => t.params@[k as int]));
            }
            let _ = self.register_type(&t.params[k]);
            proof {
                let ps = t@.params;
                assert(ps.subrange(0, (k + 1) as int).subrange(0, k as int) =~= ps.subrange(
                    0,
                    k as int,
                ));
                assert(ps.subrange(0, (k + 1) as int)[k as int] == ps[k as int]);
                assert(register_type_list(mid.types, ps.subrange(0, (k + 1) as int))
                    == register_type_model(
                    register_type_list(mid.types, ps.subrange(0, k as int)),
                    ps[k as int],
                ));
            }
            k += 1;
        }
        proof {
            lemma_models_of(t.params@);
            assert(t@.params.subrange(0, t.params@.len() as int) =~= t@.params);
            assert(self@.types == register_type_list(intern_at(old(self)@.types, t@), t@.params));
            assert(self@.types == register_type_model(old(self)@.types, t@));
            assert(self@.types[pos] == t@);
            assert forall|j: int|
                0 <= j < self@.types.len() && j != pos implies self@.types[j] != t@ by {
                if j < pos {
                    assert(self@.types[j] != self@.types[pos]);
                } else {
                    assert(self@.types[pos] != self@.types[j]);
                }
            }
        }
        idx
    }
}

/// A duplicate-free table stores a value at most once: two positions
/// holding equal entries are the same position.  Hence, however many
/// compact nodes reference a shared string, the table keeps exactly
/// one entry for it.
pub proof fn lemma_nodup_unique<T>(tbl: Seq<T>, i: int, j: int)
    requires
        nodup(tbl),
        0 <= i < tbl.len(),
        0 <= j < tbl.len(),
        tbl[i] == tbl[j],
    ensures
        i == j,
{
    if i < j {
        assert(tbl[i] != tbl[j]);
    }
    if j < i {
        assert(tbl[j] != tbl[i]);
    }
}

/// Positions are stable: once a value is in a well-formed table,
/// interning further values never moves it, so every later reference
/// to it receives the same index.
pub proof fn lemma_interned_pos_stable<T>(tbl: Seq<T>, x: T, y: T)
    requires
        nodup(tbl),
        tbl.contains(x),
    ensures
        interned_pos(intern_at(tbl, y), x) == interned_pos(tbl, x),
{
    lemma_intern_at(tbl, x);
    lemma_intern_at(tbl, y);
    let tbl1 = intern_at(tbl, y);
    let p = interned_pos(tbl, x);
    assert(intern_at(tbl, x) == tbl);
    assert(tbl1[p] == x);
    assert(tbl1.contains(x));
    lemma_intern_at(tbl1, x);
    assert(intern_at(tbl1, x) == tbl1);
    assert(tbl1[interned_pos(tbl1, x)] == x);
    lemma_nodup_unique(tbl1, interned_pos(tbl1, x), p);
}

/// Interning is idempotent: registering an already-seen string leaves
/// the table unchanged and returns the index of its first
/// registration, while a fresh string receives the next index, so
/// indices are assigned in strict first-seen order with no gaps.
pub proof fn lemma_intern_idempotent<T>(tbl: Seq<T>, x: T)
    requires
        nodup(tbl),
    ensures
        intern_at(intern_at(tbl, x), x) == intern_at(tbl, x),
        interned_pos(intern_at(tbl, x), x) == interned_pos(tbl, x),
        tbl.contains(x) ==> intern_at(tbl, x) == tbl,
        !tbl.contains(x) ==> intern_at(tbl, x) == tbl.push(x) && interned_pos(tbl, x)
            == tbl.len(),
{
    lemma_intern_at(tbl, x);
    let tbl1 = intern_at(tbl, x);
    lemma_intern_at(tbl1, x);
    assert(tbl1.contains(x));
    assert(intern_at(tbl1, x) == tbl1);
    assert(tbl1[interned_pos(tbl1, x)] == x);
    assert(tbl1[interned_pos(tbl, x)] == x);
}

} // verus!
