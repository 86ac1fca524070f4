use vstd::prelude::*;

verus! {

/// A handle to an interned spelling; equal handles mean equal spellings.
#[derive(Debug, Clone, Copy, PartialEq, Eq, Structural, Hash)]
pub struct Symbol {
    index: usize,
}

/// No spelling occurs twice.
pub open spec fn distinct(s: Seq<Seq<u8>>) -> bool {
    forall|i: int, j: int| 0 <= i < j < s.len() ==> s[i] != s[j]
}

/// The table after interning `w`: unchanged if `w` is there, else `w` added at the end.
pub open spec fn interned(s: Seq<Seq<u8>>, w: Seq<u8>) -> Seq<Seq<u8>> {
    if s.contains(w) {
        s
    } else {
        s.push(w)
    }
}

/// The index at which `w` stands in `s`.
pub open spec fn index_of(s: Seq<Seq<u8>>, w: Seq<u8>) -> int {
    choose|i: int| 0 <= i < s.len() && s[i] == w
}

/// The handle of `w` in table `s`.
pub closed spec fn symbol_of(s: Seq<Seq<u8>>, w: Seq<u8>) -> Symbol {
    Symbol { index: index_of(s, w) as usize }
}

/// In a distinct table, a word that stands at `i` has index `i`.
pub proof fn lemma_index_of(s: Seq<Seq<u8>>, w: Seq<u8>, i: int)
    requires
        distinct(s),
        0 <= i < s.len(),
        s[i] == w,
    ensures
        index_of(s, w) == i,
{
    let j = index_of(s, w);
    assert(0 <= j < s.len() && s[j] == w);
    if j < i {
        assert(s[j] != s[i]);
    } else if i < j {
        assert(s[i] != s[j]);
    }
}

/// Two spellings have the same handle in a distinct table iff they are equal.
pub proof fn lemma_symbol_injective(s: Seq<Seq<u8>>, a: Seq<u8>, b: Seq<u8>)
    requires
        distinct(s),
        s.len() <= usize::MAX,
        s.contains(a),
        s.contains(b),
    ensures
        (symbol_of(s, a) == symbol_of(s, b)) == (a == b),
{
    let i = index_of(s, a);
    let j = index_of(s, b);
    assert(0 <= i < s.len() && s[i] == a);
    assert(0 <= j < s.len() && s[j] == b);
    if symbol_of(s, a) == symbol_of(s, b) {
        assert(i as usize == j as usize);
    }
}

/// Interning keeps a table distinct; a new word gets the next index.
pub proof fn lemma_interned_distinct(s: Seq<Seq<u8>>, w: Seq<u8>)
    requires
        distinct(s),
    ensures
        distinct(interned(s, w)),
        interned(s, w).contains(w),
        !s.contains(w) ==> index_of(interned(s, w), w) == s.len(),
{
    let after = interned(s, w);
    if !s.contains(w) {
        assert forall|a: int, b: int| 0 <= a < b < after.len() implies after[a] != after[b] by {
            if b == s.len() {
                assert(s.contains(s[a]));
            }
        }
        assert(after[s.len() as int] == w);
        lemma_index_of(after, w, s.len() as int);
    }
    assert(after.contains(w));
}

/// Interning `v` keeps the handle of every word already in a distinct table.
pub proof fn lemma_symbol_stable(syms: Seq<Seq<u8>>, w: Seq<u8>, v: Seq<u8>)
    requires
        distinct(syms),
        syms.contains(w),
    ensures
        distinct(interned(syms, v)),
        symbol_of(interned(syms, v), w) == symbol_of(syms, w),
{
    let after = interned(syms, v);
    let i = choose|i: int| 0 <= i < syms.len() && syms[i] == w;
    lemma_interned_distinct(syms, v);
    assert(after[i] == w);
    lemma_index_of(after, w, i);
    lemma_index_of(syms, w, i);
}

/// Deduplicates spellings into small stable handles.
pub struct SymbolInterner {
    words: Vec<Vec<u8>>,
}

impl View for SymbolInterner {
    type V = Seq<Seq<u8>>;

    closed spec fn view(&self) -> Seq<Seq<u8>> {
        self.words@.map_values(|w: Vec<u8>| w@)
    }
}

impl SymbolInterner {
    pub open spec fn wf(&self) -> bool {
        distinct(self@)
    }

    /// An interner that holds nothing.
    pub fn new() -> (r: SymbolInterner)
        ensures
            r.wf(),
            r@ == Seq::<Seq<u8>>::empty(),
    {
        let r = SymbolInterner { words: Vec::new() };
        assert(r@ =~= Seq::<Seq<u8>>::empty());
        r
    }

    /// How many distinct spellings have been interned.
    pub fn len(&self) -> (r: usize)
        ensures
            r == self@.len(),
    {
        self.words.len()
    }

    /// The handle of `text`, interning it first if it is new.
    pub fn get_or_intern(&mut self, text: &[u8]) -> (r: Symbol)
        requires
            old(self).wf(),
        ensures
            final(self).wf(),
            final(self)@ == interned(old(self)@, text@),
            final(self)@.contains(text@),
            r == symbol_of(final(self)@, text@),
    {
        let n = self.words.len();
        let mut i: usize = 0;
        while i < n
            invariant
                n == self.words@.len(),
                i <= n,
                self@ == old(self)@,
                self.wf(),
                forall|j: int| 0 <= j < i ==> self@[j] != text@,
            decreases n - i,
        {
            if bytes_eq(self.words[i].as_slice(), text) {
                assert(self@[i as int] == text@);
                assert(self@.contains(text@));
                proof {
                    lemma_index_of(self@, text@, i as int);
                }
                return Symbol { index: i };
            }
            i = i + 1;
        }
        assert(!self@.contains(text@));
        let ghost before = self@;
        self.words.push(vstd::slice::slice_to_vec(text));
        assert(self@ =~= before.push(text@));
        proof {
            lemma_interned_distinct(before, text@);
        }
        Symbol { index: n }
    }
}

/// Whether two byte strings are equal.
pub fn bytes_eq(a: &[u8], b: &[u8]) -> (r: bool)
    ensures
        r == (a@ == b@),
{
    if a.len() != b.len() {
        return false;
    }
    let mut i: usize = 0;
    while i < a.len()
        invariant
            a@.len() == b@.len(),
            i <= a@.len(),
            forall|j: int| 0 <= j < i ==> a@[j] == b@[j],
        decreases a.len() - i,
    {
        if a[i] != b[i] {
            return false;
        }
        i = i + 1;
    }
    assert(a@ =~= b@);
    true
}

} // verus!
