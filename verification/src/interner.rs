//! Interning of texts: each distinct text gets one small number.

use vstd::prelude::*;

verus! {

/// A handle for an interned text. Two handles of one interner are equal
/// exactly when their texts are.
pub type Symbol = usize;

/// The first index at or after `from` whose entry is `text`, if there is one.
pub open spec fn first_index_from(names: Seq<Seq<char>>, text: Seq<char>, from: int) -> Option<int>
    decreases names.len() - from,
{
    if from < 0 || from >= names.len() {
        None
    } else if names[from] == text {
        Some(from)
    } else {
        first_index_from(names, text, from + 1)
    }
}

/// The first index whose entry is `text`, if there is one.
pub open spec fn first_index(names: Seq<Seq<char>>, text: Seq<char>) -> Option<int> {
    first_index_from(names, text, 0)
}

/// The symbol that interning `text` gives in a table that holds `names`.
pub open spec fn symbol_of(names: Seq<Seq<char>>, text: Seq<char>) -> int {
    match first_index(names, text) {
        Some(i) => i,
        None => names.len() as int,
    }
}

/// The table after interning `text` in a table that holds `names`.
pub open spec fn names_with(names: Seq<Seq<char>>, text: Seq<char>) -> Seq<Seq<char>> {
    match first_index(names, text) {
        Some(_) => names,
        None => names.push(text),
    }
}

/// No text stands twice in `names`.
pub open spec fn distinct(names: Seq<Seq<char>>) -> bool {
    forall|i: int, j: int| 0 <= i < j < names.len() ==> names[i] != names[j]
}

/// What `first_index_from` finds: an entry equal to `text` with none before
/// it, or nothing where no entry at or after `from` is `text`.
pub proof fn lemma_first_index_from(names: Seq<Seq<char>>, text: Seq<char>, from: int)
    requires
        0 <= from,
    ensures
        match first_index_from(names, text, from) {
            Some(i) => from <= i < names.len() && names[i] == text && forall|k: int|
                from <= k < i ==> names[k] != text,
            None => forall|k: int| from <= k < names.len() ==> names[k] != text,
        },
    decreases names.len() - from,
{
    if from < names.len() && names[from] != text {
        lemma_first_index_from(names, text, from + 1);
    }
}

/// Interning keeps every earlier symbol: the old table is a prefix of the new.
pub proof fn lemma_intern_extends(names: Seq<Seq<char>>, text: Seq<char>)
    ensures
        names_with(names, text).len() >= names.len(),
        names_with(names, text).take(names.len() as int) == names,
        0 <= symbol_of(names, text) < names_with(names, text).len(),
        names_with(names, text)[symbol_of(names, text)] == text,
        distinct(names) ==> distinct(names_with(names, text)),
{
    lemma_first_index_from(names, text, 0);
    assert(names_with(names, text).take(names.len() as int) =~= names);
}

/// The first index of `text` is `i` where `i` holds it and no earlier entry does.
pub proof fn lemma_first_index_is(names: Seq<Seq<char>>, text: Seq<char>, i: int)
    requires
        0 <= i < names.len(),
        names[i] == text,
        forall|k: int| 0 <= k < i ==> names[k] != text,
    ensures
        first_index(names, text) == Some(i),
{
    lemma_first_index_from(names, text, 0);
}

/// Interning is idempotent: a second interning of one text gives the same
/// symbol and leaves the table as the first left it.
pub proof fn lemma_intern_idempotent(names: Seq<Seq<char>>, text: Seq<char>)
    ensures
        symbol_of(names_with(names, text), text) == symbol_of(names, text),
        names_with(names_with(names, text), text) == names_with(names, text),
{
    lemma_first_index_from(names, text, 0);
    let n1 = names_with(names, text);
    let s = symbol_of(names, text);
    assert forall|k: int| 0 <= k < s implies n1[k] != text by {
        assert(n1[k] == names[k]);
    }
    lemma_first_index_is(n1, text, s);
}

/// Two different texts get different symbols, whichever is interned first
/// and whatever the table held before; interning the second leaves the
/// symbol of the first as it was.
pub proof fn lemma_intern_injective(names: Seq<Seq<char>>, a: Seq<char>, b: Seq<char>)
    requires
        a != b,
    ensures
        symbol_of(names, a) != symbol_of(names_with(names, a), b),
        symbol_of(names_with(names_with(names, a), b), a) == symbol_of(names, a),
{
    let n1 = names_with(names, a);
    let n2 = names_with(n1, b);
    let s = symbol_of(names, a);
    lemma_first_index_from(names, a, 0);
    lemma_first_index_from(n1, b, 0);
    lemma_intern_extends(names, a);
    lemma_intern_extends(n1, b);
    assert(n1[s] == a);
    assert(n2[s] == n2.take(n1.len() as int)[s]);
    assert forall|k: int| 0 <= k < s implies n2[k] != a by {
        assert(n2[k] == n2.take(n1.len() as int)[k]);
        assert(n1[k] == n1.take(names.len() as int)[k]);
    }
    lemma_first_index_is(n2, a, s);
}

/// A table of interned texts. The symbol of a text is its index in the table.
pub struct Interner {
    names: Vec<String>,
}

impl View for Interner {
    type V = Seq<Seq<char>>;

    closed spec fn view(&self) -> Seq<Seq<char>> {
        Seq::new(self.names@.len(), |i: int| self.names@[i]@)
    }
}

impl Interner {
    /// No text stands twice in the table.
    pub open spec fn wf(&self) -> bool {
        distinct(self@)
    }

    /// An empty table.
    pub fn new() -> (r: Interner)
        ensures
            r@ == Seq::<Seq<char>>::empty(),
            r.wf(),
    {
        let r = Interner { names: Vec::new() };
        assert(r@ =~= Seq::<Seq<char>>::empty());
        r
    }

    /// The number of texts in the table.
    pub fn len(&self) -> (r: usize)
        ensures
            r == self@.len(),
    {
        self.names.len()
    }

    /// The symbol of `text`, if it has been interned.
    pub fn get(&self, text: &str) -> (r: Option<Symbol>)
        ensures
            match r {
                Some(s) => first_index(self@, text@) == Some(s as int),
                None => first_index(self@, text@) is None,
            },
    {
        let wanted = text.to_owned();
        let mut i: usize = 0;
        while i < self.names.len()
            invariant
                i <= self.names.len(),
                wanted@ == text@,
                first_index(self@, text@) == first_index_from(self@, text@, i as int),
            decreases self.names.len() - i,
        {
            if self.names[i] == wanted {
                return Some(i);
            }
            i += 1;
        }
        None
    }

    /// Interns `text`: returns its symbol, adding the text to the table if it
    /// is not there yet.
    pub fn get_or_intern(&mut self, text: &str) -> (r: Symbol)
        ensures
            r == symbol_of(old(self)@, text@),
            final(self)@ == names_with(old(self)@, text@),
            old(self).wf() ==> final(self).wf(),
    {
        proof {
            lemma_intern_extends(self@, text@);
        }
        match self.get(text) {
            Some(s) => s,
            None => {
                let s = self.names.len();
                self.names.push(text.to_owned());
                assert(self@ =~= old(self)@.push(text@));
                s
            },
        }
    }

    /// The text of `symbol`, if this table gave it out.
    pub fn resolve(&self, symbol: Symbol) -> (r: Option<&str>)
        ensures
            match r {
                Some(t) => symbol < self@.len() && t@ == self@[symbol as int],
                None => symbol >= self@.len(),
            },
    {
        if symbol < self.names.len() {
            Some(self.names[symbol].as_str())
        } else {
            None
        }
    }
}

impl Default for Interner {
    fn default() -> (r: Interner)
        ensures
            r@ == Seq::<Seq<char>>::empty(),
            r.wf(),
    {
        Interner::new()
    }
}

} // verus!
