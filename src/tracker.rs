use crate::text::{lower_of, lowercase, same_text};
use vstd::prelude::*;
use vstd::utf8::encode_utf8;

verus! {

/// The length of a text in bytes.
pub open spec fn byte_len(s: Seq<char>) -> int {
    encode_utf8(s).len() as usize as int
}

/// Whether `s` holds `x` among its texts.
pub open spec fn holds_text(s: Seq<String>, x: Seq<char>) -> bool {
    exists|i: int| 0 <= i < s.len() && #[trigger] s[i]@ == x
}

/// What names a tracked nutrient: its name, its unit, the lower-case forms
/// of its aliases and name (each once), and a shortest of those forms.
#[derive(Clone, Debug, PartialEq, Eq)]
pub struct NutrientLabel {
    pub name: String,
    pub unit: String,
    pub aliases: Vec<String>,
    pub short: String,
}

impl NutrientLabel {
    /// Every alias once, and `short` among them and no longer, in bytes, than
    /// any.
    pub open spec fn wf(&self) -> bool {
        &&& forall|i: int, j: int|
            0 <= i < j < self.aliases@.len() ==> self.aliases@[i]@ != self.aliases@[j]@
        &&& holds_text(self.aliases@, self.short@)
        &&& forall|i: int|
            0 <= i < self.aliases@.len() ==> byte_len(self.short@) <= byte_len(#[trigger] self.aliases@[i]@)
    }

    /// The label of the nutrient `name` with the given aliases; every alias
    /// and the name are kept in lower case.
    pub fn new(name: &str, aliases: &[&str], unit: &str) -> (r: NutrientLabel)
        ensures
            r.wf(),
            r.name@ == name@,
            r.unit@ == unit@,
            holds_text(r.aliases@, lower_of(name@)),
            forall|i: int| 0 <= i < aliases@.len() ==> holds_text(r.aliases@, lower_of(#[trigger] aliases@[i]@)),
            forall|k: int| 0 <= k < r.aliases@.len() ==> (r.aliases@[k]@ == lower_of(name@)
                || exists|i: int| 0 <= i < aliases@.len() && #[trigger] r.aliases@[k]@ == lower_of(aliases@[i]@)),
    {
        let mut all: Vec<String> = Vec::new();
        let mut i: usize = 0;
        while i < aliases.len()
            invariant
                i <= aliases@.len(),
                forall|a: int, b: int| 0 <= a < b < all@.len() ==> all@[a]@ != all@[b]@,
                forall|j: int| 0 <= j < i ==> holds_text(all@, lower_of(#[trigger] aliases@[j]@)),
                forall|k: int| 0 <= k < all@.len() ==>
                    exists|j: int| 0 <= j < aliases@.len() && #[trigger] all@[k]@ == lower_of(aliases@[j]@),
            decreases aliases@.len() - i,
        {
            let l = lowercase(aliases[i]);
            let ghost before = all@;
            insert_unique(&mut all, l);
            proof {
                assert forall|j: int| 0 <= j < i + 1 implies holds_text(all@, lower_of(#[trigger] aliases@[j]@)) by {
                    if j < i {
                        let w = choose|w: int| 0 <= w < before.len() && before[w]@ == lower_of(aliases@[j]@);
                        assert(all@[w]@ == before[w]@);
                    }
                }
                assert forall|k: int| 0 <= k < all@.len() implies
                    exists|j: int| 0 <= j < aliases@.len() && #[trigger] all@[k]@ == lower_of(aliases@[j]@) by {
                    if k < before.len() {
                        assert(all@[k]@ == before[k]@);
                    } else {
                        assert(all@[k]@ == lower_of(aliases@[i as int]@));
                    }
                }
            }
            i = i + 1;
        }
        let ghost before = all@;
        let lname = lowercase(name);
        insert_unique(&mut all, lname);
        proof {
            assert forall|j: int| 0 <= j < aliases@.len() implies holds_text(all@, lower_of(#[trigger] aliases@[j]@)) by {
                let w = choose|w: int| 0 <= w < before.len() && before[w]@ == lower_of(aliases@[j]@);
                assert(all@[w]@ == before[w]@);
            }
            assert forall|k: int| 0 <= k < all@.len() implies (all@[k]@ == lower_of(name@)
                || exists|j: int| 0 <= j < aliases@.len() && #[trigger] all@[k]@ == lower_of(aliases@[j]@)) by {
                if k < before.len() {
                    assert(all@[k]@ == before[k]@);
                }
            }
        }
        let short = shortest(&all);
        NutrientLabel { name: name.to_string(), unit: unit.to_string(), aliases: all, short }
    }

    /// Whether `alias` is, exactly, one of the label's aliases.
    pub fn has_alias(&self, alias: &str) -> (r: bool)
        ensures
            r == holds_text(self.aliases@, alias@),
    {
        let mut i: usize = 0;
        while i < self.aliases.len()
            invariant
                i <= self.aliases@.len(),
                forall|j: int| 0 <= j < i ==> #[trigger] self.aliases@[j]@ != alias@,
            decreases self.aliases@.len() - i,
        {
            if same_text(self.aliases[i].as_str(), alias) {
                return true;
            }
            i = i + 1;
        }
        false
    }
}

/// Appends `x` where it is not yet held.
fn insert_unique(v: &mut Vec<String>, x: String)
    requires
        forall|a: int, b: int| 0 <= a < b < old(v)@.len() ==> old(v)@[a]@ != old(v)@[b]@,
    ensures
        forall|a: int, b: int| 0 <= a < b < final(v)@.len() ==> final(v)@[a]@ != final(v)@[b]@,
        holds_text(final(v)@, x@),
        final(v)@.len() >= old(v)@.len(),
        forall|k: int| 0 <= k < old(v)@.len() ==> #[trigger] final(v)@[k] == old(v)@[k],
        forall|k: int| old(v)@.len() <= k < final(v)@.len() ==> #[trigger] final(v)@[k]@ == x@,
{
    let mut i: usize = 0;
    while i < v.len()
        invariant
            v@ == old(v)@,
            forall|a: int, b: int| 0 <= a < b < v@.len() ==> v@[a]@ != v@[b]@,
            i <= v@.len(),
            forall|j: int| 0 <= j < i ==> #[trigger] v@[j]@ != x@,
        decreases v@.len() - i,
    {
        if same_text(v[i].as_str(), x.as_str()) {
            return;
        }
        i = i + 1;
    }
    v.push(x);
    proof {
        assert(v@[v@.len() - 1]@ == x@);
    }
}

/// The first of the texts whose length in bytes is least.
fn shortest(v: &Vec<String>) -> (r: String)
    requires
        v@.len() > 0,
    ensures
        holds_text(v@, r@),
        forall|i: int| 0 <= i < v@.len() ==> byte_len(r@) <= byte_len(#[trigger] v@[i]@),
{
    let mut best: usize = 0;
    let mut best_len: usize = v[0].as_str().len();
    let mut i: usize = 1;
    while i < v.len()
        invariant
            0 < v@.len(),
            best < v@.len(),
            i <= v@.len(),
            best_len as int == byte_len(v@[best as int]@),
            forall|j: int| 0 <= j < i ==> best_len as int <= byte_len(#[trigger] v@[j]@),
        decreases v@.len() - i,
    {
        let l = v[i].as_str().len();
        if l < best_len {
            best = i;
            best_len = l;
        }
        i = i + 1;
    }
    let r = v[best].clone();
    proof {
        assert(v@[best as int]@ == r@);
    }
    r
}

/// Whether the label at `i` is the first that holds `alias` in lower case.
pub open spec fn first_with_alias(labels: Seq<NutrientLabel>, alias: Seq<char>, i: int) -> bool {
    &&& 0 <= i < labels.len()
    &&& holds_text(labels[i].aliases@, lower_of(alias))
    &&& forall|j: int| 0 <= j < i ==> !holds_text(#[trigger] labels[j].aliases@, lower_of(alias))
}

/// The position of the first label with `alias`, compared in lower case.
pub fn find_nutrient(labels: &Vec<NutrientLabel>, alias: &str) -> (r: Option<usize>)
    ensures
        r matches Some(i) ==> first_with_alias(labels@, alias@, i as int),
        r is None ==> forall|j: int| 0 <= j < labels@.len() ==> !holds_text(#[trigger] labels@[j].aliases@, lower_of(alias@)),
{
    let lower = lowercase(alias);
    let mut i: usize = 0;
    while i < labels.len()
        invariant
            i <= labels@.len(),
            lower@ == lower_of(alias@),
            forall|j: int| 0 <= j < i ==> !holds_text(#[trigger] labels@[j].aliases@, lower_of(alias@)),
        decreases labels@.len() - i,
    {
        if labels[i].has_alias(lower.as_str()) {
            return Some(i);
        }
        i = i + 1;
    }
    None
}

} // verus!
