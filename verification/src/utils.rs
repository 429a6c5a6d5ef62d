//! The name minifier: a deterministic bijection from indices to shortest
//! lowercase names (`a`, `b`, …, `z`, `aa`, `ab`, …), and the run-local map
//! that assigns each distinct global identifier the next name in sequence.

use vstd::prelude::*;

verus! {

/// The lowercase letter standing for one digit of a minified name.
pub open spec fn letter(d: int) -> char {
    ((d + 97) as u8) as char
}

/// The minified name of index `n`: a base-26 numeral over `'a'..'z'` whose
/// digits beyond the lowest are shifted down by one, so that the sequence
/// runs `a`..`z`, `aa`..`az`, `ba`, …
pub open spec fn spec_next_name(n: nat) -> Seq<char>
    decreases n,
{
    if n < 26 {
        seq![letter(n as int)]
    } else {
        spec_next_name((n / 26 - 1) as nat) + seq![letter((n % 26) as int)]
    }
}

/// A minified name has at least one letter; carrying indices have at least
/// two.
pub proof fn lemma_next_name_len(n: nat)
    ensures
        spec_next_name(n).len() >= 1,
        n >= 26 ==> spec_next_name(n).len() >= 2,
    decreases n,
{
    if n >= 26 {
        lemma_next_name_len((n / 26 - 1) as nat);
    }
}

/// Renaming injectivity: no two distinct indices yield the same minified
/// name.
pub proof fn lemma_next_name_injective(i: nat, j: nat)
    requires
        i != j,
    ensures
        spec_next_name(i) != spec_next_name(j),
    decreases i + j,
{
    lemma_next_name_len(i);
    lemma_next_name_len(j);
    if i < 26 && j < 26 {
        assert(spec_next_name(i)[0] == letter(i as int));
        assert(spec_next_name(j)[0] == letter(j as int));
    } else if i < 26 && j >= 26 {
        assert(spec_next_name(i).len() == 1);
    } else if i >= 26 && j < 26 {
        assert(spec_next_name(j).len() == 1);
    } else {
        let si = spec_next_name(i);
        let sj = spec_next_name(j);
        assert(si.last() == letter((i % 26) as int));
        assert(sj.last() == letter((j % 26) as int));
        if i % 26 != j % 26 {
            assert(si != sj);
        } else {
            assert(i / 26 != j / 26) by {
                vstd::arithmetic::div_mod::lemma_fundamental_div_mod(i as int, 26);
                vstd::arithmetic::div_mod::lemma_fundamental_div_mod(j as int, 26);
            }
            let pi = (i / 26 - 1) as nat;
            let pj = (j / 26 - 1) as nat;
            lemma_next_name_injective(pi, pj);
            assert(si.drop_last() =~= spec_next_name(pi));
            assert(sj.drop_last() =~= spec_next_name(pj));
        }
    }
}

/// One lowercase letter as a string slice.
fn letter_str(d: u8) -> (r: &'static str)
    requires
        d < 26,
    ensures
        r@ =~= seq![letter(d as int)],
{
    match d {
        0 => { proof { reveal_strlit("a"); } "a" },
        1 => { proof { reveal_strlit("b"); } "b" },
        2 => { proof { reveal_strlit("c"); } "c" },
        3 => { proof { reveal_strlit("d"); } "d" },
        4 => { proof { reveal_strlit("e"); } "e" },
        5 => { proof { reveal_strlit("f"); } "f" },
        6 => { proof { reveal_strlit("g"); } "g" },
        7 => { proof { reveal_strlit("h"); } "h" },
        8 => { proof { reveal_strlit("i"); } "i" },
        9 => { proof { reveal_strlit("j"); } "j" },
        10 => { proof { reveal_strlit("k"); } "k" },
        11 => { proof { reveal_strlit("l"); } "l" },
        12 => { proof { reveal_strlit("m"); } "m" },
        13 => { proof { reveal_strlit("n"); } "n" },
        14 => { proof { reveal_strlit("o"); } "o" },
        15 => { proof { reveal_strlit("p"); } "p" },
        16 => { proof { reveal_strlit("q"); } "q" },
        17 => { proof { reveal_strlit("r"); } "r" },
        18 => { proof { reveal_strlit("s"); } "s" },
        19 => { proof { reveal_strlit("t"); } "t" },
        20 => { proof { reveal_strlit("u"); } "u" },
        21 => { proof { reveal_strlit("v"); } "v" },
        22 => { proof { reveal_strlit("w"); } "w" },
        23 => { proof { reveal_strlit("x"); } "x" },
        24 => { proof { reveal_strlit("y"); } "y" },
        25 => { proof { reveal_strlit("z"); } "z" },
        _ => {
            assert(false);
            ""
        },
    }
}

/// The letters of the collected digits, read back in most-significant-first
/// order.
pub open spec fn rev_letters(ds: Seq<u8>) -> Seq<char> {
    Seq::new(ds.len(), |i: int| letter(ds[ds.len() - 1 - i] as int))
}

/// Generates the minified name of the given index: `a`, `b`, …, `z`, `aa`,
/// `ab`, …
pub fn generate_next_name(current_index: usize) -> (name: String)
    ensures
        name@ == spec_next_name(current_index as nat),
{
    let mut digits: Vec<u8> = Vec::new();
    let mut n: usize = current_index;
    let mut done: bool = false;
    while !done
        invariant
            forall|k: int| 0 <= k < digits@.len() ==> #[trigger] digits@[k] < 26,
            !done ==> spec_next_name(current_index as nat) =~= spec_next_name(n as nat)
                + rev_letters(digits@),
            done ==> spec_next_name(current_index as nat) =~= rev_letters(digits@),
        decreases n + 1, (if done { 0int } else { 1int }),
    {
        let ghost n0 = n as nat;
        let ghost ds0 = digits@;
        let remainder: u8 = (n % 26) as u8;
        digits.push(remainder);
        proof {
            assert(rev_letters(digits@) =~= seq![letter((n0 % 26) as int)] + rev_letters(ds0));
        }
        n = n / 26;
        if n == 0 {
            done = true;
            proof {
                assert(n0 < 26);
                assert(spec_next_name(n0) =~= seq![letter(n0 as int)]);
                assert(spec_next_name(current_index as nat) =~= rev_letters(digits@));
            }
        } else {
            proof {
                assert(n0 >= 26);
                assert(spec_next_name(n0) == spec_next_name((n0 / 26 - 1) as nat) + seq![
                    letter((n0 % 26) as int),
                ]);
                assert(spec_next_name(n0) + rev_letters(ds0) =~= spec_next_name(
                    (n0 / 26 - 1) as nat,
                ) + rev_letters(digits@));
            }
            n = n - 1;
        }
    }
    let mut name = String::new();
    let mut j: usize = digits.len();
    while j > 0
        invariant
            j <= digits@.len(),
            forall|k: int| 0 <= k < digits@.len() ==> #[trigger] digits@[k] < 26,
            name@ =~= rev_letters(digits@).subrange(0, digits@.len() - j),
        decreases j,
    {
        j = j - 1;
        let s = letter_str(digits[j]);
        name.append(s);
        proof {
            assert(name@ =~= rev_letters(digits@).subrange(0, digits@.len() - j));
        }
    }
    proof {
        assert(rev_letters(digits@).subrange(0, digits@.len() as int) =~= rev_letters(digits@));
    }
    name
}

/// The index at which a key first occurs in the list of registered names.
pub open spec fn key_index(keys: Seq<Seq<char>>, k: Seq<char>) -> int
    decreases keys.len(),
{
    if keys.len() == 0 {
        0
    } else if keys[0] == k {
        0
    } else {
        1 + key_index(keys.drop_first(), k)
    }
}

/// A contained key's first index is in bounds, holds the key, and nothing
/// before it does.
pub proof fn lemma_key_index_bounds(keys: Seq<Seq<char>>, k: Seq<char>)
    requires
        keys.contains(k),
    ensures
        0 <= key_index(keys, k) < keys.len(),
        keys[key_index(keys, k)] == k,
        forall|m: int| 0 <= m < key_index(keys, k) ==> keys[m] != k,
    decreases keys.len(),
{
    if keys.len() > 0 && keys[0] != k {
        assert(keys.drop_first().contains(k)) by {
            let w = choose|w: int| 0 <= w < keys.len() && keys[w] == k;
            assert(keys.drop_first()[w - 1] == k);
        }
        lemma_key_index_bounds(keys.drop_first(), k);
        assert forall|m: int| 0 <= m < key_index(keys, k) implies keys[m] != k by {
            if m > 0 {
                assert(keys.drop_first()[m - 1] == keys[m]);
            }
        }
    }
}

/// The first index of the first match.
pub proof fn lemma_key_index_of_first_match(keys: Seq<Seq<char>>, k: Seq<char>, i: int)
    requires
        0 <= i < keys.len(),
        keys[i] == k,
        forall|m: int| 0 <= m < i ==> keys[m] != k,
    ensures
        keys.contains(k),
        key_index(keys, k) == i,
    decreases keys.len(),
{
    if keys[0] != k {
        assert(keys.drop_first()[i - 1] == k);
        assert forall|m: int| 0 <= m < i - 1 implies keys.drop_first()[m] != k by {
            assert(keys.drop_first()[m] == keys[m + 1]);
        }
        lemma_key_index_of_first_match(keys.drop_first(), k, i - 1);
    }
}

/// Renaming stability: registering further names never changes the index —
/// and so never changes the minified name — of a name already registered.
pub proof fn lemma_key_index_stable(keys: Seq<Seq<char>>, more: Seq<char>, k: Seq<char>)
    requires
        keys.contains(k),
    ensures
        keys.push(more).contains(k),
        key_index(keys.push(more), k) == key_index(keys, k),
    decreases keys.len(),
{
    lemma_key_index_bounds(keys, k);
    let i = key_index(keys, k);
    assert(keys.push(more)[i] == k);
    lemma_key_index_of_first_match(keys.push(more), k, i);
}

/// A key not yet registered lands at the end.
pub proof fn lemma_key_index_fresh(keys: Seq<Seq<char>>, k: Seq<char>)
    requires
        !keys.contains(k),
    ensures
        keys.push(k).contains(k),
        key_index(keys.push(k), k) == keys.len(),
{
    assert(keys.push(k)[keys.len() as int] == k);
    lemma_key_index_of_first_match(keys.push(k), k, keys.len() as int);
}

/// The run-local map from original global names to minified names.  Its
/// ghost model is the list of original names in registration order; the
/// minified name of an original is `spec_next_name` of its index.
pub struct NameMap {
    keys: Vec<String>,
}

impl View for NameMap {
    type V = Seq<Seq<char>>;

    closed spec fn view(&self) -> Seq<Seq<char>> {
        self.keys@.map_values(|s: String| s@)
    }
}

impl NameMap {
    /// An empty map.
    pub fn new() -> (r: NameMap)
        ensures
            r@ =~= Seq::<Seq<char>>::empty(),
    {
        NameMap { keys: Vec::new() }
    }

    /// Whether the original name is already registered.
    pub fn contains_key(&self, name: &String) -> (b: bool)
        ensures
            b == self@.contains(name@),
    {
        let mut i: usize = 0;
        while i < self.keys.len()
            invariant
                i <= self.keys@.len(),
                forall|j: int| 0 <= j < i ==> (#[trigger] self.keys@[j])@ != name@,
            decreases self.keys@.len() - i,
        {
            if self.keys[i] == *name {
                proof {
                    assert(self@[i as int] == name@);
                }
                return true;
            }
            i = i + 1;
        }
        proof {
            assert forall|j: int| 0 <= j < self@.len() implies self@[j] != name@ by {
                assert(self@[j] == (self.keys@[j])@);
            }
        }
        false
    }

    /// The minified name assigned to a registered original name.
    pub fn get(&self, name: &String) -> (r: Option<String>)
        ensures
            match r {
                Some(s) => self@.contains(name@) && s@ == spec_next_name(
                    key_index(self@, name@) as nat,
                ),
                None => !self@.contains(name@),
            },
    {
        let mut i: usize = 0;
        while i < self.keys.len()
            invariant
                i <= self.keys@.len(),
                forall|j: int| 0 <= j < i ==> (#[trigger] self.keys@[j])@ != name@,
            decreases self.keys@.len() - i,
        {
            if self.keys[i] == *name {
                proof {
                    assert(self@[i as int] == name@);
                    assert forall|m: int| 0 <= m < i implies self@[m] != name@ by {
                        assert(self@[m] == (self.keys@[m])@);
                    }
                    lemma_key_index_of_first_match(self@, name@, i as int);
                }
                return Some(generate_next_name(i));
            }
            i = i + 1;
        }
        proof {
            assert forall|j: int| 0 <= j < self@.len() implies self@[j] != name@ by {
                assert(self@[j] == (self.keys@[j])@);
            }
        }
        None
    }
}

/// Registers an original name, assigning it the next minified name in
/// sequence: its index is the map's size before insertion.  A name already
/// registered keeps its entry: the map is unchanged.
pub fn generate_shortest_names(map: &mut NameMap, key: String)
    ensures
        final(map)@ == (if old(map)@.contains(key@) {
            old(map)@
        } else {
            old(map)@.push(key@)
        }),
{
    if !map.contains_key(&key) {
        map.keys.push(key);
        proof {
            assert(map@ =~= old(map)@.push(key@));
        }
    }
}

} // verus!
