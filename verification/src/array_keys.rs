//! Keys of numbered properties: a configuration holds for example `net0`,
//! `net1`, .. `net31`, each the name of the array followed by the index in
//! decimal.
use vstd::prelude::*;
use vstd::string::*;

use crate::text::{decimal, decimal_value, lemma_decimal_denotes, push_decimal};

verus! {

/// Whether every character is an ASCII digit.
pub open spec fn all_digits(s: Seq<char>) -> bool {
    forall|i: int| 0 <= i < s.len() ==> '0' <= #[trigger] s[i] <= '9'
}

/// A non-empty string of digits without a superfluous leading zero is the
/// decimal writing of the number it denotes.
pub proof fn lemma_canonical_digits(s: Seq<char>)
    requires
        s.len() >= 1,
        all_digits(s),
        s.len() > 1 ==> s[0] != '0',
    ensures
        decimal(decimal_value(s)) == s,
    decreases s.len(),
{
    let init = s.drop_last();
    let d = ((s.last() as nat) - 48) as nat;
    assert(d < 10);
    if s.len() == 1 {
        assert(init =~= Seq::<char>::empty());
        assert(decimal_value(init) == 0);
        assert(decimal_value(s) == d);
        assert(((48 + d) as char) == s.last());
        assert(decimal(d) =~= s);
    } else {
        lemma_canonical_digits(init);
        lemma_decimal_denotes(decimal_value(init));
        let v = decimal_value(init);
        assert(v > 0) by {
            assert(init[0] != '0');
            assert(decimal(v)[0] == init[0]);
        }
        let n = decimal_value(s);
        assert(n == v * 10 + d);
        assert(n / 10 == v && n % 10 == d) by (nonlinear_arith)
            requires
                n == v * 10 + d,
                d < 10,
        ;
        assert(((48 + d) as char) == s.last());
        assert(decimal(n) =~= decimal(v).push(s.last()));
        assert(s =~= init.push(s.last()));
    }
}

/// Different entries have different keys, so reading the key written for an
/// entry gives back that entry's index.
pub proof fn lemma_keys_distinct(prefix: Seq<char>, i: nat, j: nat)
    requires
        prefix + decimal(i) == prefix + decimal(j),
    ensures
        i == j,
{
    let a = prefix + decimal(i);
    let b = prefix + decimal(j);
    assert(a.subrange(prefix.len() as int, a.len() as int) =~= decimal(i));
    assert(b.subrange(prefix.len() as int, b.len() as int) =~= decimal(j));
    lemma_decimal_denotes(i);
    lemma_decimal_denotes(j);
}

/// The key of entry `index` of the array named `prefix`.
pub fn array_key(prefix: &str, index: usize) -> (r: String)
    ensures
        r@ == prefix@ + decimal(index as nat),
{
    let mut key = String::from_str(prefix);
    push_decimal(&mut key, index as u64);
    key
}

/// The index that `key` names in the array named `prefix` with `count`
/// entries: `Some(i)` exactly when `key` is `prefix` followed by the decimal
/// writing of an `i` below `count`.
pub fn array_index(prefix: &str, key: &str, count: usize) -> (r: Option<usize>)
    ensures
        match r {
            Some(i) => i < count && key@ == prefix@ + decimal(i as nat),
            None => forall|i: nat| i < count ==> key@ != prefix@ + #[trigger] decimal(i),
        },
{
    let m = prefix.unicode_len();
    let n = key.unicode_len();
    proof {
        assert forall|i: nat| key@ == prefix@ + #[trigger] decimal(i) implies n > m && key@.subrange(0, m as int) == prefix@
            && key@.subrange(m as int, n as int) == decimal(i) by {
            lemma_decimal_denotes(i);
            assert(key@.subrange(0, m as int) =~= prefix@);
            assert(key@.subrange(m as int, n as int) =~= decimal(i));
        }
    }
    if n <= m || count == 0 {
        return None;
    }
    let mut j: usize = 0;
    while j < m
        invariant
            m == prefix@.len(),
            n == key@.len(),
            m < n,
            j <= m,
            forall|k: int| 0 <= k < j ==> key@[k] == prefix@[k],
        decreases m - j,
    {
        if key.get_char(j) != prefix.get_char(j) {
            proof {
                assert forall|i: nat| i < count implies key@ != prefix@ + #[trigger] decimal(i) by {
                    if key@ == prefix@ + decimal(i) {
                        assert(key@[j as int] == (prefix@ + decimal(i))[j as int]);
                    }
                }
            }
            return None;
        }
        j += 1;
    }
    let ghost digits = key@.subrange(m as int, n as int);
    proof {
        assert(key@.subrange(0, m as int) =~= prefix@);
        assert(key@ =~= prefix@ + digits);
    }
    if n - m > 1 && key.get_char(m) == '0' {
        proof {
            assert forall|i: nat| i < count implies key@ != prefix@ + #[trigger] decimal(i) by {
                if key@ == prefix@ + decimal(i) {
                    lemma_decimal_denotes(i);
                    assert(digits =~= decimal(i));
                    assert(digits[0] == key@[m as int]);
                    if i == 0 {
                        assert(decimal(0) =~= seq!['0']);
                    }
                }
            }
        }
        return None;
    }
    let mut value: usize = 0;
    let mut k: usize = m;
    while k < n
        invariant
            m < n,
            m == prefix@.len(),
            n == key@.len(),
            m <= k <= n,
            digits == key@.subrange(m as int, n as int),
            all_digits(key@.subrange(m as int, k as int)),
            value as nat == decimal_value(key@.subrange(m as int, k as int)),
            value < count,
        decreases n - k,
    {
        let c = key.get_char(k);
        proof {
            assert(key@.subrange(m as int, k + 1).drop_last() =~= key@.subrange(m as int, k as int));
        }
        if !('0' <= c && c <= '9') {
            proof {
                assert forall|i: nat| i < count implies key@ != prefix@ + #[trigger] decimal(i) by {
                    if key@ == prefix@ + decimal(i) {
                        lemma_decimal_denotes(i);
                        assert(digits =~= decimal(i));
                        assert(digits[k - m] == c);
                    }
                }
            }
            return None;
        }
        let d = (c as u32 - 48) as usize;
        proof {
            assert(key@.subrange(m as int, k + 1).last() == c);
            assert(all_digits(key@.subrange(m as int, k + 1)));
            assert(decimal_value(key@.subrange(m as int, k + 1)) == value * 10 + d);
        }
        if (value as u128) * 10 + (d as u128) >= count as u128 {
            proof {
                assert forall|i: nat| i < count implies key@ != prefix@ + #[trigger] decimal(i) by {
                    if key@ == prefix@ + decimal(i) {
                        lemma_decimal_denotes(i);
                        assert(digits =~= decimal(i));
                        assert(key@.subrange(m as int, k + 1) =~= digits.take(k + 1 - m));
                        lemma_value_of_prefix(digits, k + 1 - m);
                    }
                }
            }
            return None;
        }
        value = value * 10 + d;
        k += 1;
    }
    proof {
        assert(key@.subrange(m as int, n as int) == digits);
        if n - m > 1 {
            assert(digits[0] == key@[m as int]);
        }
        lemma_canonical_digits(digits);
    }
    Some(value)
}

/// The number that a string of digits denotes is at least the number that
/// any of its beginnings denotes.
proof fn lemma_value_of_prefix(s: Seq<char>, j: int)
    requires
        0 <= j <= s.len(),
        all_digits(s),
    ensures
        decimal_value(s.take(j)) <= decimal_value(s),
    decreases s.len(),
{
    if j < s.len() {
        let init = s.drop_last();
        assert(all_digits(init));
        lemma_value_of_prefix(init, j);
        assert(init.take(j) =~= s.take(j));
        assert(s.last() as nat >= 48);
        assert(decimal_value(s) >= decimal_value(init));
    } else {
        assert(s.take(j) =~= s);
    }
}

/// The text of an optional string.
pub open spec fn optional_text(s: Option<String>) -> Option<Seq<char>> {
    match s {
        Some(t) => Some(t@),
        None => None,
    }
}

/// The entries of one numbered property, such as `net0` .. `net31`: a slot
/// for each index below the array's count, each empty or holding the
/// property string.
#[derive(Clone, Debug, PartialEq)]
pub struct PropertyArray {
    slots: Vec<Option<String>>,
}

impl View for PropertyArray {
    type V = Seq<Option<Seq<char>>>;

    /// Slot `i` holds the text of entry `i`, if it is set; the length is the
    /// array's count.
    closed spec fn view(&self) -> Seq<Option<Seq<char>>> {
        self.slots@.map_values(|s: Option<String>| optional_text(s))
    }
}

impl PropertyArray {
    /// An array of `count` slots, all empty.
    pub fn new(count: usize) -> (r: Self)
        ensures
            r@ == Seq::new(count as nat, |i: int| None::<Seq<char>>),
    {
        let mut slots: Vec<Option<String>> = Vec::new();
        let mut i: usize = 0;
        while i < count
            invariant
                i <= count,
                slots@.len() == i,
                forall|k: int| 0 <= k < i ==> (#[trigger] slots@[k]) is None,
            decreases count - i,
        {
            slots.push(None);
            i += 1;
        }
        let r = PropertyArray { slots };
        proof {
            assert(r@ =~= Seq::new(count as nat, |i: int| None::<Seq<char>>));
        }
        r
    }

    /// How many entries the array can hold.
    pub fn count(&self) -> (n: usize)
        ensures
            n == self@.len(),
    {
        self.slots.len()
    }

    /// The entry at `index`; `None` where it is empty or past the end.
    pub fn get(&self, index: usize) -> (r: Option<&String>)
        ensures
            optional_text(
                match r {
                    Some(t) => Some(*t),
                    None => None,
                },
            ) == if index < self@.len() {
                self@[index as int]
            } else {
                None
            },
    {
        if index < self.slots.len() {
            match &self.slots[index] {
                Some(t) => Some(t),
                None => None,
            }
        } else {
            None
        }
    }

    /// Sets the entry at `index` and gives back what it held before; an
    /// index past the end is refused, the array left as it was and the value
    /// handed back.
    pub fn insert(&mut self, index: usize, value: String) -> (r: Result<Option<String>, String>)
        ensures
            index < old(self)@.len() ==> (r matches Ok(previous)
                && optional_text(previous) == old(self)@[index as int]
                && final(self)@ == old(self)@.update(index as int, Some(value@))),
            index >= old(self)@.len() ==> r == Err::<Option<String>, String>(value)
                && final(self)@ == old(self)@,
    {
        if index < self.slots.len() {
            let mut slot = Some(value);
            self.slots.set_and_swap(index, &mut slot);
            proof {
                assert(self@ =~= old(self)@.update(index as int, Some(value@)));
            }
            Ok(slot)
        } else {
            Err(value)
        }
    }

    /// Clears the entry at `index` and gives back what it held; past the end
    /// nothing changes.
    pub fn remove(&mut self, index: usize) -> (r: Option<String>)
        ensures
            optional_text(r) == if index < old(self)@.len() {
                old(self)@[index as int]
            } else {
                None
            },
            final(self)@ == if index < old(self)@.len() {
                old(self)@.update(index as int, None)
            } else {
                old(self)@
            },
    {
        if index < self.slots.len() {
            let mut slot: Option<String> = None;
            self.slots.set_and_swap(index, &mut slot);
            proof {
                assert(self@ =~= old(self)@.update(index as int, None));
            }
            slot
        } else {
            None
        }
    }
}

} // verus!
