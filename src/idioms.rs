//! Small idioms: borrowed string arguments, constructors with defaults, deref-like
//! containers of boxed values, and non-exhaustive types.

use vstd::prelude::*;

verus! {

/// Whether `c` is a lower-case ASCII vowel.
pub open spec fn is_vowel(c: char) -> bool {
    c == 'a' || c == 'e' || c == 'i' || c == 'o' || c == 'u'
}

/// Whether `s[i]`, `s[i + 1]` and `s[i + 2]` are all vowels.
pub open spec fn vowel_run_at(s: Seq<char>, i: int) -> bool {
    0 <= i && i + 2 < s.len() && is_vowel(s[i]) && is_vowel(s[i + 1]) && is_vowel(s[i + 2])
}

/// Whether three vowels stand next to each other somewhere in `s`.
pub open spec fn has_three_vowels(s: Seq<char>) -> bool {
    exists|i: int| #[trigger] vowel_run_at(s, i)
}

/// Whether `word` holds three consecutive lower-case vowels.
pub fn three_vowels_str(word: &str) -> (r: bool)
    ensures
        r == has_three_vowels(word@),
{
    broadcast use vstd::string::axiom_spec_iter;

    let ghost s = word@;
    let mut vowel_count: usize = 0;
    for c in it: word.chars()
        invariant
            it.seq() == s,
            s == word@,
            vowel_count <= it.index(),
            vowel_count < 3,
            forall|m: int| it.index() - vowel_count <= m < it.index() ==> is_vowel(s[m]),
            vowel_count < it.index() ==> !is_vowel(s[it.index() - vowel_count - 1]),
            forall|i: int| i + 2 < it.index() ==> !#[trigger] vowel_run_at(s, i),
    {
        let ghost k = it.index();
        assert(c == s[k]);
        match c {
            'a' | 'e' | 'i' | 'o' | 'u' => {
                vowel_count += 1;
                if vowel_count >= 3 {
                    assert(vowel_run_at(s, k - 2));
                    return true;
                }
            },
            _ => vowel_count = 0,
        }
    }
    false
}

/// Whether `word` holds three consecutive lower-case vowels.
pub fn three_vowels_string(word: &String) -> (r: bool)
    ensures
        r == has_three_vowels(word@),
{
    three_vowels_str(word.as_str())
}

/// A wrapped count of seconds.
pub struct Second {
    value: u64,
}

impl Second {
    /// The wrapped value.
    pub closed spec fn spec_value(&self) -> u64 {
        self.value
    }

    /// `value` seconds.
    pub fn new(value: u64) -> (r: Second)
        ensures
            r.spec_value() == value,
    {
        Second { value }
    }

    /// The number of seconds.
    pub fn value(&self) -> (r: u64)
        ensures
            r == self.spec_value(),
    {
        self.value
    }
}

impl Default for Second {
    /// Zero seconds.
    fn default() -> (r: Second)
        ensures
            r.spec_value() == 0,
    {
        Second { value: 0 }
    }
}

/// A vector of boxed copies of the values it was made from.
pub struct HVec<T> {
    data: Vec<Box<T>>,
}

impl<T: Clone> HVec<T> {
    /// The boxed values.
    pub closed spec fn items(&self) -> Seq<Box<T>> {
        self.data@
    }

    /// Boxes a copy of each of `value`, in order.
    pub fn new(value: &[T]) -> (r: HVec<T>)
        ensures
            r.items().len() == value@.len(),
            forall|i: int| 0 <= i < value@.len() ==> cloned(value@[i], *#[trigger] r.items()[i]),
    {
        HVec { data: HVec::transform(value) }
    }

    /// A box holding a copy of each of `value`, in order.
    pub fn transform(value: &[T]) -> (r: Vec<Box<T>>)
        ensures
            r@.len() == value@.len(),
            forall|i: int| 0 <= i < value@.len() ==> cloned(value@[i], *#[trigger] r@[i]),
    {
        let mut result: Vec<Box<T>> = Vec::new();
        let mut k: usize = 0;
        while k < value.len()
            invariant
                k <= value@.len(),
                result@.len() == k,
                forall|i: int| 0 <= i < k ==> cloned(value@[i], *#[trigger] result@[i]),
            decreases value@.len() - k,
        {
            let inner = Box::new(value[k].clone());
            result.push(inner);
            k = k + 1;
        }
        result
    }

    /// The boxed values, as the container dereferences to.
    pub fn data(&self) -> (r: &Vec<Box<T>>)
        ensures
            r@ == self.items(),
    {
        &self.data
    }
}

/// A struct that may gain fields later: outside this crate it can be neither built
/// by a literal nor matched exhaustively.
#[non_exhaustive]
pub struct S {
    pub foo: i32,
}

impl S {
    /// An `S` with the given field.
    pub fn new(foo: i32) -> (r: S)
        ensures
            r.foo == foo,
    {
        S { foo }
    }
}

/// An enum that may gain variants later, so matches outside this crate need a
/// wildcard arm.
#[non_exhaustive]
pub enum AdmitMoreVariants {
    VariantA,
    VariantB,
    #[non_exhaustive]
    VariantC { a: String },
}

/// A two-state record: `A` carries a counter that `B` no longer has.
pub enum MyEnum {
    A { name: String, x: u8 },
    B { name: String },
}

/// The result of turning an `A` whose counter is zero into a `B` of the same name;
/// anything else stays as it is.
pub open spec fn a_to_b_spec(e: MyEnum) -> MyEnum {
    match e {
        MyEnum::A { name, x } => if x == 0 {
            MyEnum::B { name }
        } else {
            e
        },
        _ => e,
    }
}

/// Turns `*e` into a `B` of the same name when it is an `A` with a zero counter,
/// moving the name rather than copying it.
pub fn a_to_b(e: &mut MyEnum)
    ensures
        *final(e) == a_to_b_spec(*old(e)),
{
    let zero_a = match e {
        MyEnum::A { name: _, x } => *x == 0,
        _ => false,
    };
    if zero_a {
        let mut taken = MyEnum::B { name: String::new() };
        std::mem::swap(e, &mut taken);
        match taken {
            MyEnum::A { name, x: _ } => {
                *e = MyEnum::B { name };
            },
            MyEnum::B { name } => {
                *e = MyEnum::B { name };
            },
        }
    }
}

} // verus!
