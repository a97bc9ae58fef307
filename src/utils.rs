use vstd::laws_eq::obeys_concrete_eq;
use vstd::prelude::*;

verus! {

/// Error of the library's own operations.
#[derive(Debug, PartialEq, Eq)]
pub enum Error {
    Undefine,
    Msg(String),
}

impl Error {
    /// The text shown for the error: "Undefine", or the message.
    pub fn to_string(&self) -> (r: String)
        ensures
            *self == Error::Undefine ==> r@ == "Undefine"@,
            self matches Error::Msg(m) ==> r@ == m@,
    {
        match self {
            Error::Undefine => "Undefine".to_owned(),
            Error::Msg(m) => m.clone(),
        }
    }

    /// A short description: "UndefineError", or the message.
    pub fn description(&self) -> (r: &str)
        ensures
            *self == Error::Undefine ==> r@ == "UndefineError"@,
            self matches Error::Msg(m) ==> r@ == m@,
    {
        match self {
            Error::Undefine => "UndefineError",
            Error::Msg(m) => m.as_str(),
        }
    }
}

/// Whether `x` equals some element of `s`.
fn contains<T: PartialEq>(s: &[T], x: &T) -> (r: bool)
    ensures
        obeys_concrete_eq::<T>() ==> r == s@.contains(*x),
{
    let mut i: usize = 0;
    while i < s.len()
        invariant
            i <= s@.len(),
            obeys_concrete_eq::<T>() ==> forall|j: int| 0 <= j < i ==> s@[j] != *x,
        decreases s@.len() - i,
    {
        if s[i].eq(x) {
            proof {
                if obeys_concrete_eq::<T>() {
                    reveal(obeys_concrete_eq);
                    assert(s@[i as int] == *x);
                }
            }
            return true;
        }
        proof {
            if obeys_concrete_eq::<T>() {
                reveal(obeys_concrete_eq);
            }
        }
        i = i + 1;
    }
    false
}

/// Every element of `a` is an element of `b`.
fn all_in<T: PartialEq>(a: &[T], b: &[T]) -> (r: bool)
    ensures
        obeys_concrete_eq::<T>() ==> r == a@.to_set().subset_of(b@.to_set()),
{
    let mut i: usize = 0;
    while i < a.len()
        invariant
            i <= a@.len(),
            obeys_concrete_eq::<T>() ==> forall|j: int| 0 <= j < i ==> b@.contains(#[trigger] a@[j]),
        decreases a@.len() - i,
    {
        if !contains(b, &a[i]) {
            proof {
                if obeys_concrete_eq::<T>() {
                    assert(a@.to_set().contains(a@[i as int]));
                }
            }
            return false;
        }
        i = i + 1;
    }
    proof {
        if obeys_concrete_eq::<T>() {
            assert forall|x: T| a@.to_set().contains(x) implies b@.to_set().contains(x) by {
                let j = choose|j: int| 0 <= j < a@.len() && a@[j] == x;
            }
        }
    }
    true
}

/// Whether `a` and `b` hold the same elements, ignoring order and
/// repetition. Said of types whose `==` is equality.
pub fn are_sets_equal<T: PartialEq>(a: &[T], b: &[T]) -> (r: bool)
    ensures
        obeys_concrete_eq::<T>() ==> r == (a@.to_set() == b@.to_set()),
{
    let r = all_in(a, b) && all_in(b, a);
    proof {
        if obeys_concrete_eq::<T>() {
            if r {
                assert(a@.to_set() =~= b@.to_set());
            }
        }
    }
    r
}

} // verus!
