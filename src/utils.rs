use vstd::arithmetic::div_mod::{lemma_fundamental_div_mod, lemma_fundamental_div_mod_converse_mod};
use vstd::prelude::*;

verus! {

/// The first of `num`, `num + step`, `num + 2 step`, ... that is not
/// negative.
pub open spec fn first_non_negative(step: int, num: int) -> int {
    if num >= 0 {
        num
    } else {
        num % step
    }
}

/// Adds `step` to `num` until it is no longer negative.
pub fn make_positive(step: u32, num: i32) -> (r: u32)
    requires
        step > 0,
    ensures
        r == first_non_negative(step as int, num as int),
{
    if num >= 0 {
        return num as u32;
    }
    let n: u64 = (0i64 - num as i64) as u64;
    let s: u64 = step as u64;
    let m: u64 = n % s;
    let ghost q: int = n as int / s as int;
    proof {
        lemma_fundamental_div_mod(n as int, s as int);
        assert((-q) * s == -(s * q)) by (nonlinear_arith);
        assert((-q - 1) * s == -(s * q) - s) by (nonlinear_arith);
    }
    if m == 0 {
        proof {
            lemma_fundamental_div_mod_converse_mod(num as int, s as int, -q, 0);
        }
        0
    } else {
        proof {
            lemma_fundamental_div_mod_converse_mod(num as int, s as int, -q - 1, s - m);
        }
        (s - m) as u32
    }
}

/// The items of `source` at the places that `order` lists, in that order.
pub fn make_sort<T: Clone>(order: &Vec<u8>, source: &Vec<T>) -> (r: Vec<T>)
    requires
        forall|i: int| 0 <= i < order.len() ==> (order[i] as int) < source.len(),
    ensures
        r.len() == order.len(),
        forall|i: int| 0 <= i < order.len() ==> cloned(source[order[i] as int], #[trigger] r[i]),
{
    let mut r: Vec<T> = Vec::new();
    let mut i: usize = 0;
    while i < order.len()
        invariant
            i <= order.len(),
            r.len() == i,
            forall|i: int| 0 <= i < order.len() ==> (order[i] as int) < source.len(),
            forall|j: int| 0 <= j < i ==> cloned(source[order[j] as int], #[trigger] r[j]),
        decreases order.len() - i,
    {
        let item = source[order[i] as usize].clone();
        r.push(item);
        i += 1;
    }
    r
}

} // verus!
