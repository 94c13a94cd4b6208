//! Short lists from their elements.
use vstd::prelude::*;

verus! {

pub fn one<T>(a: T) -> (r: Vec<T>)
    ensures
        r@ == seq![a],
{
    let mut v: Vec<T> = Vec::new();
    v.push(a);
    assert(v@ =~= seq![a]);
    v
}

pub fn two<T>(a: T, b: T) -> (r: Vec<T>)
    ensures
        r@ == seq![a, b],
{
    let mut v: Vec<T> = Vec::new();
    v.push(a);
    v.push(b);
    assert(v@ =~= seq![a, b]);
    v
}

pub fn three<T>(a: T, b: T, c: T) -> (r: Vec<T>)
    ensures
        r@ == seq![a, b, c],
{
    let mut v: Vec<T> = Vec::new();
    v.push(a);
    v.push(b);
    v.push(c);
    assert(v@ =~= seq![a, b, c]);
    v
}

pub fn four<T>(a: T, b: T, c: T, d: T) -> (r: Vec<T>)
    ensures
        r@ == seq![a, b, c, d],
{
    let mut v: Vec<T> = Vec::new();
    v.push(a);
    v.push(b);
    v.push(c);
    v.push(d);
    assert(v@ =~= seq![a, b, c, d]);
    v
}

} // verus!
