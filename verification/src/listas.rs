//! Small operations on lists of identifiers and quantities.

use vstd::prelude::*;

verus! {

/// Whether `x` occurs in `lista`.
pub fn contiene(lista: &Vec<u32>, x: u32) -> (esta: bool)
    ensures
        esta == lista@.contains(x),
{
    let mut i: usize = 0;
    while i < lista.len()
        invariant
            i <= lista.len(),
            forall|j: int| 0 <= j < i ==> lista@[j] != x,
        decreases lista.len() - i,
    {
        if lista[i] == x {
            return true;
        }
        i += 1;
    }
    false
}

/// A copy of a list of identifiers.
pub fn copiar_ids(lista: &Vec<u32>) -> (copia: Vec<u32>)
    ensures
        copia@ == lista@,
{
    let copia = lista.clone();
    assert(copia@ =~= lista@);
    copia
}

/// A copy of a list of scores.
pub fn copiar_puntajes(lista: &Vec<u8>) -> (copia: Vec<u8>)
    ensures
        copia@ == lista@,
{
    let copia = lista.clone();
    assert(copia@ =~= lista@);
    copia
}

/// A copy of a list of (product, quantity) pairs.
pub fn copiar_pares(lista: &Vec<(u32, u32)>) -> (copia: Vec<(u32, u32)>)
    ensures
        copia@ == lista@,
{
    let mut copia: Vec<(u32, u32)> = Vec::new();
    let mut i: usize = 0;
    while i < lista.len()
        invariant
            i <= lista.len(),
            copia@ == lista@.take(i as int),
        decreases lista.len() - i,
    {
        let par = lista[i];
        copia.push(par);
        assert(lista@.take(i + 1) =~= lista@.take(i as int).push(par));
        i += 1;
    }
    assert(lista@.take(lista.len() as int) =~= lista@);
    copia
}

} // verus!
