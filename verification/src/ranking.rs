//! Ranking by score: highest first, and among equal scores whoever came first.

use vstd::prelude::*;

verus! {

/// Whether the entry at place `i` of `claves` ranks before the entry at place
/// `j`: its score is higher, or the scores are equal and it comes earlier.
pub open spec fn antes(claves: Seq<u32>, i: int, j: int) -> bool {
    claves[i] > claves[j] || (claves[i] == claves[j] && i < j)
}

/// Whether `puestos` lists every place of `claves` exactly once.
pub open spec fn es_permutacion(cuantos: nat, puestos: Seq<int>) -> bool {
    &&& puestos.len() == cuantos
    &&& forall|a: int| 0 <= a < puestos.len() ==> 0 <= #[trigger] puestos[a] < cuantos
    &&& forall|a: int, b: int|
        0 <= a < b < puestos.len() ==> #[trigger] puestos[a] != #[trigger] puestos[b]
    &&& forall|x: int| 0 <= x < cuantos ==> #[trigger] puestos.contains(x)
}

/// Whether `puestos` is the ranking of `claves`: every place once, each
/// ranking before all that follow it.
pub open spec fn es_ranking(claves: Seq<u32>, puestos: Seq<int>) -> bool {
    &&& es_permutacion(claves.len(), puestos)
    &&& forall|a: int, b: int|
        0 <= a < b < puestos.len() ==> antes(claves, #[trigger] puestos[a], #[trigger] puestos[b])
}

/// The ranking of `claves`: the places of its entries, best first.
pub open spec fn ranking(claves: Seq<u32>) -> Seq<int> {
    choose|puestos: Seq<int>| es_ranking(claves, puestos)
}

/// The places of a list of exec indices, as integers.
pub open spec fn como_enteros(puestos: Seq<usize>) -> Seq<int> {
    puestos.map_values(|p: usize| p as int)
}

/// A list of scores has one ranking only.
pub proof fn ley_ranking_unico(claves: Seq<u32>, uno: Seq<int>, otro: Seq<int>)
    requires
        es_ranking(claves, uno),
        es_ranking(claves, otro),
    ensures
        uno == otro,
{
    assert forall|k: int| 0 <= k < uno.len() implies uno[k] == otro[k] by {
        lema_ranking_coincide(claves, uno, otro, k);
    }
    assert(uno =~= otro);
}

/// Two rankings of the same scores agree at every place.
proof fn lema_ranking_coincide(claves: Seq<u32>, uno: Seq<int>, otro: Seq<int>, k: int)
    requires
        es_ranking(claves, uno),
        es_ranking(claves, otro),
        0 <= k < uno.len(),
    ensures
        uno[k] == otro[k],
    decreases k,
{
    assert forall|j: int| 0 <= j < k implies uno[j] == otro[j] by {
        lema_ranking_coincide(claves, uno, otro, j);
    }
    let x = uno[k];
    let y = otro[k];
    if x != y {
        assert(otro.contains(x));
        let m = choose|m: int| 0 <= m < otro.len() && otro[m] == x;
        assert(uno.contains(y));
        let n = choose|n: int| 0 <= n < uno.len() && uno[n] == y;
        if m < k {
            assert(uno[m] == otro[m]);
            assert(uno[m] != uno[k]);
        }
        if n < k {
            assert(uno[n] == otro[n]);
            assert(otro[n] != otro[k]);
        }
        assert(m > k);
        assert(n > k);
        assert(antes(claves, otro[k], otro[m]));
        assert(antes(claves, uno[k], uno[n]));
    }
}

/// How many entries at the head of the ranking `puestos`, from place `desde`
/// on, score at least `clave`.
pub open spec fn lugar_para(claves: Seq<u32>, puestos: Seq<int>, clave: u32, desde: int) -> int
    decreases puestos.len() - desde,
{
    if 0 <= desde < puestos.len() && claves[puestos[desde]] >= clave {
        lugar_para(claves, puestos, clave, desde + 1)
    } else {
        desde
    }
}

/// Up to the place found every entry scores at least `clave`, and the entry
/// at the place found, if there is one, scores less.
proof fn lema_lugar_para(claves: Seq<u32>, puestos: Seq<int>, clave: u32, desde: int)
    requires
        0 <= desde <= puestos.len(),
    ensures
        desde <= lugar_para(claves, puestos, clave, desde) <= puestos.len(),
        forall|a: int|
            desde <= a < lugar_para(claves, puestos, clave, desde) ==> claves[#[trigger] puestos[a]]
                >= clave,
        lugar_para(claves, puestos, clave, desde) < puestos.len() ==> claves[puestos[lugar_para(
            claves,
            puestos,
            clave,
            desde,
        )]] < clave,
    decreases puestos.len() - desde,
{
    if desde < puestos.len() && claves[puestos[desde]] >= clave {
        lema_lugar_para(claves, puestos, clave, desde + 1);
    }
}

/// A ranking of all scores but the last, with the place of the last score put
/// in behind the entries that score at least as much, is a ranking of all.
proof fn lema_ranking_con_ultimo(claves: Seq<u32>, previos: Seq<int>)
    requires
        claves.len() > 0,
        es_ranking(claves.drop_last(), previos),
    ensures
        es_ranking(
            claves,
            previos.insert(lugar_para(claves, previos, claves.last(), 0), claves.len() - 1),
        ),
{
    let previas = claves.drop_last();
    let n = claves.len() - 1;
    let clave = claves.last();
    let lugar = lugar_para(claves, previos, clave, 0);
    lema_lugar_para(claves, previos, clave, 0);
    let nuevos = previos.insert(lugar, n);
    assert forall|a: int| 0 <= a < previos.len() implies previas[#[trigger] previos[a]]
        == claves[previos[a]] by {}
    assert forall|a: int| 0 <= a < nuevos.len() implies 0 <= #[trigger] nuevos[a] < n + 1 by {
        if a < lugar {
            assert(nuevos[a] == previos[a]);
        } else if a > lugar {
            assert(nuevos[a] == previos[a - 1]);
        }
    }
    assert forall|a: int, b: int| 0 <= a < b < nuevos.len() implies #[trigger] nuevos[a]
        != #[trigger] nuevos[b] && antes(claves, nuevos[a], nuevos[b]) by {
        let pa = if a < lugar {
            a
        } else {
            a - 1
        };
        let pb = if b < lugar {
            b
        } else {
            b - 1
        };
        if a != lugar {
            assert(nuevos[a] == previos[pa]);
            assert(0 <= previos[pa] < n);
        }
        if b != lugar {
            assert(nuevos[b] == previos[pb]);
            assert(0 <= previos[pb] < n);
        }
        if a != lugar && b != lugar {
            assert(antes(previas, previos[pa], previos[pb]));
        } else if a == lugar {
            assert(previos[lugar] == nuevos[lugar + 1]);
            if pb > lugar {
                assert(antes(previas, previos[lugar], previos[pb]));
            }
        } else {
            assert(claves[previos[a]] >= clave);
        }
    }
    assert forall|x: int| 0 <= x < n + 1 implies #[trigger] nuevos.contains(x) by {
        if x == n {
            assert(nuevos[lugar] == x);
        } else {
            assert(previos.contains(x));
            let m = choose|m: int| 0 <= m < previos.len() && previos[m] == x;
            if m < lugar {
                assert(nuevos[m] == x);
            } else {
                assert(nuevos[m + 1] == x);
            }
        }
    }
}

/// Every list of scores has a ranking: `ranking` is one.
pub proof fn ley_ranking_existe(claves: Seq<u32>)
    ensures
        es_ranking(claves, ranking(claves)),
    decreases claves.len(),
{
    if claves.len() == 0 {
        assert(es_ranking(claves, Seq::<int>::empty()));
    } else {
        ley_ranking_existe(claves.drop_last());
        let previos = ranking(claves.drop_last());
        lema_ranking_con_ultimo(claves, previos);
        assert(es_ranking(
            claves,
            previos.insert(lugar_para(claves, previos, claves.last(), 0), claves.len() - 1),
        ));
    }
}

/// The ranking of a list of scores, as the places of its entries, best first.
pub fn ordenar_por_puntaje(claves: &Vec<u32>) -> (puestos: Vec<usize>)
    ensures
        es_ranking(claves@, como_enteros(puestos@)),
        como_enteros(puestos@) == ranking(claves@),
{
    let mut puestos: Vec<usize> = Vec::new();
    let mut i: usize = 0;
    proof {
        assert(como_enteros(puestos@) =~= Seq::<int>::empty());
    }
    while i < claves.len()
        invariant
            i <= claves.len(),
            es_ranking(claves@.take(i as int), como_enteros(puestos@)),
            forall|a: int| 0 <= a < puestos@.len() ==> #[trigger] puestos@[a] < i,
        decreases claves.len() - i,
    {
        let clave = claves[i];
        let mut lugar: usize = 0;
        proof {
            assert(puestos@.len() == i) by {
                assert(como_enteros(puestos@).len() == puestos@.len());
            }
        }
        while lugar < puestos.len() && claves[puestos[lugar]] >= clave
            invariant
                i < claves.len(),
                clave == claves@[i as int],
                puestos@.len() == i,
                lugar <= puestos@.len(),
                es_ranking(claves@.take(i as int), como_enteros(puestos@)),
                forall|a: int| 0 <= a < puestos@.len() ==> #[trigger] puestos@[a] < i,
                forall|a: int| 0 <= a < lugar ==> claves@[#[trigger] puestos@[a] as int] >= clave,
            decreases puestos@.len() - lugar,
        {
            proof {
                assert(como_enteros(puestos@)[lugar as int] == puestos@[lugar as int]);
            }
            lugar += 1;
        }
        let ghost previos = como_enteros(puestos@);
        let ghost previas = claves@.take(i as int);
        proof {
            if lugar < puestos.len() {
                assert(previos[lugar as int] == puestos@[lugar as int]);
                assert(claves@[puestos@[lugar as int] as int] < clave);
            }
        }
        puestos.insert(lugar, i);
        proof {
            let nuevos = como_enteros(puestos@);
            let nuevas = claves@.take(i + 1);
            assert(nuevos =~= previos.insert(lugar as int, i as int));
            assert forall|a: int| 0 <= a < previos.len() implies previas[#[trigger] previos[a]]
                == nuevas[previos[a]] by {}
            assert forall|a: int| 0 <= a < nuevos.len() implies 0 <= #[trigger] nuevos[a] < i
                + 1 by {
                if a < lugar {
                    assert(nuevos[a] == previos[a]);
                } else if a > lugar {
                    assert(nuevos[a] == previos[a - 1]);
                }
            }
            assert forall|a: int, b: int| 0 <= a < b < nuevos.len() implies #[trigger] nuevos[a]
                != #[trigger] nuevos[b] && antes(nuevas, nuevos[a], nuevos[b]) by {
                let pa = if a < lugar {
                    a
                } else {
                    a - 1
                };
                let pb = if b < lugar {
                    b
                } else {
                    b - 1
                };
                if a != lugar {
                    assert(nuevos[a] == previos[pa]);
                    assert(0 <= previos[pa] < i);
                }
                if b != lugar {
                    assert(nuevos[b] == previos[pb]);
                    assert(0 <= previos[pb] < i);
                }
                if a != lugar && b != lugar {
                    assert(antes(previas, previos[pa], previos[pb]));
                } else if a == lugar {
                    // the new entry ranks before everything from `lugar` on
                    assert(previos[lugar as int] == nuevos[lugar + 1]);
                    if pb > lugar {
                        assert(antes(previas, previos[lugar as int], previos[pb]));
                    }
                } else {
                    // everything before `lugar` scores at least as high and came earlier
                    assert(claves@[previos[a]] >= clave);
                }
            }
            assert forall|x: int| 0 <= x < i + 1 implies #[trigger] nuevos.contains(x) by {
                if x == i {
                    assert(nuevos[lugar as int] == x);
                } else {
                    assert(previos.contains(x));
                    let m = choose|m: int| 0 <= m < previos.len() && previos[m] == x;
                    if m < lugar {
                        assert(nuevos[m] == x);
                    } else {
                        assert(nuevos[m + 1] == x);
                    }
                }
            }
        }
        i += 1;
    }
    proof {
        assert(claves@.take(i as int) =~= claves@);
        ley_ranking_unico(claves@, como_enteros(puestos@), ranking(claves@));
    }
    puestos
}

} // verus!
