//! Répartition du traitement en citernes : toutes pleines sauf la dernière.

use vstd::prelude::*;

verus! {

/// Numéro affiché (à partir de 1) de la citerne d'indice `i`.
pub fn numero_citerne(i: u32, nombre: u32) -> (n: u32)
    requires
        i < nombre,
    ensures
        n == i + 1,
        1 <= n <= nombre,
{
    i + 1
}

/// Vrai pour la dernière des `nombre` citernes, celle qui reçoit le reliquat.
pub fn est_derniere_citerne(i: u32, nombre: u32) -> (b: bool)
    requires
        i < nombre,
    ensures
        b == (i + 1 == nombre),
{
    i == nombre - 1
}

/// Contenu de la citerne d'indice `i` parmi `nombre` : la dernière reçoit
/// `derniere` (le reliquat), les autres `pleine`.
pub fn remplissage<T: Copy>(i: u32, nombre: u32, pleine: T, derniere: T) -> (r: T)
    requires
        i < nombre,
    ensures
        r == (if i + 1 == nombre { derniere } else { pleine }),
{
    if est_derniere_citerne(i, nombre) {
        derniere
    } else {
        pleine
    }
}

} // verus!
