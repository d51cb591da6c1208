//! Règles du catalogue de produits.

use vstd::prelude::*;

verus! {

/// Identifiant exigé pour mettre à jour un produit : un produit qui n'a pas encore
/// été enregistré n'en a pas, et la mise à jour est refusée.
pub fn exiger_identifiant(id: Option<i64>) -> (r: Result<i64, String>)
    ensures
        id matches Some(x) ==> r == Ok::<i64, String>(x),
        id is None ==> (r matches Err(m) && m@ == "Produit sans ID"@),
{
    match id {
        Some(x) => Ok(x),
        None => Err(String::from_str("Produit sans ID")),
    }
}

/// Suppression de la ligne `idx` du catalogue affiché : la ligne est retirée de la
/// liste dans tous les cas, et l'identifiant à effacer de la base est celui de la
/// ligne, s'il en a un (un produit jamais enregistré n'a rien à effacer). Le
/// produit choisi dans l'onglet Calcul n'en est pas modifié.
pub fn supprimer_ligne<T>(lignes: &mut Vec<T>, identifiants: &Vec<Option<i64>>, idx: usize) -> (a_effacer:
    Option<i64>)
    requires
        idx < old(lignes)@.len(),
        identifiants@.len() == old(lignes)@.len(),
    ensures
        final(lignes)@ == old(lignes)@.remove(idx as int),
        a_effacer == identifiants@[idx as int],
{
    let a_effacer = identifiants[idx];
    lignes.remove(idx);
    a_effacer
}

} // verus!
