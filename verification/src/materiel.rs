//! Règles tirées de la fiche du matériel.

use vstd::prelude::*;

verus! {

/// Nombre de buses pris pour répartir le débit : celui de la configuration, porté
/// à 1 s'il vaut zéro, afin que le débit par buse reste défini.
pub fn buses_effectives(nombre_buses: u32) -> (n: u32)
    ensures
        n >= 1,
        nombre_buses >= 1 ==> n == nombre_buses,
        nombre_buses == 0 ==> n == 1,
{
    if nombre_buses == 0 {
        1
    } else {
        nombre_buses
    }
}

} // verus!
