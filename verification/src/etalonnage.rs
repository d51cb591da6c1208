//! Lecture de la table d'étalonnage des buses : choix du point ou de l'intervalle
//! où se lit la pression d'un débit par buse.
//!
//! Les débits sont des nombres à virgule flottante ; la bibliothèque reçoit le
//! résultat de leurs comparaisons au débit cherché et décide de la lecture.

use vstd::prelude::*;

verus! {

/// Comparaisons d'un débit par buse aux points de la table d'étalonnage
/// (`n` points de débit, dans l'ordre de la table).
pub struct ComparaisonsDebit {
    /// `atteint[k]` : le débit est au moins le débit du point `k`.
    pub atteint: Vec<bool>,
    /// `ne_depasse_pas[k]` : le débit est au plus le débit du point `k`.
    pub ne_depasse_pas: Vec<bool>,
    /// Le débit est inférieur à celui du premier point.
    pub sous_le_premier: bool,
    /// Le débit est supérieur à celui du dernier point.
    pub au_dessus_du_dernier: bool,
    /// Le débit se confond (à la précision de la machine près) avec celui du
    /// dernier point.
    pub confondu_avec_dernier: bool,
    /// `intervalle_nul[i]` : les points `i` et `i + 1` ont des débits confondus.
    pub intervalle_nul: Vec<bool>,
}

/// Les trois listes décrivent bien une table de `n` points.
pub open spec fn bien_formees(c: ComparaisonsDebit) -> bool {
    let n = c.atteint@.len();
    &&& c.ne_depasse_pas@.len() == n
    &&& c.intervalle_nul@.len() == (if n == 0 { 0 } else { n - 1 })
}

/// Lecture de la pression.
#[derive(Debug, Clone, Copy, PartialEq, Eq, Structural)]
pub enum Lecture {
    /// Débit hors de la table : pas de pression.
    Hors,
    /// La pression est celle du point `k`.
    Point(usize),
    /// La pression s'interpole entre les points `i` et `i + 1`.
    Entre(usize),
}

/// Le débit est encadré par les points `i` et `i + 1`.
pub open spec fn encadre(c: ComparaisonsDebit, i: int) -> bool {
    c.atteint@[i] && c.ne_depasse_pas@[i + 1]
}

/// La table est lisible pour ce débit : autant de pressions que de débits, au
/// moins un point, et le débit entre le premier et le dernier point.
pub open spec fn dans_la_table(n_pressions: nat, c: ComparaisonsDebit) -> bool {
    let n = c.atteint@.len();
    &&& n == n_pressions
    &&& n > 0
    &&& !c.sous_le_premier
    &&& !c.au_dessus_du_dernier
}

/// Les comparaisons sont celles de nombres ordinaires (ni le débit ni la table ne
/// sont indéfinis) : chaque point est atteint ou non dépassé, le débit qui n'est
/// pas sous le premier point l'atteint, celui qui n'est pas au-dessus du dernier
/// ne le dépasse pas, et un débit égal au dernier point se confond avec lui.
pub open spec fn comparaisons_coherentes(c: ComparaisonsDebit) -> bool {
    let n = c.atteint@.len();
    &&& forall|k: int| 0 <= k < n ==> #[trigger] c.atteint@[k] || c.ne_depasse_pas@[k]
    &&& n > 0 ==> (!c.sous_le_premier ==> c.atteint@[0])
    &&& n > 0 ==> (!c.au_dessus_du_dernier ==> c.ne_depasse_pas@[n - 1])
    &&& n > 0 ==> (c.atteint@[n - 1] && c.ne_depasse_pas@[n - 1] ==> c.confondu_avec_dernier)
}

/// Aucun intervalle d'indice inférieur à `i` n'encadre le débit.
pub open spec fn aucun_encadrant_avant(c: ComparaisonsDebit, i: int) -> bool {
    forall|j: int| 0 <= j < i ==> !#[trigger] encadre(c, j)
}

/// Choisit la lecture de la pression : hors table si les listes de pressions et de
/// débits diffèrent de longueur, si la table est vide ou si le débit sort de la
/// plage ; le dernier point si le débit s'y confond ; sinon le premier intervalle
/// qui encadre le débit, lu à son point de départ s'il est de largeur nulle.
pub fn lecture_pression(n_pressions: usize, c: &ComparaisonsDebit) -> (r: Lecture)
    requires
        bien_formees(*c),
    ensures
        !dans_la_table(n_pressions as nat, *c) ==> r is Hors,
        dans_la_table(n_pressions as nat, *c) && c.confondu_avec_dernier ==> r == Lecture::Point(
            (c.atteint@.len() - 1) as usize,
        ),
        r matches Lecture::Entre(i) ==> {
            &&& dans_la_table(n_pressions as nat, *c)
            &&& !c.confondu_avec_dernier
            &&& i + 1 < c.atteint@.len()
            &&& encadre(*c, i as int)
            &&& !c.intervalle_nul@[i as int]
            &&& aucun_encadrant_avant(*c, i as int)
        },
        r matches Lecture::Point(k) ==> {
            &&& dans_la_table(n_pressions as nat, *c)
            &&& k < c.atteint@.len()
            &&& (c.confondu_avec_dernier && k + 1 == c.atteint@.len()) || (!c.confondu_avec_dernier
                && k + 1 < c.atteint@.len() && encadre(*c, k as int) && c.intervalle_nul@[k as int]
                && aucun_encadrant_avant(*c, k as int))
        },
        r is Hors && dans_la_table(n_pressions as nat, *c) ==> !c.confondu_avec_dernier
            && aucun_encadrant_avant(*c, c.atteint@.len() - 1),
        dans_la_table(n_pressions as nat, *c) && comparaisons_coherentes(*c) ==> !(r is Hors),
        c.atteint@.len() != n_pressions || c.atteint@.len() == 0 || c.sous_le_premier
            || c.au_dessus_du_dernier ==> r is Hors,
        r matches Lecture::Entre(i) ==> c.atteint@[i as int] && c.ne_depasse_pas@[i + 1] && i + 1
            < n_pressions && forall|j: int| 0 <= j < i ==> !(c.atteint@[j] && c.ne_depasse_pas@[j + 1]),
        r matches Lecture::Point(k) ==> k < n_pressions,
{
    proof {
        if dans_la_table(n_pressions as nat, *c) && comparaisons_coherentes(*c) {
            debit_de_la_plage_toujours_lu(n_pressions as nat, *c);
        }
    }
    let n = c.atteint.len();
    if n != n_pressions || n == 0 {
        return Lecture::Hors;
    }
    if c.sous_le_premier || c.au_dessus_du_dernier {
        return Lecture::Hors;
    }
    if c.confondu_avec_dernier {
        return Lecture::Point(n - 1);
    }
    let mut i: usize = 0;
    while i + 1 < n
        invariant
            bien_formees(*c),
            n == c.atteint@.len(),
            n > 0,
            i + 1 <= n,
            aucun_encadrant_avant(*c, i as int),
            dans_la_table(n_pressions as nat, *c),
            !c.confondu_avec_dernier,
        decreases n - i,
    {
        if c.atteint[i] && c.ne_depasse_pas[i + 1] {
            if c.intervalle_nul[i] {
                return Lecture::Point(i);
            }
            assert forall|j: int| 0 <= j < i implies !(c.atteint@[j] && c.ne_depasse_pas@[j + 1]) by {
                assert(!encadre(*c, j));
            }
            return Lecture::Entre(i);
        }
        i = i + 1;
    }
    Lecture::Hors
}

/// En partant d'un point atteint `k`, on trouve un intervalle encadrant à partir
/// de `k`, ou bien le dernier point est atteint.
proof fn encadrant_a_partir_de(c: ComparaisonsDebit, k: int)
    requires
        bien_formees(c),
        comparaisons_coherentes(c),
        0 <= k < c.atteint@.len(),
        c.atteint@[k],
    ensures
        c.atteint@[c.atteint@.len() - 1] || exists|j: int|
            k <= j < c.atteint@.len() - 1 && #[trigger] encadre(c, j),
    decreases c.atteint@.len() - k,
{
    let n = c.atteint@.len();
    if k < n - 1 {
        if c.atteint@[k + 1] {
            encadrant_a_partir_de(c, k + 1);
        } else {
            assert(c.atteint@[k + 1] || c.ne_depasse_pas@[k + 1]);
            assert(encadre(c, k));
        }
    }
}

/// Un débit compris dans la plage d'une table se lit toujours : si les
/// comparaisons sont cohérentes et que le débit n'est ni sous le premier point ni
/// au-dessus du dernier, il se confond avec le dernier point ou un intervalle
/// l'encadre.
pub proof fn debit_de_la_plage_toujours_lu(n_pressions: nat, c: ComparaisonsDebit)
    requires
        bien_formees(c),
        comparaisons_coherentes(c),
        dans_la_table(n_pressions, c),
    ensures
        c.confondu_avec_dernier || !aucun_encadrant_avant(c, c.atteint@.len() - 1),
{
    encadrant_a_partir_de(c, 0);
}

} // verus!
