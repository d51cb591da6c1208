//! Alertes levées sur un rapport de boîte, et leur présentation en texte.

use vstd::prelude::*;

verus! {

/// Avertissement émis pour un rapport de boîte dont la fenêtre de vitesse ou de
/// pression sort des plages exploitables.
#[derive(Debug, Clone, Copy, PartialEq, Eq, Structural)]
pub enum Alerte {
    PressionTropHaute,
    PressionTropBasse,
    VitesseTropBasse,
    VitesseTropHaute,
}

/// Conditions constatées sur un rapport, aux bornes de la plage PTO.
#[derive(Debug, Clone, Copy, PartialEq, Eq, Structural)]
pub struct ConstatRapport {
    /// Vitesse au sol sous 1 km/h même au régime PTO max.
    pub vitesse_trop_basse: bool,
    /// Vitesse au sol au-dessus de 10 km/h même au régime PTO min.
    pub vitesse_trop_haute: bool,
    /// Débit par buse au régime PTO max au-delà du dernier point d'étalonnage.
    pub pression_trop_haute: bool,
    /// Débit par buse au régime nominal en deçà du premier point d'étalonnage.
    pub pression_trop_basse: bool,
}

/// Condition qui déclenche une alerte donnée.
pub open spec fn declenchee(c: ConstatRapport, a: Alerte) -> bool {
    match a {
        Alerte::VitesseTropBasse => c.vitesse_trop_basse,
        Alerte::VitesseTropHaute => c.vitesse_trop_haute,
        Alerte::PressionTropHaute => c.pression_trop_haute,
        Alerte::PressionTropBasse => c.pression_trop_basse,
    }
}

/// Liste des alertes d'un rapport : vitesse basse, vitesse haute, pression haute,
/// pression basse, chacune présente seulement si sa condition est constatée.
pub open spec fn alertes_attendues(c: ConstatRapport) -> Seq<Alerte> {
    let s1: Seq<Alerte> = if c.vitesse_trop_basse { seq![Alerte::VitesseTropBasse] } else { seq![] };
    let s2: Seq<Alerte> = if c.vitesse_trop_haute { seq![Alerte::VitesseTropHaute] } else { seq![] };
    let s3: Seq<Alerte> = if c.pression_trop_haute { seq![Alerte::PressionTropHaute] } else { seq![] };
    let s4: Seq<Alerte> = if c.pression_trop_basse { seq![Alerte::PressionTropBasse] } else { seq![] };
    s1 + s2 + s3 + s4
}

/// Construit la liste des alertes d'un rapport à partir des conditions constatées.
pub fn alertes_rapport(c: ConstatRapport) -> (alertes: Vec<Alerte>)
    ensures
        alertes@ == alertes_attendues(c),
{
    let mut alertes: Vec<Alerte> = Vec::new();
    if c.vitesse_trop_basse {
        alertes.push(Alerte::VitesseTropBasse);
    }
    if c.vitesse_trop_haute {
        alertes.push(Alerte::VitesseTropHaute);
    }
    if c.pression_trop_haute {
        alertes.push(Alerte::PressionTropHaute);
    }
    if c.pression_trop_basse {
        alertes.push(Alerte::PressionTropBasse);
    }
    alertes
}

/// Une alerte figure dans la liste d'un rapport si et seulement si sa condition est
/// constatée, et elle n'y figure jamais deux fois.
pub proof fn alertes_fideles_et_uniques(c: ConstatRapport, a: Alerte)
    ensures
        alertes_attendues(c).contains(a) <==> declenchee(c, a),
        alertes_attendues(c).no_duplicates(),
        alertes_attendues(c).len() <= 4,
        alertes_attendues(c).contains(Alerte::VitesseTropBasse) <==> c.vitesse_trop_basse,
        alertes_attendues(c).contains(Alerte::VitesseTropHaute) <==> c.vitesse_trop_haute,
        alertes_attendues(c).contains(Alerte::PressionTropHaute) <==> c.pression_trop_haute,
        alertes_attendues(c).contains(Alerte::PressionTropBasse) <==> c.pression_trop_basse,
        alertes_attendues(c).len() == (if c.vitesse_trop_basse { 1int } else { 0int }) + (if c.vitesse_trop_haute { 1int } else { 0int })
            + (if c.pression_trop_haute { 1int } else { 0int }) + (if c.pression_trop_basse { 1int } else { 0int }),
        forall|i: int, j: int| 0 <= i < j < alertes_attendues(c).len() ==> rang_alerte(#[trigger] alertes_attendues(c)[i]) < rang_alerte(#[trigger] alertes_attendues(c)[j]),
{
    alertes_contenues(c, Alerte::VitesseTropBasse);
    alertes_contenues(c, Alerte::VitesseTropHaute);
    alertes_contenues(c, Alerte::PressionTropHaute);
    alertes_contenues(c, Alerte::PressionTropBasse);
    alertes_contenues(c, a);
}

/// Place d'une alerte dans la liste : vitesse basse, vitesse haute, pression haute,
/// pression basse.
pub open spec fn rang_alerte(a: Alerte) -> int {
    match a {
        Alerte::VitesseTropBasse => 0,
        Alerte::VitesseTropHaute => 1,
        Alerte::PressionTropHaute => 2,
        Alerte::PressionTropBasse => 3,
    }
}

proof fn alertes_contenues(c: ConstatRapport, a: Alerte)
    ensures
        alertes_attendues(c).contains(a) <==> declenchee(c, a),
        alertes_attendues(c).no_duplicates(),
        forall|i: int, j: int| 0 <= i < j < alertes_attendues(c).len() ==> rang_alerte(#[trigger] alertes_attendues(c)[i]) < rang_alerte(#[trigger] alertes_attendues(c)[j]),
{
    let s = alertes_attendues(c);
    if declenchee(c, a) {
        let k: int = if a == Alerte::VitesseTropBasse {
            0
        } else if a == Alerte::VitesseTropHaute {
            (if c.vitesse_trop_basse { 1int } else { 0int })
        } else if a == Alerte::PressionTropHaute {
            (if c.vitesse_trop_basse { 1int } else { 0int }) + (if c.vitesse_trop_haute { 1int } else { 0int })
        } else {
            (if c.vitesse_trop_basse { 1int } else { 0int }) + (if c.vitesse_trop_haute { 1int } else { 0int })
                + (if c.pression_trop_haute { 1int } else { 0int })
        };
        assert(s[k] == a);
    }
    assert forall|i: int, j: int| 0 <= i < s.len() && 0 <= j < s.len() && i != j implies s[i] != s[j] by {
    }
    assert forall|i: int, j: int| 0 <= i < j < s.len() implies rang_alerte(#[trigger] s[i]) < rang_alerte(#[trigger] s[j]) by {
    }
}

/// Libellé court d'une alerte, tel qu'il figure dans le rapport imprimé.
pub open spec fn libelle_court(a: Alerte) -> Seq<char> {
    match a {
        Alerte::PressionTropHaute => "P.haute"@,
        Alerte::PressionTropBasse => "P.basse"@,
        Alerte::VitesseTropBasse => "V.basse"@,
        Alerte::VitesseTropHaute => "V.haute"@,
    }
}

/// Libellé d'une alerte, tel qu'il s'affiche à l'écran.
pub open spec fn libelle_ecran(a: Alerte) -> Seq<char> {
    match a {
        Alerte::PressionTropHaute => "P. haute"@,
        Alerte::PressionTropBasse => "P. basse"@,
        Alerte::VitesseTropBasse => "V. basse"@,
        Alerte::VitesseTropHaute => "V. haute"@,
    }
}

impl Alerte {
    /// Libellé court (rapport imprimé).
    pub fn libelle_compact(&self) -> (s: &'static str)
        ensures
            s@ == libelle_court(*self),
    {
        match self {
            Alerte::PressionTropHaute => "P.haute",
            Alerte::PressionTropBasse => "P.basse",
            Alerte::VitesseTropBasse => "V.basse",
            Alerte::VitesseTropHaute => "V.haute",
        }
    }

    /// Libellé affiché à l'écran.
    pub fn libelle(&self) -> (s: &'static str)
        ensures
            s@ == libelle_ecran(*self),
    {
        match self {
            Alerte::PressionTropHaute => "P. haute",
            Alerte::PressionTropBasse => "P. basse",
            Alerte::VitesseTropBasse => "V. basse",
            Alerte::VitesseTropHaute => "V. haute",
        }
    }
}

/// Concaténation de morceaux de texte séparés par `sep`.
pub open spec fn joindre(morceaux: Seq<Seq<char>>, sep: Seq<char>) -> Seq<char>
    decreases morceaux.len(),
{
    if morceaux.len() == 0 {
        Seq::empty()
    } else if morceaux.len() == 1 {
        morceaux[0]
    } else {
        joindre(morceaux.drop_last(), sep) + sep + morceaux.last()
    }
}

/// Texte de la colonne « Alertes » du rapport imprimé : `OK` sans alerte, sinon les
/// libellés courts séparés par une virgule.
pub open spec fn texte_alertes_imprime(alertes: Seq<Alerte>) -> Seq<char> {
    if alertes.len() == 0 {
        "OK"@
    } else {
        joindre(alertes.map_values(|a: Alerte| libelle_court(a)), ", "@)
    }
}

/// Texte des alertes à l'écran : les libellés séparés par une virgule.
pub open spec fn texte_alertes_ecran(alertes: Seq<Alerte>) -> Seq<char> {
    joindre(alertes.map_values(|a: Alerte| libelle_ecran(a)), ", "@)
}

/// Un texte joint commence par le premier caractère du premier morceau.
proof fn joindre_commence_par_le_premier(morceaux: Seq<Seq<char>>, sep: Seq<char>)
    requires
        morceaux.len() > 0,
        morceaux[0].len() > 0,
    ensures
        joindre(morceaux, sep).len() > 0,
        joindre(morceaux, sep)[0] == morceaux[0][0],
    decreases morceaux.len(),
{
    if morceaux.len() > 1 {
        let debut = morceaux.drop_last();
        joindre_commence_par_le_premier(debut, sep);
        assert(debut[0] == morceaux[0]);
    }
}

/// La colonne « Alertes » du rapport imprimé vaut `OK` si et seulement si le
/// rapport n'a aucune alerte.
pub proof fn ok_seulement_sans_alerte(alertes: Seq<Alerte>)
    ensures
        (texte_alertes_imprime(alertes) == "OK"@) <==> alertes.len() == 0,
{
    if alertes.len() > 0 {
        let morceaux = alertes.map_values(|a: Alerte| libelle_court(a));
        reveal_strlit("OK");
        reveal_strlit("P.haute");
        reveal_strlit("P.basse");
        reveal_strlit("V.basse");
        reveal_strlit("V.haute");
        assert(morceaux[0] == libelle_court(alertes[0]));
        assert(morceaux[0].len() > 0);
        joindre_commence_par_le_premier(morceaux, ", "@);
        assert(morceaux[0][0] != 'O');
        assert(texte_alertes_imprime(alertes)[0] != "OK"@[0]);
    }
}

/// Le libellé court d'une alerte dit ce qu'elle signale : `P` pour la pression, `V`
/// pour la vitesse, un point, puis `haute` ou `basse` selon le sens ; le libellé
/// d'écran est le même avec une espace après le point. Deux alertes différentes
/// n'ont jamais le même libellé.
pub proof fn libelles_fideles(a: Alerte, b: Alerte)
    ensures
        libelle_court(a).len() == 7,
        libelle_court(a)[0] == (if a is PressionTropHaute || a is PressionTropBasse { 'P' } else { 'V' }),
        libelle_court(a)[1] == '.',
        libelle_court(a).skip(2) == (if a is PressionTropHaute || a is VitesseTropHaute { "haute"@ } else { "basse"@ }),
        libelle_ecran(a) == libelle_court(a).take(2) + " "@ + libelle_court(a).skip(2),
        a != b ==> libelle_court(a) != libelle_court(b),
        a != b ==> libelle_ecran(a) != libelle_ecran(b),
{
    reveal_strlit("P.haute");
    reveal_strlit("P.basse");
    reveal_strlit("V.basse");
    reveal_strlit("V.haute");
    reveal_strlit("P. haute");
    reveal_strlit("P. basse");
    reveal_strlit("V. basse");
    reveal_strlit("V. haute");
    reveal_strlit("haute");
    reveal_strlit("basse");
    reveal_strlit(" ");
    let c = libelle_court(a);
    assert(c.skip(2) =~= (if a is PressionTropHaute || a is VitesseTropHaute { "haute"@ } else { "basse"@ }));
    assert(libelle_ecran(a) =~= c.take(2) + " "@ + c.skip(2));
    if a != b {
        let d = libelle_court(b);
        if a is PressionTropHaute || a is PressionTropBasse {
            if !(b is PressionTropHaute || b is PressionTropBasse) {
                assert(c[0] != d[0]);
            } else {
                assert(c[2] != d[2]);
            }
        } else {
            if b is PressionTropHaute || b is PressionTropBasse {
                assert(c[0] != d[0]);
            } else {
                assert(c[2] != d[2]);
            }
        }
        let e = libelle_ecran(a);
        let f = libelle_ecran(b);
        if a is PressionTropHaute || a is PressionTropBasse {
            if !(b is PressionTropHaute || b is PressionTropBasse) {
                assert(e[0] != f[0]);
            } else {
                assert(e[3] != f[3]);
            }
        } else {
            if b is PressionTropHaute || b is PressionTropBasse {
                assert(e[0] != f[0]);
            } else {
                assert(e[3] != f[3]);
            }
        }
    }
}

/// Joindre un seul morceau le rend tel quel ; ajouter un morceau à une liste non
/// vide ajoute le séparateur puis ce morceau.
pub proof fn joindre_morceau_par_morceau(morceaux: Seq<Seq<char>>, x: Seq<char>, sep: Seq<char>)
    ensures
        joindre(seq![x], sep) == x,
        morceaux.len() > 0 ==> joindre(morceaux.push(x), sep) == joindre(morceaux, sep) + sep + x,
        joindre(Seq::<Seq<char>>::empty(), sep).len() == 0,
{
    assert(seq![x].len() == 1);
    if morceaux.len() > 0 {
        assert(morceaux.push(x).drop_last() =~= morceaux);
    }
}

/// La colonne imprimée d'un rapport qui a des alertes est la jointure par `", "`
/// des libellés courts de ses alertes, dans leur ordre ; une seule alerte s'y lit
/// par son libellé court.
pub proof fn texte_imprime_des_alertes(alertes: Seq<Alerte>, a: Alerte)
    ensures
        alertes.len() > 0 ==> texte_alertes_imprime(alertes) == joindre(
            alertes.map_values(|x: Alerte| libelle_court(x)),
            ", "@,
        ),
        texte_alertes_imprime(seq![a]) == libelle_court(a),
        alertes.len() > 0 ==> texte_alertes_imprime(alertes.push(a)) == texte_alertes_imprime(alertes)
            + ", "@ + libelle_court(a),
{
    let un = seq![a].map_values(|x: Alerte| libelle_court(x));
    assert(un =~= seq![libelle_court(a)]);
    joindre_morceau_par_morceau(Seq::empty(), libelle_court(a), ", "@);
    if alertes.len() > 0 {
        let m = alertes.map_values(|x: Alerte| libelle_court(x));
        assert(alertes.push(a).map_values(|x: Alerte| libelle_court(x)) =~= m.push(libelle_court(a)));
        joindre_morceau_par_morceau(m, libelle_court(a), ", "@);
    }
}

/// Le texte des alertes à l'écran est la jointure par `", "` des libellés d'écran,
/// dans leur ordre : vide sans alerte, le libellé seul pour une alerte.
pub proof fn texte_ecran_des_alertes(alertes: Seq<Alerte>, a: Alerte)
    ensures
        texte_alertes_ecran(alertes) == joindre(alertes.map_values(|x: Alerte| libelle_ecran(x)), ", "@),
        texte_alertes_ecran(Seq::<Alerte>::empty()).len() == 0,
        texte_alertes_ecran(seq![a]) == libelle_ecran(a),
        alertes.len() > 0 ==> texte_alertes_ecran(alertes.push(a)) == texte_alertes_ecran(alertes) + ", "@
            + libelle_ecran(a),
{
    let un = seq![a].map_values(|x: Alerte| libelle_ecran(x));
    assert(un =~= seq![libelle_ecran(a)]);
    joindre_morceau_par_morceau(Seq::empty(), libelle_ecran(a), ", "@);
    assert(Seq::<Alerte>::empty().map_values(|x: Alerte| libelle_ecran(x)) =~= Seq::<Seq<char>>::empty());
    if alertes.len() > 0 {
        let m = alertes.map_values(|x: Alerte| libelle_ecran(x));
        assert(alertes.push(a).map_values(|x: Alerte| libelle_ecran(x)) =~= m.push(libelle_ecran(a)));
        joindre_morceau_par_morceau(m, libelle_ecran(a), ", "@);
    }
}

/// Joint les libellés (courts ou d'écran) des alertes, séparés par `", "`.
fn joindre_libelles(alertes: &Vec<Alerte>, court: bool) -> (s: String)
    ensures
        court ==> s@ == joindre(alertes@.map_values(|a: Alerte| libelle_court(a)), ", "@),
        !court ==> s@ == joindre(alertes@.map_values(|a: Alerte| libelle_ecran(a)), ", "@),
{
    let ghost morceaux = if court {
        alertes@.map_values(|a: Alerte| libelle_court(a))
    } else {
        alertes@.map_values(|a: Alerte| libelle_ecran(a))
    };
    let mut s = String::new();
    let mut i: usize = 0;
    while i < alertes.len()
        invariant
            i <= alertes.len(),
            morceaux.len() == alertes@.len(),
            morceaux == (if court {
                alertes@.map_values(|a: Alerte| libelle_court(a))
            } else {
                alertes@.map_values(|a: Alerte| libelle_ecran(a))
            }),
            s@ == joindre(morceaux.take(i as int), ", "@),
        decreases alertes.len() - i,
    {
        if i > 0 {
            s.append(", ");
        }
        let libelle = if court {
            alertes[i].libelle_compact()
        } else {
            alertes[i].libelle()
        };
        s.append(libelle);
        proof {
            assert(morceaux.take(i as int + 1).drop_last() =~= morceaux.take(i as int));
            assert(morceaux.take(i as int + 1).last() == morceaux[i as int]);
        }
        i = i + 1;
    }
    proof {
        assert(morceaux.take(alertes@.len() as int) =~= morceaux);
    }
    s
}

/// Colonne « Alertes » du rapport imprimé.
pub fn format_alertes(alertes: &Vec<Alerte>) -> (s: String)
    ensures
        s@ == texte_alertes_imprime(alertes@),
{
    if alertes.len() == 0 {
        String::from_str("OK")
    } else {
        joindre_libelles(alertes, true)
    }
}

/// Alertes d'un rapport telles qu'affichées à l'écran (vide s'il n'y en a pas).
pub fn resume_alertes(alertes: &Vec<Alerte>) -> (s: String)
    ensures
        s@ == texte_alertes_ecran(alertes@),
{
    joindre_libelles(alertes, false)
}

} // verus!
