//! Lecture des champs saisis : séparateur décimal français et ordre de validation.

use vstd::prelude::*;

verus! {

/// Texte où chaque virgule est remplacée par un point, tout autre caractère
/// restant en place.
pub open spec fn decimale_normalisee(s: Seq<char>) -> Seq<char> {
    s.map_values(|c: char| if c == ',' { '.' } else { c })
}

/// Ajoute un caractère au bout d'une chaîne.
///
/// Appelle `String::push` ; on admet, comme sa documentation l'indique, que la
/// chaîne obtenue est l'ancienne suivie du caractère.
#[verifier::external_body]
fn pousser_caractere(s: &mut String, c: char)
    ensures
        final(s)@ == old(s)@.push(c),
{
    s.push(c);
}

/// Prépare un nombre saisi avec la virgule décimale française pour sa lecture :
/// chaque `,` devient `.`.
pub fn normaliser_decimal(s: &str) -> (r: String)
    ensures
        r@ == decimale_normalisee(s@),
{
    let mut r = String::new();
    for c in it: s.chars()
        invariant
            it.seq() == s@,
            r@ == decimale_normalisee(s@.take(it.index() as int)),
    {
        let ghost avant = r@;
        if c == ',' {
            pousser_caractere(&mut r, '.');
        } else {
            pousser_caractere(&mut r, c);
        }
        proof {
            assert(decimale_normalisee(s@.take(it.index() as int + 1)) =~= avant.push(
                if c == ',' { '.' } else { c },
            ));
        }
    }
    proof {
        assert(s@.take(s@.len() as int) =~= s@);
    }
    r
}

/// La normalisation ne laisse aucune virgule, conserve la longueur et ne touche
/// qu'aux virgules ; l'appliquer deux fois revient à l'appliquer une fois.
pub proof fn normalisation_sans_virgule(s: Seq<char>)
    ensures
        decimale_normalisee(s).len() == s.len(),
        !decimale_normalisee(s).contains(','),
        forall|i: int| 0 <= i < s.len() && s[i] != ',' ==> #[trigger] decimale_normalisee(s)[i] == s[i],
        forall|i: int| 0 <= i < s.len() && s[i] == ',' ==> #[trigger] decimale_normalisee(s)[i] == '.',
        decimale_normalisee(decimale_normalisee(s)) == decimale_normalisee(s),
{
    let n = decimale_normalisee(s);
    assert(decimale_normalisee(n) =~= n);
}

/// Champs de l'onglet Calcul, dans l'ordre où ils sont vérifiés.
#[derive(Debug, Clone, Copy, PartialEq, Eq, Structural)]
pub enum Champ {
    Volume,
    Surface,
    Dose,
    Largeur,
    Citerne,
    PtoMin,
    PtoMax,
}

/// Rang d'un champ dans l'ordre de vérification.
pub open spec fn rang(c: Champ) -> nat {
    match c {
        Champ::Volume => 0,
        Champ::Surface => 1,
        Champ::Dose => 2,
        Champ::Largeur => 3,
        Champ::Citerne => 4,
        Champ::PtoMin => 5,
        Champ::PtoMax => 6,
    }
}

/// Message d'erreur affiché pour un champ invalide.
pub open spec fn message_champ(c: Champ) -> Seq<char> {
    match c {
        Champ::Volume => "Volume L/ha invalide"@,
        Champ::Surface => "Surface invalide"@,
        Champ::Dose => "Dose produit invalide"@,
        Champ::Largeur => "Largeur inter-rangs invalide"@,
        Champ::Citerne => "Volume citerne invalide"@,
        Champ::PtoMin => "PTO min invalide"@,
        Champ::PtoMax => "PTO max invalide"@,
    }
}

impl Champ {
    /// Message d'erreur du champ.
    pub fn message(&self) -> (s: &'static str)
        ensures
            s@ == message_champ(*self),
    {
        match self {
            Champ::Volume => "Volume L/ha invalide",
            Champ::Surface => "Surface invalide",
            Champ::Dose => "Dose produit invalide",
            Champ::Largeur => "Largeur inter-rangs invalide",
            Champ::Citerne => "Volume citerne invalide",
            Champ::PtoMin => "PTO min invalide",
            Champ::PtoMax => "PTO max invalide",
        }
    }
}

/// Validité de chaque champ saisi : le texte se lit comme un nombre strictement
/// positif (positif ou nul pour la dose).
#[derive(Debug, Clone, Copy, PartialEq, Eq, Structural)]
pub struct ValiditeSaisie {
    pub volume: bool,
    pub surface: bool,
    pub dose: bool,
    pub largeur: bool,
    pub citerne: bool,
    pub pto_min: bool,
    pub pto_max: bool,
}

/// Validité d'un champ donné.
pub open spec fn champ_valide(v: ValiditeSaisie, c: Champ) -> bool {
    match c {
        Champ::Volume => v.volume,
        Champ::Surface => v.surface,
        Champ::Dose => v.dose,
        Champ::Largeur => v.largeur,
        Champ::Citerne => v.citerne,
        Champ::PtoMin => v.pto_min,
        Champ::PtoMax => v.pto_max,
    }
}

/// Rang du premier champ invalide, ou 7 si tous sont valides.
pub open spec fn rang_premier_invalide(v: ValiditeSaisie) -> nat {
    if !v.volume {
        0
    } else if !v.surface {
        1
    } else if !v.dose {
        2
    } else if !v.largeur {
        3
    } else if !v.citerne {
        4
    } else if !v.pto_min {
        5
    } else if !v.pto_max {
        6
    } else {
        7
    }
}

/// Champ de rang donné (0 à 6).
pub open spec fn champ_de_rang(k: nat) -> Champ {
    if k == 0 {
        Champ::Volume
    } else if k == 1 {
        Champ::Surface
    } else if k == 2 {
        Champ::Dose
    } else if k == 3 {
        Champ::Largeur
    } else if k == 4 {
        Champ::Citerne
    } else if k == 5 {
        Champ::PtoMin
    } else {
        Champ::PtoMax
    }
}

/// Premier champ invalide dans l'ordre de vérification, s'il y en a un.
pub open spec fn premier_invalide(v: ValiditeSaisie) -> Option<Champ> {
    let k = rang_premier_invalide(v);
    if k == 7 {
        None
    } else {
        Some(champ_de_rang(k))
    }
}

/// Champs de configuration, dans l'ordre de vérification.
pub open spec fn champs_configuration() -> Seq<Champ> {
    seq![Champ::Largeur, Champ::Citerne, Champ::PtoMin, Champ::PtoMax]
}

/// Champs de configuration repris dans la configuration active : ceux qui sont
/// vérifiés avant le premier champ invalide.
pub open spec fn champs_repris(v: ValiditeSaisie) -> Seq<Champ> {
    let k = rang_premier_invalide(v);
    champs_configuration().take(if k <= 3 { 0int } else { k - 3 })
}

/// Vérifie les champs dans l'ordre volume, surface, dose, largeur, citerne,
/// PTO min, PTO max et renvoie le premier invalide.
pub fn premier_champ_invalide(v: &ValiditeSaisie) -> (r: Option<Champ>)
    ensures
        r == premier_invalide(*v),
{
    if !v.volume {
        Some(Champ::Volume)
    } else if !v.surface {
        Some(Champ::Surface)
    } else if !v.dose {
        Some(Champ::Dose)
    } else if !v.largeur {
        Some(Champ::Largeur)
    } else if !v.citerne {
        Some(Champ::Citerne)
    } else if !v.pto_min {
        Some(Champ::PtoMin)
    } else if !v.pto_max {
        Some(Champ::PtoMax)
    } else {
        None
    }
}

/// Champs de configuration (largeur, citerne, PTO min, PTO max) dont la valeur
/// saisie est reprise dans la configuration : chacun l'est dès qu'il est vérifié,
/// avant qu'un champ suivant ne soit refusé.
pub fn champs_a_reprendre(v: &ValiditeSaisie) -> (r: Vec<Champ>)
    ensures
        r@ == champs_repris(*v),
{
    let mut r: Vec<Champ> = Vec::new();
    if v.volume && v.surface && v.dose && v.largeur {
        r.push(Champ::Largeur);
        if v.citerne {
            r.push(Champ::Citerne);
            if v.pto_min {
                r.push(Champ::PtoMin);
                if v.pto_max {
                    r.push(Champ::PtoMax);
                }
            }
        }
    }
    proof {
        let k = rang_premier_invalide(*v);
        if k <= 3 {
            assert(r@ =~= champs_configuration().take(0));
        } else if k == 4 {
            assert(r@ =~= champs_configuration().take(1));
        } else if k == 5 {
            assert(r@ =~= champs_configuration().take(2));
        } else if k == 6 {
            assert(r@ =~= champs_configuration().take(3));
        } else {
            assert(r@ =~= champs_configuration().take(4));
        }
    }
    r
}

/// Le champ refusé est invalide et tous ceux qui le précèdent sont valides ;
/// aucun champ n'est refusé si et seulement si tous sont valides. Les champs de
/// configuration repris sont exactement ceux qui précèdent le champ refusé (tous
/// s'il n'y en a pas).
pub proof fn verification_dans_l_ordre(v: ValiditeSaisie, c: Champ)
    ensures
        premier_invalide(v) is None <==> (forall|d: Champ| champ_valide(v, d)),
        premier_invalide(v) == Some(c) ==> !champ_valide(v, c) && (forall|d: Champ|
            rang(d) < rang(c) ==> #[trigger] champ_valide(v, d)),
        champs_repris(v).contains(c) <==> (champs_configuration().contains(c) && (forall|d: Champ|
            rang(d) <= rang(c) ==> #[trigger] champ_valide(v, d))),
{
    let k = rang_premier_invalide(v);
    if premier_invalide(v) is None {
        assert forall|d: Champ| champ_valide(v, d) by {
            match d {
                Champ::Volume => {},
                Champ::Surface => {},
                Champ::Dose => {},
                Champ::Largeur => {},
                Champ::Citerne => {},
                Champ::PtoMin => {},
                Champ::PtoMax => {},
            }
        }
    } else {
        let f = champ_de_rang(k);
        assert(!champ_valide(v, f));
    }
    assert(champs_configuration()[0] == Champ::Largeur);
    assert(champs_configuration()[1] == Champ::Citerne);
    assert(champs_configuration()[2] == Champ::PtoMin);
    assert(champs_configuration()[3] == Champ::PtoMax);
    if champs_repris(v).contains(c) {
        let i = choose|i: int| 0 <= i < champs_repris(v).len() && champs_repris(v)[i] == c;
        assert(champs_configuration()[i] == c);
    }
    if champs_configuration().contains(c) && (forall|d: Champ| rang(d) <= rang(c) ==> #[trigger] champ_valide(v, d)) {
        assert(champ_valide(v, Champ::Volume));
        assert(champ_valide(v, Champ::Surface));
        assert(champ_valide(v, Champ::Dose));
        assert(champ_valide(v, Champ::Largeur));
        assert(champ_valide(v, c));
        if rang(c) >= 4 { assert(champ_valide(v, Champ::Citerne)); }
        if rang(c) >= 5 { assert(champ_valide(v, Champ::PtoMin)); }
        assert(champs_repris(v)[rang(c) - 3] == c);
    }
}

/// Le champ refusé se lit directement sur les validités : le volume s'il est
/// invalide, sinon la surface, et ainsi de suite jusqu'à la PTO max ; aucun champ
/// n'est refusé quand les sept sont valides. Un champ de configuration est repris
/// exactement quand lui et tous les champs vérifiés avant lui sont valides, et les
/// champs repris gardent l'ordre de vérification.
pub proof fn refus_et_reprise_sur_les_validites(v: ValiditeSaisie)
    ensures
        premier_invalide(v) == Some(Champ::Volume) <==> !v.volume,
        premier_invalide(v) == Some(Champ::Surface) <==> v.volume && !v.surface,
        premier_invalide(v) == Some(Champ::Dose) <==> v.volume && v.surface && !v.dose,
        premier_invalide(v) == Some(Champ::Largeur) <==> v.volume && v.surface && v.dose && !v.largeur,
        premier_invalide(v) == Some(Champ::Citerne) <==> v.volume && v.surface && v.dose && v.largeur
            && !v.citerne,
        premier_invalide(v) == Some(Champ::PtoMin) <==> v.volume && v.surface && v.dose && v.largeur
            && v.citerne && !v.pto_min,
        premier_invalide(v) == Some(Champ::PtoMax) <==> v.volume && v.surface && v.dose && v.largeur
            && v.citerne && v.pto_min && !v.pto_max,
        premier_invalide(v) is None <==> v.volume && v.surface && v.dose && v.largeur && v.citerne
            && v.pto_min && v.pto_max,
        champs_repris(v).contains(Champ::Largeur) <==> v.volume && v.surface && v.dose && v.largeur,
        champs_repris(v).contains(Champ::Citerne) <==> v.volume && v.surface && v.dose && v.largeur
            && v.citerne,
        champs_repris(v).contains(Champ::PtoMin) <==> v.volume && v.surface && v.dose && v.largeur
            && v.citerne && v.pto_min,
        champs_repris(v).contains(Champ::PtoMax) <==> v.volume && v.surface && v.dose && v.largeur
            && v.citerne && v.pto_min && v.pto_max,
        !champs_repris(v).contains(Champ::Volume) && !champs_repris(v).contains(Champ::Surface)
            && !champs_repris(v).contains(Champ::Dose),
        forall|i: int, j: int| 0 <= i < j < champs_repris(v).len() ==> rang(#[trigger] champs_repris(v)[i])
            < rang(#[trigger] champs_repris(v)[j]),
{
    let r = champs_repris(v);
    let cfg = champs_configuration();
    assert(cfg[0] == Champ::Largeur);
    assert(cfg[1] == Champ::Citerne);
    assert(cfg[2] == Champ::PtoMin);
    assert(cfg[3] == Champ::PtoMax);
    assert forall|c: Champ| r.contains(c) implies cfg.contains(c) && exists|i: int| 0 <= i < r.len() && r[i] == c && cfg[i] == c by {
        let i = choose|i: int| 0 <= i < r.len() && r[i] == c;
        assert(cfg[i] == c);
    }
    let k = rang_premier_invalide(v);
    if k >= 4 { assert(r[0] == Champ::Largeur); }
    if k >= 5 { assert(r[1] == Champ::Citerne); }
    if k >= 6 { assert(r[2] == Champ::PtoMin); }
    if k >= 7 { assert(r[3] == Champ::PtoMax); }
}

/// Erreurs du formulaire d'ajout d'un produit.
#[derive(Debug, Clone, Copy, PartialEq, Eq, Structural)]
pub enum ErreurProduit {
    NomManquant,
    DoseInvalide,
}

/// Message affiché pour une erreur du formulaire produit.
pub open spec fn message_produit(e: ErreurProduit) -> Seq<char> {
    match e {
        ErreurProduit::NomManquant => "Nom du produit requis"@,
        ErreurProduit::DoseInvalide => "Dose invalide (utilisez . ou , pour les décimales)"@,
    }
}

impl ErreurProduit {
    /// Message de l'erreur.
    pub fn message(&self) -> (s: &'static str)
        ensures
            s@ == message_produit(*self),
    {
        match self {
            ErreurProduit::NomManquant => "Nom du produit requis",
            ErreurProduit::DoseInvalide => "Dose invalide (utilisez . ou , pour les décimales)",
        }
    }
}

/// Vérifie le formulaire d'ajout d'un produit : le nom est exigé, puis la dose doit
/// se lire comme un nombre (la concentration illisible vaut zéro et n'est pas une
/// erreur).
pub fn verifier_formulaire_produit(nom: &str, dose_lisible: bool) -> (r: Result<(), ErreurProduit>)
    ensures
        nom@.len() == 0 ==> r == Err::<(), ErreurProduit>(ErreurProduit::NomManquant),
        nom@.len() != 0 && !dose_lisible ==> r == Err::<(), ErreurProduit>(ErreurProduit::DoseInvalide),
        nom@.len() != 0 && dose_lisible ==> r is Ok,
{
    if nom.is_empty() {
        Err(ErreurProduit::NomManquant)
    } else if !dose_lisible {
        Err(ErreurProduit::DoseInvalide)
    } else {
        Ok(())
    }
}

} // verus!
