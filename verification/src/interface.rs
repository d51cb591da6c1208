//! Navigation et messages de l'interface : l'état non numérique de l'application
//! et son évolution à chaque événement.

use vstd::prelude::*;
use crate::saisie::{Champ, ErreurProduit, message_champ, message_produit};

verus! {

/// Onglets de l'application.
#[derive(Debug, Clone, Copy, PartialEq, Eq, Structural)]
pub enum Onglet {
    Calcul,
    Resultats,
    Produits,
    Configuration,
}

/// Message affiché sous les formulaires ; `erreur` le fait paraître en rouge,
/// sinon en vert.
#[derive(Debug)]
pub struct Message {
    pub texte: String,
    pub erreur: bool,
}

/// État de l'interface hors valeurs numériques : onglet actif, message en cours,
/// produit choisi dans le catalogue (par sa position dans la liste affichée).
#[derive(Debug)]
pub struct EtatInterface {
    pub onglet: Onglet,
    pub message: Option<Message>,
    pub produit_choisi: Option<usize>,
}

/// Vue mathématique de l'état : le message est réduit à son texte et à son genre.
pub struct VueInterface {
    pub onglet: Onglet,
    pub message: Option<(Seq<char>, bool)>,
    pub produit_choisi: Option<usize>,
}

impl View for EtatInterface {
    type V = VueInterface;

    open spec fn view(&self) -> VueInterface {
        VueInterface {
            onglet: self.onglet,
            message: match self.message {
                Some(m) => Some((m.texte@, m.erreur)),
                None => None,
            },
            produit_choisi: self.produit_choisi,
        }
    }
}

/// Ce qui arrive à l'interface : choix de l'utilisateur, ou issue d'une action
/// menée à l'extérieur (calcul, PDF, base de produits, fichier de configuration).
#[derive(Debug)]
pub enum Evenement {
    /// L'utilisateur choisit un onglet.
    OngletChoisi(Onglet),
    /// La configuration n'a pas pu être chargée ; porte l'avertissement.
    AvertissementConfiguration(String),
    /// Le calcul est refusé sur ce champ invalide.
    SaisieRefusee(Champ),
    /// Le calcul a été effectué.
    CalculEffectue,
    /// L'utilisateur demande un nouveau calcul depuis les résultats.
    NouveauCalcul,
    /// Le PDF a été généré à ce chemin et ouvert.
    PdfOuvert(String),
    /// Le PDF a été généré mais n'a pas pu être ouvert ; porte l'erreur.
    PdfNonOuvert(String),
    /// La génération du PDF a échoué ; porte l'erreur.
    PdfEchoue(String),
    /// L'utilisateur choisit un produit du catalogue (ou aucun).
    ProduitChoisi(Option<usize>),
    /// Le formulaire produit est refusé.
    ProduitRefuse(ErreurProduit),
    /// Le produit a été enregistré.
    ProduitAjoute,
    /// L'enregistrement du produit a échoué ; porte l'erreur.
    ProduitNonEnregistre(String),
    /// La configuration a été sauvegardée.
    ConfigurationSauvee,
    /// La sauvegarde de la configuration a échoué ; porte l'erreur.
    ConfigurationNonSauvee(String),
}

/// État de départ : onglet Calcul, aucun message, aucun produit choisi.
pub open spec fn vue_initiale() -> VueInterface {
    VueInterface { onglet: Onglet::Calcul, message: None, produit_choisi: None }
}

/// Vue après remplacement du message.
pub open spec fn avec_message(v: VueInterface, texte: Seq<char>, erreur: bool) -> VueInterface {
    VueInterface { onglet: v.onglet, message: Some((texte, erreur)), produit_choisi: v.produit_choisi }
}

/// Vue de l'état après un événement.
pub open spec fn vue_suivante(v: VueInterface, ev: Evenement) -> VueInterface {
    match ev {
        Evenement::OngletChoisi(o) => VueInterface { onglet: o, ..v },
        Evenement::AvertissementConfiguration(m) => avec_message(v, m@, true),
        Evenement::SaisieRefusee(c) => avec_message(v, message_champ(c), true),
        Evenement::CalculEffectue => VueInterface {
            onglet: Onglet::Resultats,
            message: None,
            produit_choisi: v.produit_choisi,
        },
        Evenement::NouveauCalcul => VueInterface { onglet: Onglet::Calcul, ..v },
        Evenement::PdfOuvert(chemin) => avec_message(v, "PDF généré: "@ + chemin@, false),
        Evenement::PdfNonOuvert(e) => avec_message(v, "Impossible d'ouvrir le PDF: "@ + e@, true),
        Evenement::PdfEchoue(e) => avec_message(v, "Erreur génération PDF: "@ + e@, true),
        Evenement::ProduitChoisi(p) => VueInterface { produit_choisi: p, ..v },
        Evenement::ProduitRefuse(e) => avec_message(v, message_produit(e), true),
        Evenement::ProduitAjoute => avec_message(v, "Produit ajouté"@, false),
        Evenement::ProduitNonEnregistre(e) => avec_message(v, "Erreur: "@ + e@, true),
        Evenement::ConfigurationSauvee => avec_message(v, "Configuration sauvegardée"@, false),
        Evenement::ConfigurationNonSauvee(e) => avec_message(v, "Erreur: "@ + e@, true),
    }
}

/// Message construit d'un préfixe et d'un détail.
fn message_compose(prefixe: &str, detail: &str, erreur: bool) -> (m: Message)
    ensures
        m.texte@ == prefixe@ + detail@,
        m.erreur == erreur,
{
    let mut texte = String::from_str(prefixe);
    texte.append(detail);
    Message { texte, erreur }
}

impl EtatInterface {
    /// État au lancement de l'application.
    pub fn initial() -> (e: EtatInterface)
        ensures
            e@ == vue_initiale(),
    {
        EtatInterface { onglet: Onglet::Calcul, message: None, produit_choisi: None }
    }

    /// Fait évoluer l'état selon un événement.
    pub fn transition(&mut self, ev: Evenement)
        ensures
            final(self)@ == vue_suivante(old(self)@, ev),
    {
        match ev {
            Evenement::OngletChoisi(o) => {
                self.onglet = o;
            },
            Evenement::AvertissementConfiguration(m) => {
                self.message = Some(Message { texte: m, erreur: true });
            },
            Evenement::SaisieRefusee(c) => {
                self.message = Some(Message { texte: String::from_str(c.message()), erreur: true });
            },
            Evenement::CalculEffectue => {
                self.message = None;
                self.onglet = Onglet::Resultats;
            },
            Evenement::NouveauCalcul => {
                self.onglet = Onglet::Calcul;
            },
            Evenement::PdfOuvert(chemin) => {
                self.message = Some(message_compose("PDF généré: ", chemin.as_str(), false));
            },
            Evenement::PdfNonOuvert(e) => {
                self.message = Some(message_compose("Impossible d'ouvrir le PDF: ", e.as_str(), true));
            },
            Evenement::PdfEchoue(e) => {
                self.message = Some(message_compose("Erreur génération PDF: ", e.as_str(), true));
            },
            Evenement::ProduitChoisi(p) => {
                self.produit_choisi = p;
            },
            Evenement::ProduitRefuse(e) => {
                self.message = Some(Message { texte: String::from_str(e.message()), erreur: true });
            },
            Evenement::ProduitAjoute => {
                self.message = Some(Message { texte: String::from_str("Produit ajouté"), erreur: false });
            },
            Evenement::ProduitNonEnregistre(e) => {
                self.message = Some(message_compose("Erreur: ", e.as_str(), true));
            },
            Evenement::ConfigurationSauvee => {
                self.message = Some(
                    Message { texte: String::from_str("Configuration sauvegardée"), erreur: false },
                );
            },
            Evenement::ConfigurationNonSauvee(e) => {
                self.message = Some(message_compose("Erreur: ", e.as_str(), true));
            },
        }
    }
}

/// Un calcul effectué mène toujours à l'onglet Résultats sans message ; un calcul
/// refusé laisse l'onglet en place et affiche l'erreur du champ ; seuls le choix
/// d'onglet, le calcul effectué et le nouveau calcul changent d'onglet ; seul le
/// choix d'un produit change le produit choisi.
pub proof fn calcul_mene_aux_resultats(v: VueInterface, ev: Evenement)
    ensures
        ev is CalculEffectue ==> vue_suivante(v, ev).onglet == Onglet::Resultats
            && vue_suivante(v, ev).message is None,
        ev matches Evenement::SaisieRefusee(c) ==> vue_suivante(v, ev).onglet == v.onglet
            && vue_suivante(v, ev).message == Some((message_champ(c), true)),
        !(ev is OngletChoisi) && !(ev is CalculEffectue) && !(ev is NouveauCalcul)
            ==> vue_suivante(v, ev).onglet == v.onglet,
        !(ev is ProduitChoisi) ==> vue_suivante(v, ev).produit_choisi == v.produit_choisi,
{
}

/// Les choix de l'utilisateur sont pris tels quels : l'onglet choisi devient
/// l'onglet actif, le produit choisi (quelle que soit sa position, ou aucun)
/// devient le produit retenu, un nouveau calcul ramène à l'onglet Calcul ; chacun
/// de ces événements laisse le reste de l'état en place.
pub proof fn choix_pris_tels_quels(v: VueInterface, o: Onglet, p: Option<usize>)
    ensures
        vue_suivante(v, Evenement::OngletChoisi(o)).onglet == o,
        vue_suivante(v, Evenement::OngletChoisi(o)).message == v.message,
        vue_suivante(v, Evenement::OngletChoisi(o)).produit_choisi == v.produit_choisi,
        vue_suivante(v, Evenement::ProduitChoisi(p)).produit_choisi == p,
        vue_suivante(v, Evenement::ProduitChoisi(p)).onglet == v.onglet,
        vue_suivante(v, Evenement::ProduitChoisi(p)).message == v.message,
        vue_suivante(v, Evenement::NouveauCalcul).onglet == Onglet::Calcul,
        vue_suivante(v, Evenement::NouveauCalcul).message == v.message,
        vue_suivante(v, Evenement::NouveauCalcul).produit_choisi == v.produit_choisi,
        vue_suivante(v, Evenement::CalculEffectue).produit_choisi == v.produit_choisi,
{
}

/// Texte `t` qui se termine par `d`.
pub open spec fn se_termine_par(t: Seq<char>, d: Seq<char>) -> bool {
    t.len() >= d.len() && t.subrange(t.len() - d.len(), t.len() as int) == d
}

/// Chaque issue d'une action extérieure affiche un message : une erreur pour un
/// échec ou un avertissement, une information pour une réussite ; le message se
/// termine par le détail porté par l'événement (chemin du PDF, texte de l'erreur).
/// Un champ refusé affiche le message de ce champ, et deux champs différents n'ont
/// pas le même message ; de même pour les deux erreurs du formulaire produit.
pub proof fn messages_des_issues(v: VueInterface, d: String, c: Champ, c2: Champ, e: ErreurProduit, e2: ErreurProduit)
    ensures
        vue_suivante(v, Evenement::PdfOuvert(d)).message matches Some((t, err)) && !err && se_termine_par(t, d@),
        vue_suivante(v, Evenement::PdfNonOuvert(d)).message matches Some((t, err)) && err && se_termine_par(t, d@),
        vue_suivante(v, Evenement::PdfEchoue(d)).message matches Some((t, err)) && err && se_termine_par(t, d@),
        vue_suivante(v, Evenement::ProduitNonEnregistre(d)).message matches Some((t, err)) && err && se_termine_par(t, d@),
        vue_suivante(v, Evenement::ConfigurationNonSauvee(d)).message matches Some((t, err)) && err && se_termine_par(t, d@),
        vue_suivante(v, Evenement::AvertissementConfiguration(d)).message == Some((d@, true)),
        vue_suivante(v, Evenement::ProduitAjoute).message matches Some((t, err)) && !err,
        vue_suivante(v, Evenement::ConfigurationSauvee).message matches Some((t, err)) && !err,
        vue_suivante(v, Evenement::SaisieRefusee(c)).message == Some((message_champ(c), true)),
        vue_suivante(v, Evenement::ProduitRefuse(e)).message == Some((message_produit(e), true)),
        c != c2 ==> message_champ(c) != message_champ(c2),
        e != e2 ==> message_produit(e) != message_produit(e2),
{
    let t1 = "PDF généré: "@ + d@;
    assert(t1.subrange(t1.len() - d@.len(), t1.len() as int) =~= d@);
    let t2 = "Impossible d'ouvrir le PDF: "@ + d@;
    assert(t2.subrange(t2.len() - d@.len(), t2.len() as int) =~= d@);
    let t3 = "Erreur génération PDF: "@ + d@;
    assert(t3.subrange(t3.len() - d@.len(), t3.len() as int) =~= d@);
    let t4 = "Erreur: "@ + d@;
    assert(t4.subrange(t4.len() - d@.len(), t4.len() as int) =~= d@);
    if c != c2 {
        reveal_strlit("Volume L/ha invalide");
        reveal_strlit("Surface invalide");
        reveal_strlit("Dose produit invalide");
        reveal_strlit("Largeur inter-rangs invalide");
        reveal_strlit("Volume citerne invalide");
        reveal_strlit("PTO min invalide");
        reveal_strlit("PTO max invalide");
        let m1 = message_champ(c);
        let m2 = message_champ(c2);
        if m1.len() == m2.len() {
            if m1.len() == 16 {
                // « Surface invalide », « PTO min invalide », « PTO max invalide »
                if m1[0] == m2[0] {
                    assert(m1[5] != m2[5]);
                } else {
                    assert(m1[0] != m2[0]);
                }
            } else {
                assert(m1 != m2);
            }
        }
    }
    if e != e2 {
        reveal_strlit("Nom du produit requis");
        reveal_strlit("Dose invalide (utilisez . ou , pour les décimales)");
        assert(message_produit(e)[0] != message_produit(e2)[0]);
    }
}

} // verus!
