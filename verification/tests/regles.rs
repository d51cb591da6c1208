use pulve_calc::alerte::{alertes_rapport, format_alertes, resume_alertes, Alerte, ConstatRapport};
use pulve_calc::catalogue::{exiger_identifiant, supprimer_ligne};
use pulve_calc::chargement::{decider_chargement, IssueLecture};
use pulve_calc::citerne::{est_derniere_citerne, numero_citerne, remplissage};
use pulve_calc::interface::{EtatInterface, Evenement, Onglet};
use pulve_calc::materiel::buses_effectives;
use pulve_calc::saisie::{
    champs_a_reprendre, normaliser_decimal, premier_champ_invalide, verifier_formulaire_produit,
    Champ, ErreurProduit, ValiditeSaisie,
};

fn constat(vb: bool, vh: bool, ph: bool, pb: bool) -> ConstatRapport {
    ConstatRapport {
        vitesse_trop_basse: vb,
        vitesse_trop_haute: vh,
        pression_trop_haute: ph,
        pression_trop_basse: pb,
    }
}

fn tout_valide() -> ValiditeSaisie {
    ValiditeSaisie {
        volume: true,
        surface: true,
        dose: true,
        largeur: true,
        citerne: true,
        pto_min: true,
        pto_max: true,
    }
}

#[test]
fn alertes_dans_l_ordre_fixe() {
    assert_eq!(
        alertes_rapport(constat(true, true, true, true)),
        vec![
            Alerte::VitesseTropBasse,
            Alerte::VitesseTropHaute,
            Alerte::PressionTropHaute,
            Alerte::PressionTropBasse
        ]
    );
    assert_eq!(alertes_rapport(constat(false, false, false, false)), vec![]);
}

#[test]
fn rapport_long_cumule_vitesse_et_pression_hautes() {
    let a = alertes_rapport(constat(false, true, true, false));
    assert_eq!(a, vec![Alerte::VitesseTropHaute, Alerte::PressionTropHaute]);
    assert!(a.contains(&Alerte::VitesseTropHaute));
    assert!(a.contains(&Alerte::PressionTropHaute));
}

#[test]
fn alerte_presente_seulement_si_constatee() {
    let a = alertes_rapport(constat(false, false, false, true));
    assert_eq!(a, vec![Alerte::PressionTropBasse]);
    let a = alertes_rapport(constat(true, false, false, false));
    assert_eq!(a, vec![Alerte::VitesseTropBasse]);
}

#[test]
fn colonne_alertes_imprimee() {
    assert_eq!(format_alertes(&vec![]), "OK");
    assert_eq!(format_alertes(&vec![Alerte::PressionTropHaute]), "P.haute");
    assert_eq!(
        format_alertes(&vec![Alerte::VitesseTropHaute, Alerte::PressionTropHaute]),
        "V.haute, P.haute"
    );
    assert_eq!(
        format_alertes(&vec![Alerte::VitesseTropBasse, Alerte::PressionTropBasse]),
        "V.basse, P.basse"
    );
}

#[test]
fn alertes_a_l_ecran() {
    assert_eq!(resume_alertes(&vec![]), "");
    assert_eq!(
        resume_alertes(&vec![Alerte::VitesseTropHaute, Alerte::PressionTropHaute]),
        "V. haute, P. haute"
    );
    assert_eq!(resume_alertes(&vec![Alerte::PressionTropBasse]), "P. basse");
    assert_eq!(Alerte::VitesseTropBasse.libelle(), "V. basse");
    assert_eq!(Alerte::VitesseTropBasse.libelle_compact(), "V.basse");
}

#[test]
fn virgule_decimale_francaise() {
    assert_eq!(normaliser_decimal("0,5"), "0.5");
    assert_eq!(normaliser_decimal("800"), "800");
    assert_eq!(normaliser_decimal("1,2,3"), "1.2.3");
    assert_eq!(normaliser_decimal(""), "");
    assert_eq!(normaliser_decimal("3.6"), "3.6");
    assert_eq!(normaliser_decimal("é,ç"), "é.ç");
    let n = normaliser_decimal("2,015");
    assert_eq!(n.parse::<f64>().unwrap(), 2.015);
    assert_eq!(normaliser_decimal(&normaliser_decimal("4,0")), normaliser_decimal("4,0"));
}

#[test]
fn saisie_verifiee_dans_l_ordre() {
    assert_eq!(premier_champ_invalide(&tout_valide()), None);
    let mut v = tout_valide();
    v.dose = false;
    v.citerne = false;
    assert_eq!(premier_champ_invalide(&v), Some(Champ::Dose));
    assert_eq!(champs_a_reprendre(&v), vec![]);
    let mut v = tout_valide();
    v.pto_min = false;
    assert_eq!(premier_champ_invalide(&v), Some(Champ::PtoMin));
    assert_eq!(champs_a_reprendre(&v), vec![Champ::Largeur, Champ::Citerne]);
    assert_eq!(
        champs_a_reprendre(&tout_valide()),
        vec![Champ::Largeur, Champ::Citerne, Champ::PtoMin, Champ::PtoMax]
    );
    let mut v = tout_valide();
    v.volume = false;
    v.pto_max = false;
    assert_eq!(premier_champ_invalide(&v), Some(Champ::Volume));
}

#[test]
fn messages_des_champs() {
    assert_eq!(Champ::Volume.message(), "Volume L/ha invalide");
    assert_eq!(Champ::Surface.message(), "Surface invalide");
    assert_eq!(Champ::Dose.message(), "Dose produit invalide");
    assert_eq!(Champ::Largeur.message(), "Largeur inter-rangs invalide");
    assert_eq!(Champ::Citerne.message(), "Volume citerne invalide");
    assert_eq!(Champ::PtoMin.message(), "PTO min invalide");
    assert_eq!(Champ::PtoMax.message(), "PTO max invalide");
}

#[test]
fn formulaire_produit() {
    assert_eq!(verifier_formulaire_produit("", true), Err(ErreurProduit::NomManquant));
    assert_eq!(verifier_formulaire_produit("", false), Err(ErreurProduit::NomManquant));
    assert_eq!(verifier_formulaire_produit("Airone", false), Err(ErreurProduit::DoseInvalide));
    assert_eq!(verifier_formulaire_produit("Airone", true), Ok(()));
    assert_eq!(ErreurProduit::NomManquant.message(), "Nom du produit requis");
    assert_eq!(
        ErreurProduit::DoseInvalide.message(),
        "Dose invalide (utilisez . ou , pour les décimales)"
    );
}

#[test]
fn identifiant_exige_pour_la_mise_a_jour() {
    assert_eq!(exiger_identifiant(Some(7)), Ok(7));
    assert_eq!(exiger_identifiant(None), Err("Produit sans ID".to_string()));
}

#[test]
fn chargement_de_la_configuration() {
    let d = decider_chargement("/home/u/.config/pulve-calc/config.toml", &IssueLecture::Absent);
    assert!(d.utiliser_defaut);
    assert!(d.ecrire_defauts);
    assert_eq!(d.avertissement, None);
    let d = decider_chargement("c.toml", &IssueLecture::Lu);
    assert!(!d.utiliser_defaut);
    assert!(!d.ecrire_defauts);
    assert_eq!(d.avertissement, None);
    let d = decider_chargement("c.toml", &IssueLecture::Illisible("permission refusée".into()));
    assert!(d.utiliser_defaut);
    assert!(!d.ecrire_defauts);
    assert_eq!(
        d.avertissement.as_deref(),
        Some("Impossible de lire c.toml: permission refusée")
    );
    let d = decider_chargement("c.toml", &IssueLecture::Corrompu("ligne 3".into()));
    assert!(d.utiliser_defaut);
    assert!(!d.ecrire_defauts);
    assert_eq!(
        d.avertissement.as_deref(),
        Some("Config corrompue (c.toml), utilisation des défauts: ligne 3")
    );
}

#[test]
fn citernes_pleines_puis_reliquat() {
    // 400 L en citernes de 200 L : deux citernes, la seconde reçoit le reliquat.
    assert_eq!(numero_citerne(0, 2), 1);
    assert_eq!(numero_citerne(1, 2), 2);
    assert!(!est_derniere_citerne(0, 2));
    assert!(est_derniere_citerne(1, 2));
    assert_eq!(remplissage(0, 3, 200.0, 50.0), 200.0);
    assert_eq!(remplissage(1, 3, 200.0, 50.0), 200.0);
    assert_eq!(remplissage(2, 3, 200.0, 50.0), 50.0);
    assert_eq!(remplissage(0, 1, 0.9, 0.45), 0.45);
}

#[test]
fn zero_buse_compte_pour_une() {
    assert_eq!(buses_effectives(0), 1);
    assert_eq!(buses_effectives(1), 1);
    assert_eq!(buses_effectives(10), 10);
}

#[test]
fn navigation_apres_calcul() {
    let mut e = EtatInterface::initial();
    assert_eq!(e.onglet, Onglet::Calcul);
    assert!(e.message.is_none());
    e.transition(Evenement::SaisieRefusee(Champ::Surface));
    assert_eq!(e.onglet, Onglet::Calcul);
    let m = e.message.as_ref().unwrap();
    assert_eq!(m.texte, "Surface invalide");
    assert!(m.erreur);
    e.transition(Evenement::CalculEffectue);
    assert_eq!(e.onglet, Onglet::Resultats);
    assert!(e.message.is_none());
    e.transition(Evenement::NouveauCalcul);
    assert_eq!(e.onglet, Onglet::Calcul);
    e.transition(Evenement::OngletChoisi(Onglet::Produits));
    assert_eq!(e.onglet, Onglet::Produits);
}

#[test]
fn messages_de_l_interface() {
    let mut e = EtatInterface::initial();
    e.transition(Evenement::PdfOuvert("/tmp/pulve-calc-resultats.pdf".into()));
    let m = e.message.as_ref().unwrap();
    assert_eq!(m.texte, "PDF généré: /tmp/pulve-calc-resultats.pdf");
    assert!(!m.erreur);
    e.transition(Evenement::PdfNonOuvert("aucun visualiseur".into()));
    assert_eq!(e.message.as_ref().unwrap().texte, "Impossible d'ouvrir le PDF: aucun visualiseur");
    assert!(e.message.as_ref().unwrap().erreur);
    e.transition(Evenement::PdfEchoue("disque plein".into()));
    assert_eq!(e.message.as_ref().unwrap().texte, "Erreur génération PDF: disque plein");
    e.transition(Evenement::ProduitRefuse(ErreurProduit::NomManquant));
    assert_eq!(e.message.as_ref().unwrap().texte, "Nom du produit requis");
    e.transition(Evenement::ProduitAjoute);
    assert_eq!(e.message.as_ref().unwrap().texte, "Produit ajouté");
    assert!(!e.message.as_ref().unwrap().erreur);
    e.transition(Evenement::ProduitNonEnregistre("base verrouillée".into()));
    assert_eq!(e.message.as_ref().unwrap().texte, "Erreur: base verrouillée");
    e.transition(Evenement::ConfigurationSauvee);
    assert_eq!(e.message.as_ref().unwrap().texte, "Configuration sauvegardée");
    e.transition(Evenement::ConfigurationNonSauvee("lecture seule".into()));
    assert_eq!(e.message.as_ref().unwrap().texte, "Erreur: lecture seule");
    e.transition(Evenement::AvertissementConfiguration("Config corrompue".into()));
    assert_eq!(e.message.as_ref().unwrap().texte, "Config corrompue");
    assert!(e.message.as_ref().unwrap().erreur);
    assert_eq!(e.onglet, Onglet::Calcul);
}

#[test]
fn choix_du_produit() {
    let mut e = EtatInterface::initial();
    assert_eq!(e.produit_choisi, None);
    e.transition(Evenement::ProduitChoisi(Some(2)));
    assert_eq!(e.produit_choisi, Some(2));
    e.transition(Evenement::CalculEffectue);
    assert_eq!(e.produit_choisi, Some(2));
    e.transition(Evenement::ProduitChoisi(None));
    assert_eq!(e.produit_choisi, None);
}

#[test]
fn suppression_d_une_ligne_du_catalogue() {
    let mut lignes = vec!["Airone", "Braxol", "Soufre"];
    let ids = vec![Some(4), None, Some(9)];
    assert_eq!(supprimer_ligne(&mut lignes, &ids, 1), None);
    assert_eq!(lignes, vec!["Airone", "Soufre"]);
    let ids = vec![Some(4), Some(9)];
    assert_eq!(supprimer_ligne(&mut lignes, &ids, 1), Some(9));
    assert_eq!(lignes, vec!["Airone"]);
}
