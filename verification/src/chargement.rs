//! Décision prise au chargement de la configuration utilisateur.

use vstd::prelude::*;

verus! {

/// Ce qu'a donné la lecture du fichier de configuration utilisateur.
#[derive(Debug, Clone, PartialEq, Eq)]
pub enum IssueLecture {
    /// Le fichier n'existe pas.
    Absent,
    /// Le fichier existe mais n'a pas pu être lu ; porte le texte de l'erreur.
    Illisible(String),
    /// Le fichier a été lu mais son contenu n'est pas une configuration valide ;
    /// porte le texte de l'erreur d'analyse.
    Corrompu(String),
    /// Le fichier a été lu et analysé.
    Lu,
}

/// Décision de chargement : garder la configuration lue, ou revenir à la
/// configuration par défaut, avec un avertissement éventuel ; au premier
/// démarrage, écrire les défauts dans le fichier de l'utilisateur.
#[derive(Debug, Clone, PartialEq, Eq)]
pub struct DecisionChargement {
    pub utiliser_defaut: bool,
    /// Le fichier de l'utilisateur est initialisé avec la configuration par défaut.
    pub ecrire_defauts: bool,
    pub avertissement: Option<String>,
}

/// Avertissement attendu pour une issue de lecture, le fichier étant désigné par
/// `chemin`.
pub open spec fn avertissement_attendu(chemin: Seq<char>, issue: IssueLecture) -> Option<Seq<char>> {
    match issue {
        IssueLecture::Absent => None,
        IssueLecture::Lu => None,
        IssueLecture::Illisible(e) => Some("Impossible de lire "@ + chemin + ": "@ + e@),
        IssueLecture::Corrompu(e) => Some(
            "Config corrompue ("@ + chemin + "), utilisation des défauts: "@ + e@,
        ),
    }
}

/// Un fichier absent ou lu ne donne aucun avertissement ; un fichier illisible ou
/// corrompu en donne un, qui nomme le fichier et se termine par le texte de
/// l'erreur.
pub proof fn avertissement_porte_le_detail(chemin: Seq<char>, e: String)
    ensures
        avertissement_attendu(chemin, IssueLecture::Absent) is None,
        avertissement_attendu(chemin, IssueLecture::Lu) is None,
        avertissement_attendu(chemin, IssueLecture::Illisible(e)) == Some(
            "Impossible de lire "@ + chemin + ": "@ + e@,
        ),
        avertissement_attendu(chemin, IssueLecture::Corrompu(e)) == Some(
            "Config corrompue ("@ + chemin + "), utilisation des défauts: "@ + e@,
        ),
{
}

/// Décide du chargement : la configuration lue est gardée seulement si le fichier
/// existe, se lit et s'analyse ; sinon on revient aux défauts, avec un
/// avertissement si le fichier existait. Au premier démarrage (fichier absent), les
/// défauts initialisent le fichier de l'utilisateur ; un fichier illisible ou
/// corrompu n'est jamais écrasé.
pub fn decider_chargement(chemin: &str, issue: &IssueLecture) -> (d: DecisionChargement)
    ensures
        d.utiliser_defaut == !(*issue is Lu),
        d.ecrire_defauts == (*issue is Absent),
        d.avertissement is Some <==> avertissement_attendu(chemin@, *issue) is Some,
        d.avertissement matches Some(m) ==> m@ == avertissement_attendu(chemin@, *issue)->0,
{
    match issue {
        IssueLecture::Absent => DecisionChargement { utiliser_defaut: true, ecrire_defauts: true, avertissement: None },
        IssueLecture::Lu => DecisionChargement { utiliser_defaut: false, ecrire_defauts: false, avertissement: None },
        IssueLecture::Illisible(e) => {
            let mut m = String::from_str("Impossible de lire ");
            m.append(chemin);
            m.append(": ");
            m.append(e.as_str());
            DecisionChargement { utiliser_defaut: true, ecrire_defauts: false, avertissement: Some(m) }
        },
        IssueLecture::Corrompu(e) => {
            let mut m = String::from_str("Config corrompue (");
            m.append(chemin);
            m.append("), utilisation des défauts: ");
            m.append(e.as_str());
            DecisionChargement { utiliser_defaut: true, ecrire_defauts: false, avertissement: Some(m) }
        },
    }
}

} // verus!
