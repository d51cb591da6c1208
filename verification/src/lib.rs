//! Règles de décision de Pulve-Calc : alertes des rapports de boîte, lecture de la
//! table d'étalonnage, lecture des saisies, répartition des citernes, matériel,
//! chargement de la configuration, catalogue de produits et navigation de
//! l'interface.

pub mod alerte;
pub mod catalogue;
pub mod chargement;
pub mod citerne;
pub mod etalonnage;
pub mod interface;
pub mod materiel;
pub mod saisie;
