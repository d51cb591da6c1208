# Pulve-Calc

Calculateur de pulvérisation pour atomiseur monté sur tracteur : à partir d'une
dose à l'hectare et d'une surface, il donne pour chaque rapport de boîte la fenêtre
de vitesses, de débits et de pressions, le nombre de citernes et la quantité de
produit par citerne, avec des alertes.

- `src/` : la bibliothèque `pulve_calc`, vérifiée avec Verus. Elle porte les règles
  non numériques de l'application : assemblage et texte des alertes, choix du point
  ou de l'intervalle de lecture dans la table d'étalonnage, ordre de validation des
  saisies et séparateur décimal, répartition des citernes, nombre de buses
  effectif, décision de chargement de la configuration, identifiant exigé par le
  catalogue, et l'état de l'interface (onglet, message, produit choisi) avec ses
  transitions.
- `app/` : le programme. Les formules en virgule flottante (régime moteur, vitesse
  au sol, débit, interpolation de la pression, citernes), la configuration TOML,
  la base SQLite des produits, le rapport PDF et l'interface egui.
- `tests/` : tests de la bibliothèque.
