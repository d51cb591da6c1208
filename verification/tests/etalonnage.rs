use pulve_calc::etalonnage::{lecture_pression, ComparaisonsDebit, Lecture};

const DEBITS: [f64; 7] = [1.88, 2.15, 2.45, 2.72, 2.96, 3.37, 3.70];

fn comparer(debit: f64, debits: &[f64]) -> ComparaisonsDebit {
    ComparaisonsDebit {
        atteint: debits.iter().map(|&x| debit >= x).collect(),
        ne_depasse_pas: debits.iter().map(|&x| debit <= x).collect(),
        sous_le_premier: debits.first().is_some_and(|&x| debit < x),
        au_dessus_du_dernier: debits.last().is_some_and(|&x| debit > x),
        confondu_avec_dernier: debits.last().is_some_and(|&x| (debit - x).abs() < f64::EPSILON),
        intervalle_nul: debits.windows(2).map(|w| (w[1] - w[0]).abs() < f64::EPSILON).collect(),
    }
}

#[test]
fn lecture_premier_point() {
    // 1.88 L/min : début du premier intervalle (10 bars).
    assert_eq!(lecture_pression(7, &comparer(1.88, &DEBITS)), Lecture::Entre(0));
}

#[test]
fn lecture_dernier_point() {
    assert_eq!(lecture_pression(7, &comparer(3.70, &DEBITS)), Lecture::Point(6));
}

#[test]
fn lecture_entre_dix_et_quinze_bars() {
    assert_eq!(lecture_pression(7, &comparer(2.015, &DEBITS)), Lecture::Entre(0));
    assert_eq!(lecture_pression(7, &comparer(3.0, &DEBITS)), Lecture::Entre(4));
}

#[test]
fn point_intermediaire_lu_dans_le_premier_intervalle() {
    // 2.15 borne deux intervalles : le premier qui l'encadre est retenu.
    assert_eq!(lecture_pression(7, &comparer(2.15, &DEBITS)), Lecture::Entre(0));
}

#[test]
fn pas_d_extrapolation() {
    assert_eq!(lecture_pression(7, &comparer(1.0, &DEBITS)), Lecture::Hors);
    assert_eq!(lecture_pression(7, &comparer(4.0, &DEBITS)), Lecture::Hors);
    assert_eq!(lecture_pression(7, &comparer(f64::NAN, &DEBITS)), Lecture::Hors);
}

#[test]
fn table_incoherente_ou_vide() {
    assert_eq!(lecture_pression(6, &comparer(2.5, &DEBITS)), Lecture::Hors);
    assert_eq!(lecture_pression(0, &comparer(2.5, &[])), Lecture::Hors);
}

#[test]
fn intervalle_de_largeur_nulle() {
    let debits = [1.0, 2.0, 2.0, 3.0];
    // 2.0 est encadré d'abord par [1, 2], de largeur non nulle.
    assert_eq!(lecture_pression(4, &comparer(2.0, &debits)), Lecture::Entre(0));
    let debits = [2.0, 2.0, 3.0];
    assert_eq!(lecture_pression(3, &comparer(2.0, &debits)), Lecture::Point(0));
}

#[test]
fn table_d_un_seul_point() {
    assert_eq!(lecture_pression(1, &comparer(2.0, &[2.0])), Lecture::Point(0));
    assert_eq!(lecture_pression(1, &comparer(2.5, &[2.0])), Lecture::Hors);
}

#[test]
fn debit_de_la_plage_toujours_lu() {
    let mut d = 1.88;
    while d <= 3.70 {
        assert_ne!(lecture_pression(7, &comparer(d, &DEBITS)), Lecture::Hors, "débit {}", d);
        d += 0.01;
    }
    assert_ne!(lecture_pression(7, &comparer(3.70, &DEBITS)), Lecture::Hors);
    // Même une table non triée se lit pour un débit entre ses extrémités.
    let desordre = [1.0, 3.0, 2.0, 4.0];
    assert_eq!(lecture_pression(4, &comparer(2.5, &desordre)), Lecture::Entre(0));
}
