use reda_lef::{LefOrient, LefSymmetry};

const ALL: [LefOrient; 8] = [
    LefOrient::N,
    LefOrient::S,
    LefOrient::E,
    LefOrient::W,
    LefOrient::FN,
    LefOrient::FS,
    LefOrient::FE,
    LefOrient::FW,
];

#[test]
fn flip_keeps_base_and_inverts_flag() {
    for o in ALL {
        let (base, flipped) = o.decomposed();
        let (flip_base, flip_flipped) = o.flipped().decomposed();
        assert_eq!(flip_base, base);
        assert_eq!(flip_flipped, !flipped);
    }
}

#[test]
fn decomposed_values() {
    assert_eq!(LefOrient::N.decomposed(), (LefOrient::N, false));
    assert_eq!(LefOrient::S.decomposed(), (LefOrient::S, false));
    assert_eq!(LefOrient::E.decomposed(), (LefOrient::E, false));
    assert_eq!(LefOrient::W.decomposed(), (LefOrient::W, false));
    assert_eq!(LefOrient::FN.decomposed(), (LefOrient::N, true));
    assert_eq!(LefOrient::FS.decomposed(), (LefOrient::S, true));
    assert_eq!(LefOrient::FE.decomposed(), (LefOrient::E, true));
    assert_eq!(LefOrient::FW.decomposed(), (LefOrient::W, true));
}

#[test]
fn flipped_values() {
    assert_eq!(LefOrient::N.flipped(), LefOrient::FN);
    assert_eq!(LefOrient::S.flipped(), LefOrient::FS);
    assert_eq!(LefOrient::E.flipped(), LefOrient::FE);
    assert_eq!(LefOrient::W.flipped(), LefOrient::FW);
    assert_eq!(LefOrient::FN.flipped(), LefOrient::N);
    assert_eq!(LefOrient::FS.flipped(), LefOrient::S);
    assert_eq!(LefOrient::FE.flipped(), LefOrient::E);
    assert_eq!(LefOrient::FW.flipped(), LefOrient::W);
}

#[test]
fn flip_twice_is_identity() {
    for o in ALL {
        assert_eq!(o.flipped().flipped(), o);
    }
}

#[test]
fn orientation_default_is_north() {
    assert_eq!(LefOrient::default(), LefOrient::N);
}

#[test]
fn orientation_round_trip() {
    let words = ["N", "S", "E", "W", "FN", "FS", "FE", "FW"];
    for (o, word) in ALL.iter().zip(words) {
        assert_eq!(o.to_string(), word);
        assert_eq!(LefOrient::from_str(word), Ok(*o));
        assert_eq!(LefOrient::from_str(&o.to_string()), Ok(*o));
    }
}

#[test]
fn orientation_rejects_other_words() {
    assert_eq!(LefOrient::from_str(""), Err(()));
    assert_eq!(LefOrient::from_str("n"), Err(()));
    assert_eq!(LefOrient::from_str("NF"), Err(()));
    assert_eq!(LefOrient::from_str("N "), Err(()));
    assert_eq!(LefOrient::from_str("R90"), Err(()));
}

fn all_symmetries() -> Vec<LefSymmetry> {
    let mut all = Vec::new();
    for x in [false, true] {
        for y in [false, true] {
            for r90 in [false, true] {
                all.push(LefSymmetry::new(x, y, r90));
            }
        }
    }
    all
}

#[test]
fn symmetry_union_is_commutative_and_idempotent() {
    for a in all_symmetries() {
        assert_eq!(a.union(a), a);
        for b in all_symmetries() {
            assert_eq!(a.union(b), b.union(a));
        }
    }
}

#[test]
fn symmetry_union_is_fieldwise_or() {
    let a = LefSymmetry::new(true, false, false);
    let b = LefSymmetry::new(false, false, true);
    assert_eq!(a.union(b), LefSymmetry { x: true, y: false, r90: true });
    assert_eq!(LefSymmetry::x().union(LefSymmetry::y()), LefSymmetry::new(true, true, false));
    assert_eq!(LefSymmetry::default().union(LefSymmetry::default()), LefSymmetry::default());
}

#[test]
fn symmetry_constructors() {
    assert_eq!(LefSymmetry::new(true, false, true), LefSymmetry { x: true, y: false, r90: true });
    assert_eq!(LefSymmetry::x(), LefSymmetry { x: true, y: false, r90: false });
    assert_eq!(LefSymmetry::y(), LefSymmetry { x: false, y: true, r90: false });
    assert_eq!(LefSymmetry::r90(), LefSymmetry { x: false, y: false, r90: true });
    assert_eq!(LefSymmetry::default(), LefSymmetry { x: false, y: false, r90: false });
}

#[test]
fn symmetry_keywords() {
    assert_eq!(LefSymmetry::from_str("X"), Ok(LefSymmetry::x()));
    assert_eq!(LefSymmetry::from_str("Y"), Ok(LefSymmetry::y()));
    assert_eq!(LefSymmetry::from_str("R90"), Ok(LefSymmetry::r90()));
    assert_eq!(LefSymmetry::from_str("XY"), Err(()));
    assert_eq!(LefSymmetry::from_str("x"), Err(()));
    assert_eq!(LefSymmetry::from_str(""), Err(()));
}

#[test]
fn symmetry_text() {
    assert_eq!(LefSymmetry::new(false, false, false).to_string(), "");
    assert_eq!(LefSymmetry::x().to_string(), "X");
    assert_eq!(LefSymmetry::y().to_string(), "Y");
    assert_eq!(LefSymmetry::r90().to_string(), "R90");
    assert_eq!(LefSymmetry::new(true, true, false).to_string(), "XY");
    assert_eq!(LefSymmetry::new(true, false, true).to_string(), "XR90");
    assert_eq!(LefSymmetry::new(true, true, true).to_string(), "XYR90");
}
