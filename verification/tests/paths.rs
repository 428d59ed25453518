use lens::{LensPath, LensPathElement};

#[test]
fn lens_path_constructors_should_work() {
    assert_eq!(LensPath::empty().elements, Vec::<LensPathElement>::new());
    assert_eq!(LensPath::new(4).elements, vec![LensPathElement::new(4)]);
    assert!(LensPath::from_index(2) == LensPath::new(2));
    assert_eq!(
        LensPath::from_pair(1, 3).elements,
        vec![LensPathElement::new(1), LensPathElement::new(3)]
    );
    assert_eq!(
        LensPath::from_vec(vec![1, 2, 3]).elements,
        vec![
            LensPathElement::new(1),
            LensPathElement::new(2),
            LensPathElement::new(3),
        ]
    );
}

#[test]
fn lens_path_concat_should_work() {
    let p0 = LensPath::from_vec(vec![1, 2, 3]);
    let p1 = LensPath::from_vec(vec![4, 5]);
    let p2 = LensPath::concat(p0, p1);
    assert!(p2 == LensPath::from_vec(vec![1, 2, 3, 4, 5]));
}

#[test]
fn lens_path_debug_should_work() {
    let path = LensPath::from_vec(vec![1, 2, 3, 4, 5]);
    assert_eq!(path.debug_string(), "[1, 2, 3, 4, 5]");
}

#[test]
fn lens_path_debug_of_short_paths() {
    assert_eq!(LensPath::empty().debug_string(), "[]");
    assert_eq!(LensPath::new(0).debug_string(), "[0]");
    assert_eq!(
        LensPath::from_pair(10, u64::MAX).debug_string(),
        "[10, 18446744073709551615]"
    );
}

#[test]
fn lens_path_concat_with_empty_is_identity() {
    let p = LensPath::from_vec(vec![7, 8]);
    assert!(LensPath::concat(LensPath::empty(), p.clone()) == p);
    assert!(LensPath::concat(p.clone(), LensPath::empty()) == p);
    let a = LensPath::new(1);
    let b = LensPath::from_pair(2, 3);
    let c = LensPath::new(4);
    assert!(
        LensPath::concat(LensPath::concat(a.clone(), b.clone()), c.clone())
            == LensPath::concat(a, LensPath::concat(b, c))
    );
}

#[test]
fn path_elements_are_equal_exactly_when_ids_are() {
    assert!(LensPathElement::new(7) == LensPathElement::new(7));
    assert!(LensPathElement::new(7) != LensPathElement::new(8));
    assert!(LensPathElement::new(7) < LensPathElement::new(8));
}
