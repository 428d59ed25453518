// The lens types below are what `#[derive(Lenses)]` generates for these structs,
// written out; the compositions are what `lens!` expands to.

use lens::{compose, modify, vec_lens, Lens, LensPath, RefLens, ValueLens, VecLens};

#[derive(Clone, Debug, PartialEq)]
struct Struct1 {
    int32: i32,
    int16: i16,
}

#[derive(Clone, Debug, PartialEq)]
struct Struct2 {
    int32: i32,
    string: String,
    struct1: Struct1,
}

#[derive(Clone, Debug, PartialEq)]
struct Struct3 {
    int32: i32,
    struct2: Struct2,
}

#[derive(Clone, Debug, PartialEq)]
struct Struct4 {
    inner_vec: Vec<Struct1>,
}

struct Struct1Int32Lens;

impl Lens for Struct1Int32Lens {
    type Source = Struct1;
    type Target = i32;

    fn path(&self) -> LensPath {
        LensPath::new(0)
    }

    fn mutate(&self, source: &mut Struct1, target: i32) {
        source.int32 = target
    }
}

impl RefLens for Struct1Int32Lens {
    fn get_ref<'a>(&self, source: &'a Struct1) -> &'a i32 {
        &source.int32
    }

    fn get_mut_ref<'a>(&self, source: &'a mut Struct1) -> &'a mut i32 {
        &mut source.int32
    }
}

impl ValueLens for Struct1Int32Lens {
    fn get(&self, source: &Struct1) -> i32 {
        source.int32
    }
}

struct Struct2StringLens;

impl Lens for Struct2StringLens {
    type Source = Struct2;
    type Target = String;

    fn path(&self) -> LensPath {
        LensPath::new(1)
    }

    fn mutate(&self, source: &mut Struct2, target: String) {
        source.string = target
    }
}

impl RefLens for Struct2StringLens {
    fn get_ref<'a>(&self, source: &'a Struct2) -> &'a String {
        &source.string
    }

    fn get_mut_ref<'a>(&self, source: &'a mut Struct2) -> &'a mut String {
        &mut source.string
    }
}

impl ValueLens for Struct2StringLens {
    fn get(&self, source: &Struct2) -> String {
        source.string.clone()
    }
}

struct Struct2Struct1Lens;

impl Lens for Struct2Struct1Lens {
    type Source = Struct2;
    type Target = Struct1;

    fn path(&self) -> LensPath {
        LensPath::new(2)
    }

    fn mutate(&self, source: &mut Struct2, target: Struct1) {
        source.struct1 = target
    }
}

impl RefLens for Struct2Struct1Lens {
    fn get_ref<'a>(&self, source: &'a Struct2) -> &'a Struct1 {
        &source.struct1
    }

    fn get_mut_ref<'a>(&self, source: &'a mut Struct2) -> &'a mut Struct1 {
        &mut source.struct1
    }
}

struct Struct3Struct2Lens;

impl Lens for Struct3Struct2Lens {
    type Source = Struct3;
    type Target = Struct2;

    fn path(&self) -> LensPath {
        LensPath::new(1)
    }

    fn mutate(&self, source: &mut Struct3, target: Struct2) {
        source.struct2 = target
    }
}

impl RefLens for Struct3Struct2Lens {
    fn get_ref<'a>(&self, source: &'a Struct3) -> &'a Struct2 {
        &source.struct2
    }

    fn get_mut_ref<'a>(&self, source: &'a mut Struct3) -> &'a mut Struct2 {
        &mut source.struct2
    }
}

struct Struct4InnerVecLens;

impl Lens for Struct4InnerVecLens {
    type Source = Struct4;
    type Target = Vec<Struct1>;

    fn path(&self) -> LensPath {
        LensPath::new(0)
    }

    fn mutate(&self, source: &mut Struct4, target: Vec<Struct1>) {
        source.inner_vec = target
    }
}

impl RefLens for Struct4InnerVecLens {
    fn get_ref<'a>(&self, source: &'a Struct4) -> &'a Vec<Struct1> {
        &source.inner_vec
    }

    fn get_mut_ref<'a>(&self, source: &'a mut Struct4) -> &'a mut Vec<Struct1> {
        &mut source.inner_vec
    }
}

fn make_struct3() -> Struct3 {
    Struct3 {
        int32: 332,
        struct2: Struct2 {
            int32: 232,
            string: "hi".to_string(),
            struct1: Struct1 {
                int32: 132,
                int16: 116,
            },
        },
    }
}

#[test]
fn a_basic_lens_should_work() {
    // lens!(Struct3.struct2.struct1.int32)
    let lens = compose(
        Struct3Struct2Lens,
        compose(Struct2Struct1Lens, Struct1Int32Lens),
    );

    let s3_0 = make_struct3();
    assert_eq!(*lens.get_ref(&s3_0), 132);
    assert!(lens.path() == LensPath::from_vec(vec![1, 2, 0]));

    let s3_1 = lens.set(s3_0, 133);
    assert_eq!(s3_1.struct2.struct1.int32, 133);
    assert_eq!(s3_1.struct2.struct1.int16, 116);

    let s3_2 = lens.modify(s3_1, &|a| a + 1);
    assert_eq!(s3_2.struct2.struct1.int32, 134);

    let s3_3 = modify(&lens, s3_2, |a| a + 1);
    assert_eq!(s3_3.struct2.struct1.int32, 135);
}

#[test]
fn lens_composition_should_work_with_boxed_lenses() {
    let struct1_int32_lens: Box<dyn RefLens<Source = Struct1, Target = i32>> =
        Box::new(Struct1Int32Lens);
    let lens = compose(
        Struct3Struct2Lens,
        compose(Box::new(Struct2Struct1Lens), struct1_int32_lens),
    );

    let s3_0 = make_struct3();
    assert_eq!(*lens.get_ref(&s3_0), 132);

    let s3_1 = lens.set(s3_0, 133);
    assert_eq!(s3_1.struct2.struct1.int32, 133);

    let s3_2 = lens.modify(s3_1, &|a| a + 1);
    assert_eq!(s3_2.struct2.struct1.int32, 134);

    let s3_3 = modify(&lens, s3_2, |a| a + 1);
    assert_eq!(s3_3.struct2.struct1.int32, 135);
}

#[test]
fn value_lenses_are_generated_for_scalars_and_strings() {
    assert_eq!(Struct1Int32Lens.get(&Struct1 { int32: 7, int16: 9 }), 7);
    assert_eq!(
        Struct2StringLens.get(&Struct2 {
            int32: 0,
            string: "hello".to_string(),
            struct1: Struct1 { int32: 0, int16: 0 },
        }),
        "hello".to_string()
    );
}

#[test]
fn a_vec_lens_should_work() {
    let lens = vec_lens::<u32>(1);

    let v0 = vec![0u32, 1, 2];
    assert_eq!(*lens.get_ref(&v0), 1);
    assert!(lens.path() == LensPath::from_index(1));

    let v1 = lens.set(v0, 42);
    assert_eq!(v1, vec![0u32, 42, 2]);

    let v2 = modify(&lens, v1, |a| a - 1);
    assert_eq!(v2, vec![0u32, 41, 2]);
}

#[test]
fn the_lens_macro_should_support_vec_indexing() {
    // lens!(Struct4.inner_vec[1].int32)
    let lens = compose(
        Struct4InnerVecLens,
        compose(vec_lens::<Struct1>(1), Struct1Int32Lens),
    );

    let s0 = Struct4 {
        inner_vec: vec![
            Struct1 {
                int32: 42,
                int16: 73,
            },
            Struct1 {
                int32: 110,
                int16: 210,
            },
        ],
    };
    assert_eq!(*lens.get_ref(&s0), 110);
    assert!(lens.path() == LensPath::from_vec(vec![0, 1, 0]));

    let s1 = lens.set(s0, 111);
    assert_eq!(s1.inner_vec[1].int32, 111);

    let s2 = modify(&lens, s1, |a| a + 1);
    assert_eq!(s2.inner_vec[1].int32, 112);
}

#[test]
fn vec_lens_missing_index_message_names_the_index() {
    assert_eq!(
        VecLens::<u32>::missing_index_message(3),
        "vector lens index 3 is out of bounds"
    );
    assert_eq!(
        VecLens::<u32>::missing_index_message(0),
        "vector lens index 0 is out of bounds"
    );
    assert_eq!(
        VecLens::<u32>::missing_index_message(1204),
        "vector lens index 1204 is out of bounds"
    );
}

#[test]
fn lens_laws_hold_for_a_vec_lens() {
    let lens = vec_lens::<u32>(2);
    let v = vec![5u32, 6, 7, 8];
    // reading back what was set gives it
    let set = lens.set(v.clone(), 70);
    assert_eq!(*lens.get_ref(&set), 70);
    assert_eq!(set.len(), 4);
    // setting what is there changes nothing
    let current = *lens.get_ref(&v);
    assert_eq!(lens.set(v.clone(), current), v);
    // setting twice is setting once
    assert_eq!(lens.set(lens.set(v.clone(), 1), 2), lens.set(v.clone(), 2));
}

#[test]
fn lens_laws_hold_for_a_composed_lens() {
    let lens = compose(vec_lens::<Vec<u32>>(1), vec_lens::<u32>(0));
    let v = vec![vec![1u32, 2], vec![3u32, 4]];
    let set = lens.set(v.clone(), 30);
    assert_eq!(*lens.get_ref(&set), 30);
    assert_eq!(set, vec![vec![1u32, 2], vec![30u32, 4]]);
    let current = *lens.get_ref(&v);
    assert_eq!(lens.set(v.clone(), current), v);
    assert_eq!(lens.set(lens.set(v.clone(), 9), 10), lens.set(v.clone(), 10));
}

#[test]
fn composition_is_associative() {
    let left = compose(
        compose(vec_lens::<Vec<Vec<u32>>>(0), vec_lens::<Vec<u32>>(1)),
        vec_lens::<u32>(2),
    );
    let right = compose(
        vec_lens::<Vec<Vec<u32>>>(0),
        compose(vec_lens::<Vec<u32>>(1), vec_lens::<u32>(2)),
    );
    let v = vec![vec![vec![0u32, 1, 2], vec![3u32, 4, 5]]];
    assert!(left.path() == right.path());
    assert!(left.path() == LensPath::from_vec(vec![0, 1, 2]));
    assert_eq!(*left.get_ref(&v), 5);
    assert_eq!(*right.get_ref(&v), 5);
    assert_eq!(left.set(v.clone(), 50), right.set(v.clone(), 50));
}

#[test]
fn mutate_with_fn_applies_the_function_in_place() {
    let lens = vec_lens::<i64>(0);
    let mut v = vec![-4i64, 9];
    lens::mutate_with_fn(&lens, &mut v, |a| a * 10);
    assert_eq!(v, vec![-40i64, 9]);
    lens.mutate_with_fn(&mut v, &|a| a + 1);
    assert_eq!(v, vec![-39i64, 9]);
    let boxed: Box<VecLens<i64>> = Box::new(vec_lens::<i64>(1));
    boxed.mutate(&mut v, 0);
    assert_eq!(v, vec![-39i64, 0]);
    assert!(boxed.path() == LensPath::new(1));
}
