use std::rc::Rc;
use std::sync::Arc;
use structural::field::get_field_ext::GetFieldExt;
use structural::field_path::names::{
    Str_0, Str_1, Str_2, Str_3, Str_4, Str_5, Str_6, Str_7, Str_8, Str_9,
};
use structural::TStr;

fn slice_ref_checks(this: &[i32]) {
    assert_eq!(this.field_(TStr::<Str_0>::new()), Some(&3));
    assert_eq!(this.field_(TStr::<Str_1>::new()), Some(&5));
    assert_eq!(this.field_(TStr::<Str_2>::new()), Some(&8));
    assert_eq!(this.field_(TStr::<Str_3>::new()), Some(&13));
    assert_eq!(this.field_(TStr::<Str_4>::new()), Some(&21));
    assert_eq!(this.field_(TStr::<Str_5>::new()), Some(&34));
    assert_eq!(this.field_(TStr::<Str_6>::new()), Some(&55));
    assert_eq!(this.field_(TStr::<Str_7>::new()), Some(&89));
    assert_eq!(this.field_(TStr::<Str_8>::new()), Some(&144));
    assert_eq!(this.field_(TStr::<Str_9>::new()), None);
}

fn slice_mut_checks(this: &mut [i32]) {
    assert_eq!(this.field_mut(TStr::<Str_0>::new()), Some(&mut 3));
    assert_eq!(this.field_mut(TStr::<Str_1>::new()), Some(&mut 5));
    assert_eq!(this.field_mut(TStr::<Str_2>::new()), Some(&mut 8));
    assert_eq!(this.field_mut(TStr::<Str_3>::new()), Some(&mut 13));
    assert_eq!(this.field_mut(TStr::<Str_4>::new()), Some(&mut 21));
    assert_eq!(this.field_mut(TStr::<Str_5>::new()), Some(&mut 34));
    assert_eq!(this.field_mut(TStr::<Str_6>::new()), Some(&mut 55));
    assert_eq!(this.field_mut(TStr::<Str_7>::new()), Some(&mut 89));
    assert_eq!(this.field_mut(TStr::<Str_8>::new()), Some(&mut 144));
    assert_eq!(this.field_(TStr::<Str_9>::new()), None);
    let this = this;
    assert_eq!(this.field_(TStr::<Str_0>::new()), Some(&3));
    assert_eq!(this.field_(TStr::<Str_1>::new()), Some(&5));
    assert_eq!(this.field_(TStr::<Str_2>::new()), Some(&8));
    assert_eq!(this.field_(TStr::<Str_3>::new()), Some(&13));
    assert_eq!(this.field_(TStr::<Str_4>::new()), Some(&21));
    assert_eq!(this.field_(TStr::<Str_5>::new()), Some(&34));
    assert_eq!(this.field_(TStr::<Str_6>::new()), Some(&55));
    assert_eq!(this.field_(TStr::<Str_7>::new()), Some(&89));
    assert_eq!(this.field_(TStr::<Str_8>::new()), Some(&144));
    assert_eq!(this.field_(TStr::<Str_9>::new()), None);
}

fn rc_checks(this: Rc<[i32]>) {
    assert_eq!(this.field_(TStr::<Str_0>::new()), Some(&3));
    assert_eq!(this.field_(TStr::<Str_1>::new()), Some(&5));
    assert_eq!(this.field_(TStr::<Str_2>::new()), Some(&8));
    assert_eq!(this.field_(TStr::<Str_3>::new()), Some(&13));
    assert_eq!(this.field_(TStr::<Str_4>::new()), Some(&21));
    assert_eq!(this.field_(TStr::<Str_5>::new()), Some(&34));
    assert_eq!(this.field_(TStr::<Str_6>::new()), Some(&55));
    assert_eq!(this.field_(TStr::<Str_7>::new()), Some(&89));
    assert_eq!(this.field_(TStr::<Str_8>::new()), Some(&144));
    assert_eq!(this.field_(TStr::<Str_9>::new()), None);
}

fn arc_checks(this: Arc<[i32]>) {
    assert_eq!(this.field_(TStr::<Str_0>::new()), Some(&3));
    assert_eq!(this.field_(TStr::<Str_1>::new()), Some(&5));
    assert_eq!(this.field_(TStr::<Str_2>::new()), Some(&8));
    assert_eq!(this.field_(TStr::<Str_3>::new()), Some(&13));
    assert_eq!(this.field_(TStr::<Str_4>::new()), Some(&21));
    assert_eq!(this.field_(TStr::<Str_5>::new()), Some(&34));
    assert_eq!(this.field_(TStr::<Str_6>::new()), Some(&55));
    assert_eq!(this.field_(TStr::<Str_7>::new()), Some(&89));
    assert_eq!(this.field_(TStr::<Str_8>::new()), Some(&144));
    assert_eq!(this.field_(TStr::<Str_9>::new()), None);
}

fn box_checks(mut this: Box<[i32]>) {
    assert_eq!(this.field_mut(TStr::<Str_0>::new()), Some(&mut 3));
    assert_eq!(this.field_mut(TStr::<Str_1>::new()), Some(&mut 5));
    assert_eq!(this.field_mut(TStr::<Str_2>::new()), Some(&mut 8));
    assert_eq!(this.field_mut(TStr::<Str_3>::new()), Some(&mut 13));
    assert_eq!(this.field_mut(TStr::<Str_4>::new()), Some(&mut 21));
    assert_eq!(this.field_mut(TStr::<Str_5>::new()), Some(&mut 34));
    assert_eq!(this.field_mut(TStr::<Str_6>::new()), Some(&mut 55));
    assert_eq!(this.field_mut(TStr::<Str_7>::new()), Some(&mut 89));
    assert_eq!(this.field_mut(TStr::<Str_8>::new()), Some(&mut 144));
    assert_eq!(this.field_(TStr::<Str_9>::new()), None);
    let this = this;
    assert_eq!(this.field_(TStr::<Str_0>::new()), Some(&3));
    assert_eq!(this.field_(TStr::<Str_1>::new()), Some(&5));
    assert_eq!(this.field_(TStr::<Str_2>::new()), Some(&8));
    assert_eq!(this.field_(TStr::<Str_3>::new()), Some(&13));
    assert_eq!(this.field_(TStr::<Str_4>::new()), Some(&21));
    assert_eq!(this.field_(TStr::<Str_5>::new()), Some(&34));
    assert_eq!(this.field_(TStr::<Str_6>::new()), Some(&55));
    assert_eq!(this.field_(TStr::<Str_7>::new()), Some(&89));
    assert_eq!(this.field_(TStr::<Str_8>::new()), Some(&144));
    assert_eq!(this.field_(TStr::<Str_9>::new()), None);
}

#[test]
fn basic_core_tests() {
    slice_ref_checks(&[3, 5, 8, 13, 21, 34, 55, 89, 144][..]);
    slice_mut_checks(&mut [3, 5, 8, 13, 21, 34, 55, 89, 144][..]);
}

#[test]
fn basic_alloc_tests() {
    rc_checks(Rc::from([3, 5, 8, 13, 21, 34, 55, 89, 144]) as Rc<[_]>);
    arc_checks(Arc::from([3, 5, 8, 13, 21, 34, 55, 89, 144]) as Arc<[_]>);
    box_checks(Box::from([3, 5, 8, 13, 21, 34, 55, 89, 144]) as Box<[_]>);
}
