use catalog_lib::{add, encrypt, Bar, Foo, InputData};

#[test]
fn as_trait_bound() {
    let bar = Bar::new();
    bar.method(1);
    bar.method("text");
    assert_eq!(bar, Bar);
}

#[test]
fn as_impl_trait() {
    let bar = Bar::new();
    let mut v: Vec<Bar> = vec![];
    v.push(bar);
    assert_eq!(v.len(), 1);
}

#[test]
fn test_as() {
    let x: u32 = 2;
    let y: u64 = x.into();
    assert_eq!(add(y, y), 4);
}

#[test]
fn payload_is_sent_as_it_is() {
    let data = InputData { payload: Some(vec![1, 2, 3]) };
    assert_eq!(data.encrypted(), vec![1, 2, 3]);
    let none = InputData { payload: None };
    assert_eq!(none.encrypted(), Vec::<u8>::new());
    assert_eq!(encrypt(&[9, 8]), vec![9, 8]);
}
