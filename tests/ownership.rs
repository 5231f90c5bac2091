use ownership_lessons::{build_copy_data, build_heap_data, consume, pass_thru, MyBox, MyStruct};

#[test]
fn heap_data_holds_the_samples() {
    assert_eq!(build_heap_data(), vec![1701, 401, 8675309]);
}

#[test]
fn copy_data_counts_forty_two() {
    let a = build_copy_data();
    assert_eq!(a.count, 42);
    assert_eq!(a, build_copy_data());
}

#[test]
fn pass_thru_returns_its_argument() {
    let data = vec![1, 2, 3, 4, 5];
    assert_eq!(pass_thru(data), vec![1, 2, 3, 4, 5]);
    assert_eq!(pass_thru(Vec::new()), Vec::<i32>::new());
}

#[test]
fn consume_takes_ownership() {
    consume(vec![1, 2, 3, 4, 5]);
    consume(Vec::new());
}

#[test]
fn my_struct_borrows_text() {
    let text = String::from("Hello, Rust!");
    let s = MyStruct::new(&text);
    assert_eq!(s.data, "Hello, Rust!");
}

#[test]
fn my_box_dereferences() {
    let x = MyBox::new(String::from("Hello, Rust!"));
    assert_eq!(*x, "Hello, Rust!");
    let mut y = MyBox::new(String::from("Hello, Rust!"));
    y.push_str(" How are you?");
    assert_eq!(*y, "Hello, Rust! How are you?");
    assert_eq!(y.0, "Hello, Rust! How are you?");
}
