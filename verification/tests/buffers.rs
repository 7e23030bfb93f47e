use rob::Rob;
use rob::ToBox;
use std::path::Path;
use std::path::PathBuf;

#[test]
fn into_box_of_a_str() {
    let x: Rob<str> = Rob::from_ref("abc");
    let y: Rob<str> = Rob::from(String::from("abc"));
    assert_eq!(&*Rob::into_box(x), "abc");
    assert_eq!(&*Rob::into_box(y), "abc");
}

#[test]
fn to_mut_upgrades_and_writes_a_borrowed_str() {
    let source = String::from("abc");
    let mut x: Rob<str> = Rob::from_ref(source.as_str());
    assert!(!Rob::is_owned(&x));
    Rob::to_mut(&mut x).make_ascii_uppercase();
    assert_eq!(&*x, "ABC");
    assert!(Rob::is_owned(&x));
    assert_eq!(source, "abc");
}

#[test]
fn to_mut_writes_an_owned_str_in_place() {
    let mut x: Rob<str> = Rob::from(String::from("abc"));
    Rob::to_mut(&mut x).make_ascii_uppercase();
    assert_eq!(&*x, "ABC");
    assert!(Rob::is_owned(&x));
}

#[test]
fn into_box_of_a_slice() {
    let source = [1, 2, 3];
    let x: Rob<[i32]> = Rob::from_ref(&source[..]);
    let y: Rob<[i32]> = Rob::from(vec![4, 5]);
    assert_eq!(&*Rob::into_box(x), &[1, 2, 3][..]);
    assert_eq!(&*Rob::into_box(y), &[4, 5][..]);
    let empty: Rob<[i32]> = Rob::from_ref(&source[..0]);
    assert!(Rob::into_box(empty).is_empty());
}

#[test]
fn to_mut_upgrades_and_writes_a_borrowed_slice() {
    let source = vec![String::from("a"), String::from("b")];
    let mut x: Rob<[String]> = Rob::from_ref(source.as_slice());
    Rob::to_mut(&mut x)[1].push('c');
    assert!(Rob::is_owned(&x));
    assert_eq!(&*x, &[String::from("a"), String::from("bc")][..]);
    assert_eq!(source, vec![String::from("a"), String::from("b")]);
}

#[test]
fn into_box_and_to_mut_of_a_path() {
    let source = PathBuf::from("/tmp/some/file");
    let x: Rob<Path> = Rob::from_ref(source.as_path());
    assert_eq!(&*Rob::into_box(x), Path::new("/tmp/some/file"));
    let mut y: Rob<Path> = Rob::from_ref(source.as_path());
    assert_eq!(&*Rob::to_mut(&mut y), Path::new("/tmp/some/file"));
    assert!(Rob::is_owned(&y));
    assert_eq!(&*y, Path::new("/tmp/some/file"));
    let z: Rob<Path> = Rob::from(PathBuf::from("relative/dir"));
    assert!(Rob::is_owned(&z));
    assert_eq!(&*Rob::into_box(z), Path::new("relative/dir"));
}

#[test]
fn to_box_clones_the_value() {
    assert_eq!(*5i32.to_box(), 5);
    assert_eq!(&*"xyz".to_box(), "xyz");
    assert_eq!(&*[7u8, 8][..].to_box(), &[7u8, 8][..]);
    assert_eq!(&*Path::new("a/b").to_box(), Path::new("a/b"));
    assert_eq!(&*"".to_box(), "");
}
