use panotti::nodebug::NoDebug;
use std::ops::Deref;
use std::ops::DerefMut;

#[test]
fn from_wraps_and_deref_reaches_the_value() {
    let wrapped = NoDebug::from(41u32);
    assert_eq!(*wrapped.deref(), 41);
    assert_eq!(*wrapped, 41);
}

#[test]
fn deref_mut_changes_the_value_inside() {
    let mut wrapped = NoDebug::from(String::from("a"));
    wrapped.deref_mut().push('b');
    assert_eq!(wrapped.deref(), "ab");
    *wrapped = String::from("c");
    assert_eq!(*wrapped, "c");
}

#[test]
fn fmt_shows_nothing_of_the_value() {
    let wrapped = NoDebug::from(String::from("secret"));
    assert_eq!(wrapped.fmt(), "skipped");
    assert_eq!(NoDebug::from(7u8).fmt(), "skipped");
}
