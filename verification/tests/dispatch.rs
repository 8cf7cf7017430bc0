use mpsc_channel::bar;
use mpsc_channel::bar2;
use mpsc_channel::bar3;
use mpsc_channel::foo;
use mpsc_channel::foo2;
use mpsc_channel::foo4;
use mpsc_channel::say_hello;
use mpsc_channel::strlen;
use mpsc_channel::strlen2;
use mpsc_channel::strlen_refstr;
use mpsc_channel::strlen_string;
use mpsc_channel::Hello;
use mpsc_channel::Hello2;

#[test]
fn strlen_counts_bytes() {
    assert_eq!(strlen("hello"), 5);
    assert_eq!(strlen(""), 0);
    assert_eq!(strlen2("hello"), 5);
    assert_eq!(strlen_refstr("abc"), 3);
    assert_eq!(strlen_string(String::from("hello")), 5);
    // A two-byte character counts as two bytes, as `str::len` does.
    assert_eq!(strlen("h\u{e9}llo"), 6);
    assert_eq!(strlen2("h\u{e9}llo"), 6);
    assert_eq!(strlen_refstr("h\u{e9}llo"), 6);
    assert_eq!(strlen_string(String::from("h\u{e9}llo")), 6);
}

#[test]
fn foo_agrees_on_both_routes() {
    assert_eq!(foo(), 0);
}

#[test]
fn hello_greets() {
    assert_eq!("J".hello(), "hello J");
    assert_eq!(foo2(), "hello J");
    assert_eq!(bar("world"), "hello world");
    assert_eq!(say_hello(&"you"), "hello you");
}

#[test]
fn bar2_greets_each_in_order() {
    let r = bar2(&["Hi", "Hello!"]);
    assert_eq!(r, vec!["hello Hi", "hello Hello!"]);
    let r4 = foo4();
    assert_eq!(r4.len(), 2);
    assert_eq!(r4, vec!["hello Hi", "hello Hello!"]);
}

#[test]
fn bar3_greets_through_references() {
    let a = "Hi";
    let b = "Hello!";
    let r = bar3(&[&a, &b]);
    assert_eq!(r, vec!["hello Hi", "hello Hello!"]);
}

#[test]
fn hello2_static_and_provided() {
    assert_eq!("x".hello2(), "hello x");
    assert_eq!(<&str as Hello2>::weird_static(), "FOR STR!");
    assert_eq!("x".weird(), "FOR STR!");
}
