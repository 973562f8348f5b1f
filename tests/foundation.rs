use sync_guides::foundation::{example_6_inner, example_7_inner, StrSplit};

#[test]
fn foundation_example_1() {
    let x = 42;
    let y = 43;
    let var1 = &x;
    let mut var2 = &x;
    assert_eq!(*var1, *var2);
    var2 = &y;
    assert_eq!(*var2, 43);
}

#[test]
fn foundation_example_2() {
    let mut x: usize = 0;
    println!("{:p}", &x);
    println!("{:?}", x);
    x = usize::MAX;
    println!("{:p}", &x);
    println!("{:?}", x);
    let x: i32 = 0;
    println!("{:p}", &x);
    println!("{:?}", x);
}

#[test]
fn foundation_example_3() {
    let value: String = String::from("value");
    println!("{:p}", &value);
    let heap_allocated_value = Box::new(value);
    println!("{:p}", heap_allocated_value);
}

#[test]
fn foundation_example_4() {
    let x = vec![1, 2, 3, 4].into_boxed_slice();
    let static_reference = Box::leak(x);
    static_reference[1] = 0;
    assert_eq!(*static_reference, [1, 0, 3, 4]);
}

#[test]
fn foundation_example_5() {
    let x1 = 42;
    let y1 = Box::new(84);
    {
        let z = (x1, y1);
        assert_eq!(*z.1, 84);
    }
    let x2 = x1;
    assert_eq!(x2, 42);
}

#[test]
fn foundation_example_6() {
    let x = 5;
    let mut y = 6;
    example_6_inner(&x, &mut y);
    assert_eq!(y, 10);
}

#[test]
fn example_7() {
    let x = 1;
    let mut y = 0;
    example_7_inner(&x, &mut y);
    assert_eq!(y, 2);
    let mut z = 0;
    example_7_inner(&5, &mut z);
    assert_eq!(z, 3);
}

#[test]
fn foundation_example_8() {
    let a = 24;
    let x = 42;
    let mut y = &x;
    y = &a;
    println!("{:?}", y);
    assert_eq!(*y, 24);
    let z = &mut y;
    *z = &x;
    println!("{:?}", y);
    assert_eq!(*y, 42);
}

#[test]
fn foundation_example_10() {
    let arbitrary_number = 0.5;
    let mut x = Box::new(42);
    let r = &x;
    if arbitrary_number > 0.5 {
        *x = 84;
    } else {
        println!("{}", r);
    }
    assert_eq!(*x, 42);
}

#[test]
fn foundation_example_11() {
    let mut x = Box::new(42);
    let mut z = &x;
    for i in 0..100 {
        println!("{:?}", z);
        x = Box::new(i);
        z = &x;
    }
    println!("{}", z);
    assert_eq!(**z, 99);
}

#[test]
fn foundation_example_12() {
    let target = "Hello, world!";
    let by = ",";
    let mut tokenizer = StrSplit::new(by, target);
    let mut tokens = Vec::new();
    while let Some(token) = tokenizer.next() {
        println!("{:?}", &token);
        tokens.push(token);
    }
    assert_eq!(tokens, vec![" world!", "Hello"]);
}

#[test]
fn split_without_a_match_is_one_piece() {
    let mut t = StrSplit::new(";", "abc");
    assert_eq!(t.next(), Some("abc"));
    assert_eq!(t.next(), None);
}

#[test]
fn split_of_empty_text_is_one_empty_piece() {
    let mut t = StrSplit::new(",", "");
    assert_eq!(t.next(), Some(""));
    assert_eq!(t.next(), None);
}

#[test]
fn split_keeps_empty_pieces_between_delimiters() {
    let mut t = StrSplit::new("--", "a----b");
    assert_eq!(t.next(), Some("b"));
    assert_eq!(t.next(), Some(""));
    assert_eq!(t.next(), Some("a"));
    assert_eq!(t.next(), None);
}

#[test]
fn doubling_negative_input() {
    let mut s = 0;
    example_6_inner(&-21, &mut s);
    assert_eq!(s, -42);
}

struct MutStr<'a, 'b> {
    s: &'a mut &'b str,
}

#[test]
fn foundation_example_13() {
    let mut s = "hello";
    *MutStr { s: &mut s }.s = "world";
    println!("{}", s);
    assert_eq!(s, "world");
}
