use sync_guides::idioms::{
    a_to_b, three_vowels_str, three_vowels_string, AdmitMoreVariants, HVec, MyEnum, Second, S,
};

#[test]
fn idioms_example_1() {
    let ferris = "Ferris".to_string();
    let curious = "Curious".to_string();
    println!("{}: {}", ferris, three_vowels_string(&ferris));
    println!("{}: {}", curious, three_vowels_string(&curious));
    assert!(!three_vowels_string(&ferris));
    assert!(three_vowels_string(&curious));
    println!("{}: {}", ferris, three_vowels_str(&ferris));
    println!("{}: {}", curious, three_vowels_str(&curious));
    assert!(!three_vowels_str(&ferris));
    assert!(three_vowels_str(&curious));
    println!("{}: {}", ferris, three_vowels_str("ferris"));
    println!("{}: {}", curious, three_vowels_str("curious"));
    assert!(!three_vowels_str("ferris"));
    assert!(three_vowels_str("curious"));
}

#[test]
fn vowel_runs_need_three_in_a_row() {
    assert!(!three_vowels_str(""));
    assert!(!three_vowels_str("ae"));
    assert!(three_vowels_str("aei"));
    assert!(!three_vowels_str("aexio"));
    assert!(!three_vowels_str("AEI"));
    assert!(three_vowels_str("queueing"));
    assert!(three_vowels_str("日本aou"));
}

#[test]
fn idioms_example_2() {
    let a: &i8 = &mut 42;
    println!("{}", a);
    assert_eq!(*a, 42);
}

#[test]
fn idioms_example_3() {
    let r: &i8 = &mut 42;
    assert_eq!(*r, 42);
}

#[test]
fn idioms_example_4() {
    let x: &i8 = &mut 42;
    assert_eq!(*x, 42);
}

#[test]
fn idioms_example_5() {
    let x: &u32 = &12;
    let d: &dyn std::fmt::Display = x;
    println!("{}", d);
    assert_eq!(format!("{}", d), "12");
}

#[test]
fn idioms_example_8() {
    let s = Second::new(42);
    assert_eq!(42, s.value());
    let s_default = Second::default();
    assert_eq!(0, s_default.value());
}

#[test]
fn idioms_example_10() {
    let hvec = HVec::new(&[1, 2, 3, 4, 5]);
    println!("{:?}", hvec.data());
    let values: Vec<i32> = hvec.data().iter().map(|b| **b).collect();
    assert_eq!(values, vec![1, 2, 3, 4, 5]);
    let empty: HVec<u8> = HVec::new(&[]);
    assert!(empty.data().is_empty());
}

#[test]
fn example_15() {
    let turing = Some("Turing");
    let mut logicians = vec!["Curry", "Kleene", "Markov"];
    logicians.extend(turing);
    if let Some(turing_inner) = turing {
        logicians.push(turing_inner);
    }
    for logician in logicians.iter().chain(turing.iter()) {
        println!("{} is a logician", logician);
    }
    assert_eq!(logicians, vec!["Curry", "Kleene", "Markov", "Turing", "Turing"]);
}

#[test]
fn example_16() {
    let num1 = std::rc::Rc::new(1);
    let num2 = std::rc::Rc::new(2);
    let num3 = std::rc::Rc::new(3);
    let closure = {
        let num2 = num2.clone();
        let num3 = num3.as_ref();
        move || *num1 + *num2 + *num3
    };
    assert_eq!(closure(), 6);
    assert_eq!(*num2, 2);
}

#[test]
fn example_17() {
    let s = S::new(0);
    let S { foo: _, .. } = s;
    let some_enum = AdmitMoreVariants::VariantA;
    let said = match some_enum {
        AdmitMoreVariants::VariantA => "It's an A",
        AdmitMoreVariants::VariantB => "It's a B",
        AdmitMoreVariants::VariantC { .. } => "It's a c",
        _ => "It's a new variant.",
    };
    println!("{}", said);
    assert_eq!(said, "It's an A");
}

#[test]
fn example_18() {
    let data_1 = {
        let mut data_1 = vec![2, 1, 5, 3, 4];
        data_1.sort();
        data_1
    };
    println!("{:?}", &data_1);
    let mut data_2 = vec![2, 1, 5, 3, 4];
    data_2.sort();
    let data_2 = data_2;
    println!("{:?}", &data_2);
    assert_eq!(data_1, data_2);
}

#[test]
fn zero_a_becomes_b() {
    let mut a = MyEnum::A { name: "MyEnum::A".to_string(), x: 0 };
    a_to_b(&mut a);
    assert!(matches!(a, MyEnum::B { ref name } if name == "MyEnum::A"));
    let mut c = MyEnum::A { name: "c".to_string(), x: 3 };
    a_to_b(&mut c);
    assert!(matches!(c, MyEnum::A { ref name, x: 3 } if name == "c"));
}

struct CharContainer {
    value: char,
}

impl std::ops::Deref for CharContainer {
    type Target = char;

    fn deref(&self) -> &char {
        &self.value
    }
}

fn foo(arg: &char) -> char {
    *arg
}

#[test]
fn idioms_example_6() {
    let x = &mut CharContainer { value: 'y' };
    assert_eq!(foo(x), 'y');
}

#[derive(Debug, Default, PartialEq)]
struct MyConfig {
    output: Option<std::path::PathBuf>,
    search_path: Vec<std::path::PathBuf>,
    timeout: std::time::Duration,
    check: bool,
}

#[test]
fn idioms_example_9() {
    let mut config = MyConfig::default();
    config.check = true;
    println!("config = {:#?}", config);
    assert!(config.output.is_none());
    assert!(config.search_path.is_empty());
    assert_eq!(config.timeout, std::time::Duration::ZERO);
    assert!(config.check);
}
