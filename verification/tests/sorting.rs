use ledger_modules::sorting::{bubble_sort, bubble_sort2};

#[test]
fn t1() {
    let v = vec![3, 5, 45, 5, 86, 91, 123, 32, 1, 56];
    println!("{:?}", v);
    let v: [i32; 10] = v.clone().try_into().unwrap();
    let vr = [3, 5, 45, 5, 86, 91, 123, 32, 1, 56];
    println!("{:?}", v);
    assert_eq!(v, vr);
    let v = v.to_vec();
    let vr = vec![3, 5, 45, 5, 86, 91, 123, 32, 1, 56];
    println!("{:?}", v);
    assert_eq!(v, vr);
}

#[test]
fn t2() {
    let v = vec![3, 5, 45, 5, 86, 91, 123, 32, 1, 56];
    println!("{:?}", v);
    let v = bubble_sort(&v, true);
    println!("{:?}", v);
    assert_eq!(v, vec![1, 3, 5, 5, 32, 45, 56, 86, 91, 123]);
    let v = bubble_sort(&v, false);
    println!("{:?}", v);
    assert_eq!(v, vec![123, 91, 86, 56, 45, 32, 5, 5, 3, 1]);
}

#[test]
fn t3() {
    let s = "h*ll wor#$";

    let bts = s.as_bytes();

    println!("\nfor");
    for i in bts {
        println!(" {}={}", i, *i as char);
    }

    println!("\nfor iter");
    for i in bts.iter() {
        println!(" {}", i);
    }

    println!("\nfor iter enumerate");
    for (i, v) in bts.iter().enumerate() {
        println!(" {}:{}", i, v);
    }
    println!("\n{:?} {:?}", s, bts);

    assert_eq!(s.clone(), s);

    let s = b"h*ll wor#$";

    assert_eq!(s, bts);
}

#[test]
fn bubble_sort_of_one_element_is_that_element() {
    assert_eq!(bubble_sort(&vec![7u8], true), vec![7u8]);
    assert_eq!(bubble_sort(&vec![7u8], false), vec![7u8]);
}

#[test]
fn bubble_sort_keeps_every_element() {
    let v = vec![2u32, 2, 1, 3, 1];
    assert_eq!(bubble_sort(&v, true), vec![1, 1, 2, 2, 3]);
    assert_eq!(bubble_sort(&v, false), vec![3, 2, 2, 1, 1]);
    assert_eq!(v, vec![2, 2, 1, 3, 1]);
}

#[test]
fn bubble_sort2_sorts_in_place_ascending() {
    let mut v = vec![3, 5, 45, 5, 86, 91, 123, 32, 1, 56];
    bubble_sort2(&mut v);
    assert_eq!(v, vec![1, 3, 5, 5, 32, 45, 56, 86, 91, 123]);
    let mut one = [9i64];
    bubble_sort2(&mut one);
    assert_eq!(one, [9]);
    let mut words = vec![String::from("pear"), String::from("apple"), String::from("fig")];
    bubble_sort2(&mut words);
    assert_eq!(words, vec!["apple", "fig", "pear"]);
}
