use rust_days::closures::{Cacher, Counter as ClickCounter, make_adder};
use rust_days::enums::{Coin, Direction, IpAddr, Message, move_player, plus_one, print_ip, process_message, value_in_cents};
use rust_days::errors::{ValidationError, parse_and_double, parse_positive, validate_age};
use rust_days::functions::{absolute_value, factorial, fibonacci, is_even, multiply, square};
use rust_days::generics::{MixedPoint, Pair, Point as GenericPoint, Stack, largest};
use rust_days::iterators::{Counter, Fibonacci};
use rust_days::lifetimes::{ImportantExcerpt, first_or_second, longest};
use rust_days::ownership::{
    User, birthday, calculate_length, calculate_length_tuple, change, first_word, gives_ownership,
    takes_and_gives_back,
};
use rust_days::smart_pointers::{List, MyBox, hello, print_list};
use rust_days::structs::Rectangle;
use rust_days::sums::sum_slice;
use rust_days::text::{contains_str, decimal_string, join_strings, signed_decimal_string};
use rust_days::traits::{Describable, NewsArticle, Person, Point, Summary, create_tweet};

#[test]
fn arithmetic() {
    assert_eq!(rust_days::functions::add(10, 20), 30);
    assert_eq!(square(7), 49);
    assert_eq!(multiply(2, 3) + multiply(4, 5), 26);
    assert_eq!(absolute_value(-5), 5);
    assert_eq!(absolute_value(3), 3);
    assert!(is_even(4));
    assert!(!is_even(7));
    assert!(is_even(-4));
    assert!(!is_even(-3));
}

#[test]
fn factorial_and_fibonacci() {
    assert_eq!(factorial(0), 1);
    assert_eq!(factorial(5), 120);
    assert_eq!(factorial(20), 2432902008176640000);
    assert_eq!(fibonacci(0), 0);
    assert_eq!(fibonacci(1), 1);
    assert_eq!(fibonacci(10), 55);
}

#[test]
fn ownership_and_borrowing() {
    assert_eq!(gives_ownership(), "yours");
    assert_eq!(takes_and_gives_back(String::from("hello")), "hello");
    let (s, len) = calculate_length_tuple(String::from("hello"));
    assert_eq!((s.as_str(), len), ("hello", 5));
    assert_eq!(calculate_length(&String::from("héllo")), 6);
    let mut s = String::from("hello");
    change(&mut s);
    assert_eq!(s, "hello world");
    let mut u = User { name: String::from("Alice"), age: 30 };
    birthday(&mut u);
    assert_eq!(u.age, 31);
}

#[test]
fn first_word_cases() {
    assert_eq!(first_word("hello world"), "hello");
    assert_eq!(first_word("single"), "single");
    assert_eq!(first_word(""), "");
    assert_eq!(first_word(" lead"), "");
}

#[test]
fn lifetimes() {
    assert_eq!(longest("long string is long", "xyz"), "long string is long");
    assert_eq!(longest("ab", "cd"), "cd");
    assert_eq!(first_or_second("hello", "world", true), "hello");
    assert_eq!(first_or_second("hello", "world", false), "hello");
    let e = ImportantExcerpt { part: "Call me Ishmael" };
    assert_eq!(e.level(), 3);
    assert_eq!(e.announce_and_return_part("Attention!"), "Call me Ishmael");
}

#[test]
fn enums() {
    assert_eq!(value_in_cents(&Coin::Penny), 1);
    assert_eq!(value_in_cents(&Coin::Quarter), 25);
    assert_eq!(plus_one(Some(5)), Some(6));
    assert_eq!(plus_one(None), None);
    assert_eq!(move_player(&Direction::East), "Moving east →");
    assert_eq!(print_ip(&IpAddr::V4(127, 0, 0, 1)), "IPv4: 127.0.0.1");
    assert_eq!(print_ip(&IpAddr::V6(String::from("::1"))), "IPv6: ::1");
    assert_eq!(Message::Move { x: 10, y: -20 }.call(), "Move to (10, -20)");
    assert_eq!(Message::Quit.call(), "Quit message");
    assert_eq!(process_message(&Message::ChangeColor(255, 128, 0)), "Color: RGB(255, 128, 0)");
    assert_eq!(process_message(&Message::Write(String::from("Hello"))), "Write: Hello");
}

#[test]
fn results() {
    assert_eq!(validate_age(30), Ok(30));
    assert_eq!(validate_age(-1), Err(ValidationError::NegativeAge));
    assert_eq!(validate_age(121), Err(ValidationError::TooOld));
    assert_eq!(validate_age(120), Ok(120));
    assert_eq!(parse_and_double("42"), Ok(84));
    assert_eq!(parse_and_double("-7"), Ok(-14));
    assert_eq!(
        parse_and_double("not a number"),
        Err(String::from("Parse error: invalid digit found in string"))
    );
    assert_eq!(parse_positive("42"), Ok(42));
    assert_eq!(parse_positive("+3"), Ok(3));
    assert_eq!(parse_positive("-5"), Err("Number must be positive"));
    assert_eq!(parse_positive("0"), Err("Number must be positive"));
    assert_eq!(parse_positive(""), Err("Invalid number format"));
    assert_eq!(parse_positive("99999999999"), Err("Invalid number format"));
}

#[test]
fn generics() {
    assert_eq!(*largest(&[34, 50, 25, 100, 65]), 100);
    assert_eq!(*largest(&['y', 'm', 'a', 'q']), 'y');
    let ties = [3, 5, 1, 5];
    assert!(std::ptr::eq(largest(&ties), &ties[1]));
    let p = GenericPoint { x: 5, y: 10 };
    assert_eq!((*p.x(), *p.y()), (5, 10));
    let mixed = MixedPoint { x: 5, y: 10.4 }.mixup(MixedPoint { x: "Hello", y: 'c' });
    assert_eq!((mixed.x, mixed.y), (5, 'c'));
    let pair = Pair::new(10, 20);
    assert_eq!((pair.x, pair.y), (10, 20));
}

#[test]
fn stack() {
    let mut s: Stack<i32> = Stack::new();
    assert!(s.is_empty());
    assert_eq!(s.pop(), None);
    s.push(1);
    s.push(2);
    s.push(3);
    assert_eq!(s.len(), 3);
    assert_eq!(s.peek(), Some(&3));
    assert_eq!(s.pop(), Some(3));
    assert_eq!(s.pop(), Some(2));
    assert_eq!(s.len(), 1);
    assert!(!s.is_empty());
}

#[test]
fn summaries() {
    let article = NewsArticle {
        headline: String::from("Rust 2.0 Released!"),
        author: String::from("Jane Doe"),
        content: String::from("The Rust team announced..."),
    };
    assert_eq!(article.summarize(), "Rust 2.0 Released!, by Jane Doe");
    assert_eq!(article.default_summary(), "(Read more from Jane Doe...)");
    let tweet = create_tweet();
    assert_eq!(tweet.summarize(), "@rust_daily: Tip of the day: Use traits! (50 retweets)");
    assert_eq!(tweet.summarize_author(), "@rust_daily");
    assert_eq!(tweet.default_summary(), "(Read more from @rust_daily...)");
}

#[test]
fn descriptions() {
    let p = Point { x: 3, y: -4 };
    assert_eq!(p.describe(), "Point at (3, -4)");
    assert_eq!(p.to_text(), "(3, -4)");
    assert_eq!(p.clone(), p);
    let person = Person { name: String::from("Alice"), age: 30 };
    assert_eq!(person.describe(), "Alice (30 years old)");
}

#[test]
fn closures() {
    let add_five = make_adder(5);
    assert_eq!(add_five(10), 15);
    let mut counter = ClickCounter { value: 0 };
    counter.increment();
    counter.increment();
    assert_eq!(counter.value, 2);
    let mut cache = Cacher::new(|x| x * 2);
    assert_eq!(cache.value(5), 10);
    assert_eq!(cache.value(7), 10);
}

#[test]
fn iterators() {
    let mut c = Counter::new(3);
    assert_eq!((c.next(), c.next(), c.next(), c.next()), (Some(1), Some(2), Some(3), None));
    let mut f = Fibonacci::new();
    let mut fibs = Vec::new();
    for _ in 0..10 {
        fibs.push(f.next().unwrap());
    }
    assert_eq!(fibs, vec![0, 1, 1, 2, 3, 5, 8, 13, 21, 34]);
}

#[test]
fn smart_pointers() {
    let list = List::Cons(1, Box::new(List::Cons(2, Box::new(List::Cons(-3, Box::new(List::Nil))))));
    assert_eq!(print_list(&list), "1 -> 2 -> -3 -> Nil");
    assert_eq!(print_list(&List::Nil), "Nil");
    let b = MyBox::new(5);
    assert_eq!(*b.deref(), 5);
    assert_eq!(hello("Rust"), "Hello, Rust!");
}

#[test]
fn rectangles() {
    let rect = Rectangle { width: 30, height: 50 };
    assert_eq!(rect.area(), 1500);
    assert_eq!(rect.perimeter(), 160);
    assert!(rect.can_hold(&Rectangle { width: 10, height: 40 }));
    assert!(!rect.can_hold(&Rectangle { width: 60, height: 45 }));
    let sq = Rectangle::square(25);
    assert!(sq.is_square());
    assert!(!rect.is_square());
    let scaled = Rectangle { width: 20, height: 30 }.scale(2);
    assert_eq!((scaled.width, scaled.height), (40, 60));
}

#[test]
fn sums() {
    let numbers: Vec<i32> = (1..=100).collect();
    assert_eq!(sum_slice(&numbers), 5050);
    assert_eq!(sum_slice(&[]), 0);
    assert_eq!(sum_slice(&[i32::MAX, i32::MAX]), 2 * i32::MAX as i64);
}

#[test]
fn text_helpers() {
    assert_eq!(decimal_string(0), "0");
    assert_eq!(decimal_string(4294967295), "4294967295");
    assert_eq!(signed_decimal_string(i32::MIN), "-2147483648");
    assert_eq!(signed_decimal_string(-7), "-7");
    assert!(contains_str("hello world", "o w"));
    assert!(contains_str("abc", ""));
    assert!(!contains_str("ab", "abc"));
    assert!(!contains_str("abc", "ac"));
    assert_eq!(join_strings(&vec![String::from("a"), String::from("b"), String::from("c")], ", "), "a, b, c");
    assert_eq!(join_strings(&vec![], ","), "");
}
