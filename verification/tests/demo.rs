use demo_runner::fetch::ApiClient;
use demo_runner::numfmt::i32_to_string;
use demo_runner::numfmt::u32_to_string;
use demo_runner::person::Person;
use demo_runner::steps::classify;
use demo_runner::steps::even_squares;
use demo_runner::steps::loop_lines;
use demo_runner::steps::match_message;
use demo_runner::steps::option_line;
use demo_runner::strmap::StrMap;

#[test]
fn default_person_fields() {
    let p = Person::create_default();
    assert_eq!(p.name, "Alice");
    assert_eq!(p.age, 30);
    assert_eq!(p.flying_force_centi, 999999);
}

#[test]
fn default_flying_force_as_float() {
    let p = Person::create_default();
    assert_eq!(p.flying_force_centi as f64 / 100.0, 9999.99);
}

#[test]
fn greeting_contains_exactly_the_name() {
    let p = Person::new("Bob", 7, 1500);
    assert_eq!(p.greet(), "Hello, my name is Bob");
    let q = Person::new("", 0, 0);
    assert_eq!(q.greet(), "Hello, my name is ");
}

#[test]
fn greeting_default() {
    assert_eq!(Person::create_default().greet(), "Hello, my name is Alice");
}

#[test]
fn describe_combines_name_and_age() {
    assert_eq!(Person::create_default().describe(), "Alice is 30 years old");
    assert_eq!(Person::new("Bob", 0, 0).describe(), "Bob is 0 years old");
}

#[test]
fn classify_branches() {
    assert_eq!(classify(5), "x is greater than 3");
    assert_eq!(classify(4), "x is greater than 3");
    assert_eq!(classify(3), "x is 3");
    assert_eq!(classify(2), "x is less than 3");
    assert_eq!(classify(0), "x is less than 3");
    assert_eq!(classify(-1), "x is less than 3");
}

#[test]
fn match_arms() {
    assert_eq!(match_message(1), "one");
    assert_eq!(match_message(2), "two");
    assert_eq!(match_message(0), "something else");
    assert_eq!(match_message(3), "something else");
    assert_eq!(match_message(5), "something else");
    assert_eq!(match_message(-2), "something else");
}

#[test]
fn even_squares_demo_list() {
    let numbers = vec![1, 2, 3, 4, 5];
    assert_eq!(even_squares(&numbers), vec![4, 16]);
}

#[test]
fn even_squares_edges() {
    let empty: Vec<i32> = vec![];
    assert_eq!(even_squares(&empty), Vec::<i32>::new());
    assert_eq!(even_squares(&vec![-2, -3, 6]), vec![4, 36]);
    assert_eq!(even_squares(&vec![1, 3, 5]), Vec::<i32>::new());
}

#[test]
fn loop_lines_five() {
    let lines = loop_lines(5);
    assert_eq!(lines, vec!["i is 0", "i is 1", "i is 2", "i is 3", "i is 4"]);
}

#[test]
fn loop_lines_zero() {
    assert_eq!(loop_lines(0), Vec::<String>::new());
}

#[test]
fn decimal_texts() {
    assert_eq!(u32_to_string(0), "0");
    assert_eq!(u32_to_string(30), "30");
    assert_eq!(u32_to_string(4294967295), "4294967295");
    assert_eq!(i32_to_string(0), "0");
    assert_eq!(i32_to_string(-5), "-5");
    assert_eq!(i32_to_string(2147483647), "2147483647");
    assert_eq!(i32_to_string(-2147483648), "-2147483648");
}

#[test]
fn option_present_and_absent() {
    assert_eq!(option_line(Some(42)), Some(String::from("The value is 42")));
    assert_eq!(option_line(Some(-7)), Some(String::from("The value is -7")));
    assert_eq!(option_line(None), None);
}

#[test]
fn fetch_always_succeeds_with_payload() {
    let client = ApiClient;
    let expected = "{\"status\": \"success\", \"data\": [1,2,3,4,5]}";
    for url in ["https://api.example.com/data", "", "not a url"] {
        match client.response_for(url) {
            Ok(data) => assert_eq!(data, expected),
            Err(_) => panic!("the simulated fetch never fails"),
        }
    }
}

#[test]
fn map_lookup_after_insert() {
    let person = Person::create_default();
    let mut map = StrMap::new();
    map.insert("name", person.name.as_str());
    map.insert("age", u32_to_string(person.age).as_str());
    assert_eq!(map.get(&String::from("name")), Some(&String::from("Alice")));
    assert_eq!(map.get(&String::from("age")), Some(&String::from("30")));
}

#[test]
fn map_absent_key() {
    let empty = StrMap::new();
    assert_eq!(empty.get(&String::from("name")), None);
    let mut map = StrMap::new();
    map.insert("name", "Alice");
    assert_eq!(map.get(&String::from("missing")), None);
}

#[test]
fn map_insert_shadows() {
    let mut map = StrMap::new();
    map.insert("name", "Alice");
    map.insert("name", "Bob");
    assert_eq!(map.get(&String::from("name")), Some(&String::from("Bob")));
}
