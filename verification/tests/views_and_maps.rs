use resultish::Resultish;
use resultish::Resultish::{Both, Failure, Success};

#[test]
fn as_ref_keeps_the_variant() {
    let x: Resultish<i32, String> = Success(3);
    assert_eq!(x.as_ref(), Success(&3));
    let x: Resultish<i32, String> = Failure(String::from("bad"));
    assert_eq!(x.as_ref(), Failure(&String::from("bad")));
    let x: Resultish<i32, String> = Both(3, String::from("bad"));
    assert_eq!(x.as_ref(), Both(&3, &String::from("bad")));
    assert_eq!(x.as_ref().lenient_ok(), Some(&3));
    assert_eq!(x, Both(3, String::from("bad")));
}

#[test]
fn as_mut_writes_through_to_success() {
    let mut x: Resultish<i32, String> = Success(3);
    match x.as_mut() {
        Success(t) => *t += 1,
        _ => panic!("a success has to stay a success"),
    }
    assert_eq!(x, Success(4));
}

#[test]
fn as_mut_writes_through_to_failure() {
    let mut x: Resultish<i32, String> = Failure(String::from("bad"));
    match x.as_mut() {
        Failure(e) => e.push('!'),
        _ => panic!("a failure has to stay a failure"),
    }
    assert_eq!(x, Failure(String::from("bad!")));
}

#[test]
fn as_mut_writes_through_to_both() {
    let mut x: Resultish<i32, String> = Both(3, String::from("bad"));
    match x.as_mut() {
        Both(t, e) => {
            *t = 10;
            e.clear();
        }
        _ => panic!("a mixed outcome has to stay mixed"),
    }
    assert_eq!(x, Both(10, String::new()));
}

#[test]
fn as_mut_without_writes_changes_nothing() {
    let mut x: Resultish<i32, String> = Both(3, String::from("bad"));
    let view = x.as_mut();
    assert!(view.has_ok() && view.has_err());
    assert_eq!(x, Both(3, String::from("bad")));
}

#[test]
fn map_applies_to_the_success_value_only() {
    let double = |t: i32| t * 2;
    assert_eq!(Success::<i32, &str>(3).map(double), Success(6));
    assert_eq!(Failure::<i32, &str>("bad").map(double), Failure("bad"));
    assert_eq!(Both(3, "bad").map(double), Both(6, "bad"));
}

#[test]
fn map_err_applies_to_the_error_value_only() {
    let len = |e: &str| e.len();
    assert_eq!(Success::<i32, &str>(3).map_err(len), Success(3));
    assert_eq!(Failure::<i32, &str>("bad").map_err(len), Failure(3));
    assert_eq!(Both(3, "bad").map_err(len), Both(3, 3));
}

#[test]
fn map_can_change_the_payload_type() {
    let x: Resultish<i32, &str> = Both(42, "warn");
    let y: Resultish<String, &str> = x.map(|t: i32| t.to_string());
    assert_eq!(y, Both(String::from("42"), "warn"));
}

#[test]
fn map_does_not_call_the_function_without_a_success_value() {
    let x: Resultish<i32, &str> = Failure("bad");
    let y: Resultish<i32, &str> = x.map(|_t: i32| -> i32 { panic!("there is no success value") });
    assert_eq!(y, Failure("bad"));
}

#[test]
fn map_err_does_not_call_the_function_without_an_error_value() {
    let x: Resultish<i32, &str> = Success(3);
    let y: Resultish<i32, usize> = x.map_err(|_e: &str| -> usize { panic!("there is no error value") });
    assert_eq!(y, Success(3));
}

#[test]
fn map_takes_a_function_that_can_be_called_once() {
    let prefix: String = String::from("value: ");
    let x: Resultish<i32, &str> = Success(3);
    let y = x.map(move |t: i32| {
        let mut s = prefix;
        s.push_str(&t.to_string());
        s
    });
    assert_eq!(y, Success(String::from("value: 3")));
}

#[test]
fn map_with_identity_gives_the_outcome_back() {
    let all: Vec<Resultish<i32, &str>> = vec![Success(1), Failure("e"), Both(2, "w")];
    for x in all {
        assert_eq!(x.map(|t: i32| t), x);
        assert_eq!(x.map_err(|e: &str| e), x);
    }
}

#[test]
fn map_twice_is_map_with_the_composition() {
    let f = |t: i32| t + 1;
    let g = |u: i32| u * 10;
    let all: Vec<Resultish<i32, &str>> = vec![Success(1), Failure("e"), Both(2, "w")];
    for x in all {
        assert_eq!(x.map(f).map(g), x.map(|t: i32| g(f(t))));
    }
    assert_eq!(Both(2, "w").map(f).map(g), Both(30, "w"));
}

#[test]
fn map_err_twice_is_map_err_with_the_composition() {
    let f = |e: &str| e.len();
    let g = |n: usize| n + 1;
    let all: Vec<Resultish<i32, &str>> = vec![Success(1), Failure("e"), Both(2, "warn")];
    for x in all {
        assert_eq!(x.map_err(f).map_err(g), x.map_err(|e: &str| g(f(e))));
    }
    assert_eq!(Both(2, "warn").map_err(f).map_err(g), Both(2, 5));
}

#[test]
fn map_and_map_err_commute() {
    let f = |t: i32| t + 1;
    let g = |e: &str| e.len();
    let all: Vec<Resultish<i32, &str>> = vec![Success(1), Failure("e"), Both(2, "warn")];
    for x in all {
        assert_eq!(x.map(f).map_err(g), x.map_err(g).map(f));
    }
}
