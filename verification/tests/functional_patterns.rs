use design_patterns::functional::applicative::apply_option;
use design_patterns::functional::applicative::pure_option;
use design_patterns::functional::applicative::AppResult;
use design_patterns::functional::composition::compose;
use design_patterns::functional::composition::compose3;
use design_patterns::functional::composition::pipe;
use design_patterns::functional::currying::add;
use design_patterns::functional::currying::format_greeting;
use design_patterns::functional::currying::multiply;
use design_patterns::functional::functor::map_option;
use design_patterns::functional::functor::map_vec;
use design_patterns::functional::functor::Maybe;
use design_patterns::functional::memoization::memoized;
use design_patterns::functional::options::with_floors;
use design_patterns::functional::options::with_material_kerpic;
use design_patterns::functional::options::without_fireplace;
use design_patterns::functional::options::House;
use design_patterns::functional::promise::Promise;

#[test]
fn test_applicative() {
    // Applicative for Option
    let value = Some(5);
    let func = Some(|x: i32| x * 2);
    let result = apply_option(value, func);
    assert_eq!(result, Some(10));

    let none_value: Option<i32> = None;
    let result_none = apply_option(none_value, Some(|x: i32| x * 2));
    assert_eq!(result_none, None);

    // Pure for Option
    let pure_val = pure_option(42);
    assert_eq!(pure_val, Some(42));

    // Applicative for AppResult
    let ok_value: AppResult<i32, &str> = AppResult::ok(10);
    let ok_func: AppResult<fn(i32) -> i32, &str> = AppResult::ok(|x: i32| x + 5);
    let app_result = ok_value.apply(ok_func);
    assert_eq!(app_result, AppResult::ok(15));

    let err_value: AppResult<i32, &str> = AppResult::err("Error");
    let app_err = err_value.apply(AppResult::ok(|x: i32| x + 5));
    assert_eq!(app_err, AppResult::err("Error"));
}

#[test]
fn test_composition() {
    let add_one = |x: i32| x + 1;
    let multiply_two = |x: i32| x * 2;
    let to_string = |x: i32| format!("Result: {}", x);

    let composed = compose(add_one, multiply_two);
    assert_eq!(composed(3), 8); // (3 + 1) * 2 = 8

    let composed3 = compose3(add_one, multiply_two, to_string);
    assert_eq!(composed3(3), "Result: 8");

    let piped = pipe(add_one, multiply_two);
    assert_eq!(piped(3), 8); // 3 + 1 = 4, 4 * 2 = 8

    let square = |x: i32| x * x;
    let negate = |x: i32| -x;
    let double = |x: i32| x * 2;

    let complex = compose3(square, negate, double);
    assert_eq!(complex(3), -18); // (3^2) = 9, -9 = -9, -9 * 2 = -18
}

#[test]
fn test_currying() {
    // Simple currying
    let add_five = add(5);
    assert_eq!(add_five.apply(3), 8);
    assert_eq!(add_five.apply(10), 15);

    // Currying with three arguments
    let multiply_by_two = multiply(2);
    let multiply_by_four = multiply_by_two.apply(2);
    assert_eq!(multiply_by_four.apply(5), 20);

    // Partial application
    let greet_hello = format_greeting("Hello");
    assert_eq!(greet_hello.apply("World"), "Hello World");

    let greet_hi = format_greeting("Hi");
    assert_eq!(greet_hi.apply("Rust"), "Hi Rust");
}

#[test]
fn test_functor() {
    // Functor for Option
    let some_val: Option<i32> = Some(5);
    let mapped_some = map_option(some_val, |x| x * 2);
    assert_eq!(mapped_some, Some(10));

    let none_val: Option<i32> = None;
    let mapped_none = map_option(none_val, |x| x * 2);
    assert_eq!(mapped_none, None);

    // Functor for Vec
    let vec_val = vec![1, 2, 3];
    let mapped_vec = map_vec(vec_val, |x| x * 3);
    assert_eq!(mapped_vec, vec![3, 6, 9]);

    // Functor for Maybe
    let maybe_some = Maybe::some(42);
    let mapped_maybe = maybe_some.map(|x| x + 8);
    assert_eq!(mapped_maybe, Maybe::some(50));

    let maybe_none = Maybe::<i32>::none();
    let mapped_maybe_none = maybe_none.map(|x| x + 8);
    assert_eq!(mapped_maybe_none, Maybe::none());
}

#[test]
fn test_memoization() {
    fn fib(n: u64) -> u64 {
        if n <= 1 {
            n
        } else {
            fib(n - 1) + fib(n - 2)
        }
    }

    let mut memo_fib = memoized(|n: u64| {
        if n <= 1 {
            n
        } else {
            fib(n - 1) + fib(n - 2)
        }
    });

    // First call computes
    let result1 = memo_fib.call(5);
    assert_eq!(result1, 5);

    // Second call with the same argument comes from the cache
    let result2 = memo_fib.call(5);
    assert_eq!(result2, 5);

    assert_eq!(memo_fib.cache_size(), 1);

    let result3 = memo_fib.call(3);
    assert_eq!(result3, 2);
    assert_eq!(memo_fib.cache_size(), 2);
}

#[test]
fn test_option() {
    // Default house
    let default_house = House::new(vec![]);
    assert_eq!(default_house.material, "wood");
    assert_eq!(default_house.has_fireplace, true);
    assert_eq!(default_house.floors, 2);

    // Kerpic house
    let kerpic_house = House::new(vec![with_material_kerpic()]);
    assert_eq!(kerpic_house.material, "kerpic");
    assert_eq!(kerpic_house.has_fireplace, true);
    assert_eq!(kerpic_house.floors, 2);

    // House without a fireplace, three floors
    let custom_house = House::new(vec![without_fireplace(), with_floors(3)]);
    assert_eq!(custom_house.material, "wood");
    assert_eq!(custom_house.has_fireplace, false);
    assert_eq!(custom_house.floors, 3);

    // House with every option
    let full_house = House::new(vec![with_material_kerpic(), without_fireplace(), with_floors(5)]);
    assert_eq!(full_house.material, "kerpic");
    assert_eq!(full_house.has_fireplace, false);
    assert_eq!(full_house.floors, 5);
}

#[test]
fn test_promise() {
    let promise = Promise::<i32, &str>::new().resolve(42).then(|x| x * 2);
    assert!(promise.is_fulfilled());

    let chained = Promise::<i32, &str>::new().resolve(10).then(|x| x + 5).then(|x| x * 3);
    match chained {
        Promise::Fulfilled(value) => assert_eq!(value, 45),
        _ => panic!("Expected fulfilled"),
    }

    let rejected = Promise::<i32, &str>::new().reject("Error occurred").catch(|_| 0);
    assert!(rejected.is_fulfilled());
    match rejected {
        Promise::Fulfilled(value) => assert_eq!(value, 0),
        _ => panic!("Expected fulfilled after catch"),
    }
}

#[test]
fn test_promise_rejected_state() {
    let rejected = Promise::<i32, &str>::new().reject("boom");
    assert!(rejected.is_rejected());
    assert!(!rejected.is_fulfilled());

    let still_pending = Promise::<i32, &str>::new().then(|x| x + 1);
    assert!(!still_pending.is_fulfilled());
    assert!(!still_pending.is_rejected());
}

#[test]
fn test_app_result_map() {
    let ok: AppResult<i32, &str> = AppResult::ok(4);
    assert_eq!(ok.map(|x| x * 10), AppResult::ok(40));
    let err: AppResult<i32, &str> = AppResult::err("bad");
    assert_eq!(err.map(|x| x * 10), AppResult::err("bad"));
}
