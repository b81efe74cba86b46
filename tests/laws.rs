use composable::{
    compose, compose_t, composed3, composed4, composed5, AddTo, AddToMsg, ComposeWith, Composable,
    Error, MultiplyBy, Result,
};
use std::cell::Cell;

struct Square;

impl Composable<usize, usize> for Square {
    fn apply(&self, input: usize) -> Result<usize> {
        Ok(input * input)
    }
}

fn square_fn(x: usize) -> Result<usize> {
    Ok(x * x)
}

fn fail_on_odd(x: usize) -> Result<usize> {
    if x % 2 == 1 {
        Err(Error::new("odd input"))
    } else {
        Ok(x)
    }
}

#[test]
fn add_to_fails_when_sum_overflows() {
    let a = AddTo { addend: usize::MAX };
    assert!(a.apply(1).is_err());
    assert_eq!(a.apply(0), Ok(usize::MAX));
}

#[test]
fn multiply_by_fails_when_product_overflows() {
    let m = MultiplyBy { factor: 2 };
    assert!(m.apply(usize::MAX / 2 + 1).is_err());
    assert_eq!(m.apply(usize::MAX / 2), Ok(usize::MAX - 1));
}

#[test]
fn add_to_msg_reports_hello() {
    let a = AddToMsg { addend: 3 };
    assert_eq!(a.apply(4), Ok((7, "hello".to_string())));
    assert!(AddToMsg { addend: usize::MAX }.apply(1).is_err());
}

#[test]
fn error_keeps_its_message() {
    let e = Error::new("division by zero");
    assert_eq!(e.message(), "division by zero");
}

#[test]
fn first_failure_skips_second_step() {
    let fired = Cell::new(false);
    let failing = |_x: usize| -> Result<usize> { Err(Error::new("first failed")) };
    let watched = |x: usize| -> Result<usize> {
        fired.set(true);
        Ok(x)
    };
    let c = compose(failing, watched);
    let r = c.apply(1);
    assert_eq!(r, Err(Error::new("first failed")));
    assert!(!fired.get());
}

#[test]
fn second_step_runs_after_success() {
    let fired = Cell::new(false);
    let watched = |x: usize| -> Result<usize> {
        fired.set(true);
        Ok(x)
    };
    let c = compose(AddTo { addend: 1 }, watched);
    assert_eq!(c.apply(1), Ok(2));
    assert!(fired.get());
}

#[test]
fn failure_passes_through_unchanged() {
    let c = composed3(AddTo { addend: 1 }, fail_on_odd, MultiplyBy { factor: 3 });
    assert_eq!(c.apply(1), Ok(6));
    let r = c.apply(2);
    assert_eq!(r.unwrap_err().message(), "odd input");
}

#[test]
fn method_and_function_agree() {
    for x in [0usize, 1, 7, usize::MAX] {
        let by_fn = compose(AddTo { addend: 4 }, MultiplyBy { factor: 2 });
        let by_method = AddTo { addend: 4 }.compose(MultiplyBy { factor: 2 });
        assert_eq!(by_fn.apply(x), by_method.apply(x));
    }
}

#[test]
fn composition_is_associative() {
    for x in [0usize, 1, 2, 3, 10, usize::MAX - 2, usize::MAX] {
        let left = compose(compose(AddTo { addend: 3 }, fail_on_odd), MultiplyBy { factor: 5 });
        let right = compose(AddTo { addend: 3 }, compose(fail_on_odd, MultiplyBy { factor: 5 }));
        assert_eq!(left.apply(x), right.apply(x));
    }
}

#[test]
fn chain_equals_left_fold() {
    for x in [0usize, 1, 2, 5] {
        let chain = composed4(AddTo { addend: 1 }, square_fn, MultiplyBy { factor: 2 }, AddTo { addend: 7 });
        let fold = compose(
            compose(compose(AddTo { addend: 1 }, square_fn), MultiplyBy { factor: 2 }),
            AddTo { addend: 7 },
        );
        assert_eq!(chain.apply(x), fold.apply(x));
    }
    assert_eq!(
        composed4(AddTo { addend: 1 }, square_fn, MultiplyBy { factor: 2 }, AddTo { addend: 7 })
            .apply(2),
        Ok(25)
    );
}

#[test]
fn five_step_chain() {
    let c = composed5(
        AddTo { addend: 1 },
        MultiplyBy { factor: 2 },
        AddTo { addend: 1 },
        MultiplyBy { factor: 2 },
        AddTo { addend: 1 },
    );
    assert_eq!(c.apply(0), Ok(7));
    assert_eq!(c.apply(3), Ok(19));
}

#[test]
fn mixed_chain_matches_struct_chain() {
    let closure = |x: usize| Ok(x * x);
    for x in [0usize, 1, 2, 9] {
        let mixed = composed3(AddTo { addend: 4 }, closure, square_fn);
        let structs = composed3(AddTo { addend: 4 }, Square, Square);
        assert_eq!(mixed.apply(x), structs.apply(x));
    }
    assert_eq!(composed3(AddTo { addend: 4 }, Square, Square).apply(1), Ok(625));
}

#[test]
fn payloads_nest_in_order() {
    let first = |x: usize| -> Result<(usize, char)> { Ok((x + 1, 'a')) };
    let second = |x: usize| -> Result<(usize, &'static str)> { Ok((x * 10, "b")) };
    let c = compose_t(first, second);
    assert_eq!(c.apply(4), Ok((50, ('a', "b"))));
}

#[test]
fn payload_composition_stops_at_first_failure() {
    let fired = Cell::new(false);
    let first = |_x: usize| -> Result<(usize, u8)> { Err(Error::new("no value")) };
    let second = |x: usize| -> Result<(usize, u8)> {
        fired.set(true);
        Ok((x, 2))
    };
    let c = compose_t(first, second);
    assert_eq!(c.apply(1), Err(Error::new("no value")));
    assert!(!fired.get());
}

#[test]
fn payload_composition_reports_second_failure() {
    let second = |_x: usize| -> Result<(usize, String)> { Err(Error::new("second failed")) };
    let c = compose_t(AddToMsg { addend: 1 }, second);
    assert_eq!(c.apply(1), Err(Error::new("second failed")));
}
