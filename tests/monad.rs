use mrust::monad::{Applicative, Apply, Functor, Monad};

fn half(x: i32) -> Option<i32> {
    if x % 2 == 0 { Some(x / 2) } else { None }
}

fn checked_half(x: i32) -> Result<i32, String> {
    if x % 2 == 0 { Ok(x / 2) } else { Err(format!("{x} is odd")) }
}

#[test]
fn option_pure_wraps() {
    let v: Option<i32> = Option::pure(7);
    assert_eq!(v, Some(7));
}

#[test]
fn option_bind_sequences_and_short_circuits() {
    assert_eq!(Some(8).bind(half).bind(half), Some(2));
    assert_eq!(Some(6).bind(half).bind(half), None);
    assert_eq!(None.bind(half), None);
}

#[test]
fn option_fmap_and_ap() {
    assert_eq!(Some(3).fmap(|x| x + 1), Some(4));
    assert_eq!(None::<i32>.fmap(|x| x + 1), None);
    assert_eq!(Some(3).ap(Some(|x: i32| x * 10)), Some(30));
    assert_eq!(Some(3).ap(None::<fn(i32) -> i32>), None);
    assert_eq!(None::<i32>.ap(Some(|x: i32| x * 10)), None);
}

#[test]
fn result_pure_wraps() {
    let v: Result<i32, String> = Result::pure(7);
    assert_eq!(v, Ok(7));
}

#[test]
fn result_bind_keeps_first_error() {
    assert_eq!(Ok(8).bind(checked_half).bind(checked_half), Ok(2));
    assert_eq!(Ok(6).bind(checked_half).bind(checked_half), Err("3 is odd".to_string()));
    assert_eq!(Err::<i32, String>("early".to_string()).bind(checked_half), Err("early".to_string()));
}

#[test]
fn result_fmap_and_ap() {
    assert_eq!(Ok::<i32, String>(3).fmap(|x| x + 1), Ok(4));
    assert_eq!(Err::<i32, String>("e".to_string()).fmap(|x| x + 1), Err("e".to_string()));
    assert_eq!(Ok::<i32, String>(3).ap(Ok(|x: i32| x * 10)), Ok(30));
    assert_eq!(
        Ok::<i32, String>(3).ap(Err::<fn(i32) -> i32, String>("f".to_string())),
        Err("f".to_string())
    );
    assert_eq!(
        Err::<i32, String>("a".to_string()).ap(Err::<fn(i32) -> i32, String>("f".to_string())),
        Err("a".to_string())
    );
}

#[test]
fn logging_style_unit_chain() {
    // `step()?; if cond { step()?; }?; ret(2)` over `Result`, as rewritten
    let step = || -> Result<(), String> { Ok(()) };
    let run = |cond: bool| -> Result<i32, String> {
        step().bind(|_| {
            (if cond { step().bind(|_| Result::pure(())) } else { Result::pure(()) })
                .bind(|_| Result::pure(2))
        })
    };
    assert_eq!(run(true), Ok(2));
    assert_eq!(run(false), Ok(2));
}
