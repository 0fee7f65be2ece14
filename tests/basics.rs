use technical_analysis::{check_window_size, WindowSizeError};

#[test]
fn it_works() {
    let result = 2 + 2;
    assert_eq!(result, 4);
}

#[test]
fn window_size_zero_and_one_are_rejected() {
    assert_eq!(check_window_size(0), Err(WindowSizeError { size: 0 }));
    assert_eq!(check_window_size(1), Err(WindowSizeError { size: 1 }));
}

#[test]
fn window_size_above_one_is_accepted() {
    assert_eq!(check_window_size(2), Ok(()));
    assert_eq!(check_window_size(5), Ok(()));
    assert_eq!(check_window_size(usize::MAX), Ok(()));
}
