use technical_analysis::{SlidingWindow, SmaFactory};

fn contents(w: &SlidingWindow<f64>) -> Vec<f64> {
    let mut v = Vec::new();
    for i in 0..w.len() {
        v.push(w.get(i));
    }
    v
}

fn mean(w: &SlidingWindow<f64>) -> f64 {
    contents(w).iter().sum::<f64>() / (w.len() as f64)
}

#[test]
fn window_holds_last_inputs_and_averages_them() {
    let mut w = SmaFactory::new().with_window_size(5).build_window::<f64>().unwrap();
    let inputs = [10.0, 20.0, 15.0, 10.0, 10.0, 10.0, 12.5];
    let means = [10.0, 15.0, 15.0, 13.75, 13.0, 13.0, 11.5];
    for k in 0..inputs.len() {
        w.push(inputs[k]);
        let start = if k + 1 > 5 { k + 1 - 5 } else { 0 };
        assert_eq!(contents(&w), inputs[start..=k].to_vec());
        assert_eq!(mean(&w), means[k]);
    }
}

#[test]
fn window_evicts_oldest_once_full() {
    let mut w: SlidingWindow<u64> = SlidingWindow::new(3);
    assert_eq!(w.push(1), None);
    assert_eq!(w.push(2), None);
    assert_eq!(w.push(3), None);
    assert!(w.is_full());
    assert_eq!(w.push(4), Some(1));
    assert_eq!(w.push(5), Some(2));
    assert_eq!(w.push(6), Some(3));
    assert_eq!(w.push(7), Some(4));
    assert_eq!(w.len(), 3);
    assert_eq!(w.get(0), 5);
    assert_eq!(w.get(1), 6);
    assert_eq!(w.get(2), 7);
}

#[test]
fn window_of_one_keeps_only_newest() {
    let mut w: SlidingWindow<i32> = SlidingWindow::new(1);
    assert_eq!(w.push(-4), None);
    assert_eq!(w.push(9), Some(-4));
    assert_eq!(w.len(), 1);
    assert_eq!(w.get(0), 9);
}

#[test]
fn window_grows_before_it_fills() {
    let mut w: SlidingWindow<u8> = SlidingWindow::new(4);
    w.push(7);
    w.push(8);
    assert_eq!(w.len(), 2);
    assert!(!w.is_full());
    assert_eq!(w.get(0), 7);
    assert_eq!(w.get(1), 8);
}
