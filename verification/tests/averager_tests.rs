use averager::averager::{average, AverageResult, Mean};

fn present(r: AverageResult) -> Mean {
    match r {
        AverageResult::Present(m) => m,
        AverageResult::Absent => panic!("expected Present"),
    }
}

#[test]
fn empty_input_is_absent() {
    let v: Vec<i32> = Vec::new();
    assert_eq!(average(&v), AverageResult::Absent);
}

#[test]
fn single_element_five() {
    let m = present(average(&vec![5]));
    assert_eq!(m.sum, 5);
    assert_eq!(m.count, 1);
    assert_eq!(m.sum as f64 / m.count as f64, 5.0);
}

#[test]
fn one_to_five_averages_three() {
    let m = present(average(&vec![1, 2, 3, 4, 5]));
    assert_eq!(m.sum, 15);
    assert_eq!(m.count, 5);
    assert_eq!(m.sum as f64 / m.count as f64, 3.0);
}

#[test]
fn opposite_pair_averages_zero() {
    let m = present(average(&vec![-1, 1]));
    assert_eq!(m.sum, 0);
    assert_eq!(m.count, 2);
    assert_eq!(m.sum as f64 / m.count as f64, 0.0);
}

#[test]
fn matches_independent_reference() {
    let v: Vec<i32> = vec![12, -7, 0, 33, 33, -100, 2147483647, 5];
    let mut reference_sum: i128 = 0;
    for x in &v {
        reference_sum += *x as i128;
    }
    let m = present(average(&v));
    assert_eq!(m.sum, reference_sum);
    assert_eq!(m.count, v.len());
    assert_eq!(
        m.sum as f64 / m.count as f64,
        reference_sum as f64 / (v.len() as f64)
    );
}

#[test]
fn extreme_elements_do_not_overflow() {
    let v = vec![i32::MAX, i32::MAX];
    let m = present(average(&v));
    assert_eq!(m.sum, 4294967294);
    assert_eq!(m.count, 2);
    assert_eq!(m.sum as f64 / m.count as f64, 2147483647.0);

    let w = vec![i32::MIN, i32::MIN, i32::MIN];
    let n = present(average(&w));
    assert_eq!(n.sum, -6442450944);
    assert_eq!(n.count, 3);
    assert_eq!(n.sum as f64 / n.count as f64, -2147483648.0);
}

#[test]
fn repeated_calls_agree() {
    let v = vec![9, -4, 17, 0];
    let first = average(&v);
    let second = average(&v);
    assert_eq!(first, second);

    let e: Vec<i32> = Vec::new();
    assert_eq!(average(&e), average(&e));
}
