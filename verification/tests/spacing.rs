use flexlay::alignment::MainAxisAlignment;
use flexlay::spacing::Spacing;

fn gaps(a: MainAxisAlignment, extra: i64, n: usize) -> Vec<i64> {
    Spacing::new(a, extra, n).into_vec()
}

#[test]
fn test_main_axis_alignment_spacing() {
    // The following alignment strategy is based on how
    // Chrome 80 handles it with CSS flex.
    let v = |a: MainAxisAlignment, e: i64, n: usize| -> Vec<i64> { gaps(a, e, n) };

    let a = MainAxisAlignment::Start;
    assert_eq!(v(a, 10, 0), vec![10]);
    assert_eq!(v(a, 10, 1), vec![0, 10]);
    assert_eq!(v(a, 10, 2), vec![0, 0, 10]);
    assert_eq!(v(a, 10, 3), vec![0, 0, 0, 10]);

    let a = MainAxisAlignment::End;
    assert_eq!(v(a, 10, 0), vec![10]);
    assert_eq!(v(a, 10, 1), vec![10, 0]);
    assert_eq!(v(a, 10, 2), vec![10, 0, 0]);
    assert_eq!(v(a, 10, 3), vec![10, 0, 0, 0]);

    let a = MainAxisAlignment::Center;
    assert_eq!(v(a, 10, 0), vec![10]);
    assert_eq!(v(a, 10, 1), vec![5, 5]);
    assert_eq!(v(a, 10, 2), vec![5, 0, 5]);
    assert_eq!(v(a, 10, 3), vec![5, 0, 0, 5]);
    assert_eq!(v(a, 1, 0), vec![1]);
    assert_eq!(v(a, 3, 1), vec![2, 1]);
    assert_eq!(v(a, 5, 2), vec![3, 0, 2]);
    assert_eq!(v(a, 17, 3), vec![9, 0, 0, 8]);

    let a = MainAxisAlignment::SpaceBetween;
    assert_eq!(v(a, 10, 0), vec![10]);
    assert_eq!(v(a, 10, 1), vec![0, 10]);
    assert_eq!(v(a, 10, 2), vec![0, 10, 0]);
    assert_eq!(v(a, 10, 3), vec![0, 5, 5, 0]);
    assert_eq!(v(a, 33, 5), vec![0, 8, 9, 8, 8, 0]);
    assert_eq!(v(a, 34, 5), vec![0, 9, 8, 9, 8, 0]);
    assert_eq!(v(a, 35, 5), vec![0, 9, 9, 8, 9, 0]);
    assert_eq!(v(a, 36, 5), vec![0, 9, 9, 9, 9, 0]);
    assert_eq!(v(a, 37, 5), vec![0, 9, 10, 9, 9, 0]);
    assert_eq!(v(a, 38, 5), vec![0, 10, 9, 10, 9, 0]);
    assert_eq!(v(a, 39, 5), vec![0, 10, 10, 9, 10, 0]);

    let a = MainAxisAlignment::SpaceEvenly;
    assert_eq!(v(a, 10, 0), vec![10]);
    assert_eq!(v(a, 10, 1), vec![5, 5]);
    assert_eq!(v(a, 10, 2), vec![3, 4, 3]);
    assert_eq!(v(a, 10, 3), vec![3, 2, 3, 2]);
    assert_eq!(v(a, 33, 5), vec![6, 5, 6, 5, 6, 5]);
    assert_eq!(v(a, 34, 5), vec![6, 5, 6, 6, 5, 6]);
    // an exact half-unit tie rounds away from zero at the third share
    assert_eq!(v(a, 35, 5), vec![6, 6, 6, 5, 6, 6]);
    assert_eq!(v(a, 36, 5), vec![6, 6, 6, 6, 6, 6]);
    assert_eq!(v(a, 37, 5), vec![6, 6, 7, 6, 6, 6]);
    assert_eq!(v(a, 38, 5), vec![6, 7, 6, 6, 7, 6]);
    assert_eq!(v(a, 39, 5), vec![7, 6, 7, 6, 7, 6]);

    let a = MainAxisAlignment::SpaceAround;
    assert_eq!(v(a, 10, 0), vec![10]);
    assert_eq!(v(a, 10, 1), vec![5, 5]);
    assert_eq!(v(a, 10, 2), vec![3, 5, 2]);
    assert_eq!(v(a, 10, 3), vec![2, 3, 3, 2]);
    // exact half-unit ties round away from zero in the middle shares
    assert_eq!(v(a, 33, 5), vec![3, 7, 7, 6, 7, 3]);
    assert_eq!(v(a, 34, 5), vec![3, 7, 7, 7, 7, 3]);
    assert_eq!(v(a, 35, 5), vec![4, 7, 7, 7, 7, 3]);
    assert_eq!(v(a, 36, 5), vec![4, 7, 7, 7, 7, 4]);
    assert_eq!(v(a, 37, 5), vec![4, 7, 8, 7, 7, 4]);
    assert_eq!(v(a, 38, 5), vec![4, 7, 8, 8, 7, 4]);
    assert_eq!(v(a, 39, 5), vec![4, 8, 8, 7, 8, 4]);
}

#[test]
fn spacing_sums_to_extra() {
    let policies = [
        MainAxisAlignment::Start,
        MainAxisAlignment::End,
        MainAxisAlignment::Center,
        MainAxisAlignment::SpaceBetween,
        MainAxisAlignment::SpaceEvenly,
        MainAxisAlignment::SpaceAround,
    ];
    for &a in policies.iter() {
        for &extra in [0i64, 1, 10, 33, 39].iter() {
            for &n in [0usize, 1, 2, 3, 5].iter() {
                let out = gaps(a, extra, n);
                assert_eq!(out.len(), n + 1);
                let total: i64 = out.iter().sum();
                assert_eq!(total, extra);
            }
        }
    }
}

#[test]
fn spacing_runs_out_after_all_gaps() {
    let mut s = Spacing::new(MainAxisAlignment::SpaceEvenly, 10, 2);
    assert_eq!(s.next(), Some(3));
    assert_eq!(s.next(), Some(4));
    assert_eq!(s.next(), Some(3));
    assert_eq!(s.next(), None);
    assert_eq!(s.next(), None);
}
