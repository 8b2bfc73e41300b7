use bad_take::keep_all;
use bad_take::take_all;
use bad_take::take_matching;
use bad_take::take_range;
use bad_take::IterTakeExt;

#[test]
fn iter_mut_parity() {
    let result = vec![0, 1, 2, 3, 4, 5, 6, 7];
    let expected = result.clone();

    let mut it = result.iter_take();
    while let Some(t) = it.next() {
        t.keep(&mut it);
    }
    let result = it.into_inner();

    assert_eq!(result, expected)
}

#[test]
fn take_all_takes_all() {
    let src = vec![0, 1, 2, 3, 4];
    let expected = src.clone();

    let mut it = src.iter_take();
    let mut result: Vec<i32> = Vec::new();
    while let Some(t) = it.next() {
        result.push(t.take(&mut it));
    }
    let src = it.into_inner();

    assert!(src.is_empty());
    assert_eq!(result, expected);
}

#[test]
fn keep_all_is_identity() {
    let v = vec![5, 4, 3, 2, 1];
    let expected = v.clone();
    assert_eq!(keep_all(v), expected);
}

#[test]
fn keep_all_empty() {
    let v: Vec<u8> = Vec::new();
    assert_eq!(keep_all(v), Vec::<u8>::new());
}

#[test]
fn take_all_empties_the_vector() {
    let v = vec![7, 8, 9];
    let (rest, taken) = take_all(v);
    assert_eq!(rest, Vec::<i32>::new());
    assert_eq!(taken, vec![7, 8, 9]);
}

#[test]
fn take_range_middle() {
    let v = vec![0, 1, 2, 3, 4, 5, 6, 7];
    let (rest, taken) = take_range(v, 3, 2);
    assert_eq!(rest, vec![0, 1, 2, 5, 6, 7]);
    assert_eq!(taken, vec![3, 4]);
}

#[test]
fn take_range_matches_drain() {
    let mut expected_src = vec![0, 1, 2, 3, 4, 5, 6, 7];
    let result_src = expected_src.clone();

    let expected_dst: Vec<i32> = expected_src.drain(3..5).collect();
    let (result_src, result_dst) = take_range(result_src, 3, 2);

    assert_eq!(result_src, expected_src);
    assert_eq!(result_dst, expected_dst);
}

#[test]
fn take_range_cursor_scenario() {
    // Skip the first three elements, extract the next two, keep the rest.
    let v = vec![0, 1, 2, 3, 4, 5, 6, 7];
    let mut it = v.iter_take();
    let mut taken: Vec<i32> = Vec::new();
    let mut seen: usize = 0;
    while let Some(t) = it.next() {
        if (3..5).contains(&seen) {
            taken.push(t.take(&mut it));
        } else {
            t.keep(&mut it);
        }
        seen += 1;
    }
    let rest = it.into_inner();
    assert_eq!(rest, vec![0, 1, 2, 5, 6, 7]);
    assert_eq!(taken, vec![3, 4]);
}

#[test]
fn take_matching_divisible_by_three() {
    let v = vec![0, 1, 2, 3, 4, 5, 6, 7];
    let (rest, taken) = take_matching(v, |x: &i32| *x % 3 == 0);
    assert_eq!(rest, vec![1, 2, 4, 5, 7]);
    assert_eq!(taken, vec![0, 3, 6]);
}

#[test]
fn take_matching_evens() {
    let numbers = vec![1, 2, 3, 4, 5, 6, 8, 9, 11, 13, 14, 15];
    let (odds, evens) = take_matching(numbers, |i: &i32| *i % 2 == 0);
    assert_eq!(evens, vec![2, 4, 6, 8, 14]);
    assert_eq!(odds, vec![1, 3, 5, 9, 11, 13, 15]);
}

#[test]
fn take_matching_matches_retain() {
    let input = vec![3, 1, 4, 1, 5, 9, 2, 6, 5, 3, 5];
    let mut expected_rest = input.clone();
    expected_rest.retain(|x| *x <= 4);
    let expected_taken: Vec<i32> = input.iter().copied().filter(|x| *x > 4).collect();

    let (rest, taken) = take_matching(input, |x: &i32| *x > 4);
    assert_eq!(rest, expected_rest);
    assert_eq!(taken, expected_taken);
}
