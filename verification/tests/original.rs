use adios::sources::{DataSource, PCMFileSource};

#[test]
fn scans() {
    let line: String = (0..10).map(|i| format!("{:2} ", i)).collect();
    println!("{}", line);
    let sums: Vec<i32> = (0..10)
        .scan(0, |a, i| {
            *a += i;
            Some(*a)
        })
        .collect();
    let line: String = sums.iter().map(|i| format!("{:2} ", i)).collect();
    println!("{}", line);
    assert_eq!(sums, vec![0, 1, 3, 6, 10, 15, 21, 28, 36, 45]);
}

#[test]
fn test() {
    let rng = (12, 15);
    let x: Vec<usize> = (0..10).collect();
    let y = x[rng.0.min(x.len())..rng.1.min(x.len())].to_vec();
    println!("{:?}\n{:?}", x, y);
    assert!(y.is_empty());

    let source = PCMFileSource::new_widh_data((0..10).collect(), 44100, 1, "ramp");
    assert_eq!(source.selected_data(rng), Some(Vec::new()));
    assert_eq!(source.selected_data((2, 5)), Some(vec![2, 3, 4]));
    assert_eq!(source.selected_data((8, 15)), Some(vec![8, 9]));
}
