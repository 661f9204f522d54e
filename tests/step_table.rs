use ratio_tables::{F64Bits, StepIncrTable, StepRepeatIncr};

fn fb(x: f64) -> F64Bits {
    F64Bits::from_bits(x.to_bits())
}

fn fv(b: F64Bits) -> f64 {
    f64::from_bits(b.to_bits())
}

fn step(vars: &[u64], ext: f64, root: f64, ext_pc: f64, root_pc: f64) -> StepRepeatIncr {
    StepRepeatIncr {
        input_vars: vars.to_vec(),
        avg_extrinsic_time: fb(ext),
        avg_storage_root_time: fb(root),
        extrinsic_percentage: fb(ext_pc),
        storage_root_percentage: fb(root_pc),
    }
}

fn percentages(t: &StepIncrTable) -> Vec<f64> {
    t.raw_list().iter().map(|r| fv(r.5)).collect()
}

#[test]
fn empty_step_table_exports_nothing() {
    let t = StepIncrTable::new();
    assert!(t.raw_list().is_empty());
}

#[test]
fn step_raw_list_exports_every_field_unchanged() {
    let mut t = StepIncrTable::new();
    t.push(
        "balances".to_string(),
        "transfer".to_string(),
        vec![step(&[892, 1000], 194126.4, 90757.4, 8.4298, 29.2032)],
    );
    let rows = t.raw_list();
    assert_eq!(rows.len(), 1);
    let r = rows[0];
    assert_eq!(r.0, "balances");
    assert_eq!(r.1, "transfer");
    assert_eq!(r.2, &[892u64, 1000][..]);
    assert_eq!(fv(r.3), 194126.4);
    assert_eq!(fv(r.4), 90757.4);
    assert_eq!(fv(r.5), 8.4298);
    assert_eq!(fv(r.6), 29.2032);
}

#[test]
fn flatten_is_entry_major_step_minor() {
    let mut t = StepIncrTable::new();
    t.push(
        "a".to_string(),
        "x".to_string(),
        vec![step(&[1], 0.0, 0.0, 1.0, 0.0), step(&[2], 0.0, 0.0, 2.0, 0.0)],
    );
    t.push("b".to_string(), "y".to_string(), Vec::new());
    t.push(
        "c".to_string(),
        "z".to_string(),
        vec![
            step(&[3], 0.0, 0.0, 3.0, 0.0),
            step(&[4], 0.0, 0.0, 4.0, 0.0),
            step(&[5], 0.0, 0.0, 5.0, 0.0),
        ],
    );
    let rows = t.raw_list();
    assert_eq!(rows.len(), 5);
    let got: Vec<(&str, &str, u64)> = rows.iter().map(|r| (r.0, r.1, r.2[0])).collect();
    assert_eq!(
        got,
        vec![("a", "x", 1), ("a", "x", 2), ("c", "z", 3), ("c", "z", 4), ("c", "z", 5)]
    );
}

#[test]
fn sort_steps_descending_within_each_entry() {
    let mut t = StepIncrTable::new();
    t.push(
        "balances".to_string(),
        "transfer".to_string(),
        vec![
            step(&[397, 1000], 187451.3, 79826.0, 4.7014, 13.6412),
            step(&[892, 1000], 194126.4, 90757.4, 8.4298, 29.2032),
            step(&[298, 1000], 190419.6, 87388.7, 6.3594, 24.4075),
        ],
    );
    t.push(
        "identity".to_string(),
        "set_identity".to_string(),
        vec![step(&[1], 0.0, 0.0, 0.0, 0.0), step(&[2], 0.0, 0.0, 10.0, 0.0)],
    );
    t.sort_by_extrinsic_percentage();
    let rows = t.raw_list();
    let got: Vec<(&str, u64)> = rows.iter().map(|r| (r.0, r.2[0])).collect();
    assert_eq!(
        got,
        vec![("balances", 892), ("balances", 298), ("balances", 397), ("identity", 2), ("identity", 1)]
    );
    assert_eq!(percentages(&t), vec![8.4298, 6.3594, 4.7014, 10.0, 0.0]);
}

#[test]
fn sort_steps_twice_is_sort_once() {
    let mut t = StepIncrTable::new();
    t.push(
        "a".to_string(),
        "x".to_string(),
        vec![
            step(&[1], 0.0, 0.0, 1.0, 0.0),
            step(&[2], 0.0, 0.0, 3.0, 0.0),
            step(&[3], 0.0, 0.0, 1.0, 0.0),
            step(&[4], 0.0, 0.0, 2.0, 0.0),
        ],
    );
    t.sort_by_extrinsic_percentage();
    let once: Vec<u64> = t.raw_list().iter().map(|r| r.2[0]).collect();
    t.sort_by_extrinsic_percentage();
    let twice: Vec<u64> = t.raw_list().iter().map(|r| r.2[0]).collect();
    assert_eq!(once, twice);
    assert_eq!(once, vec![2, 4, 1, 3]);
}

#[test]
fn sort_steps_tolerates_nan() {
    let mut t = StepIncrTable::new();
    t.push(
        "a".to_string(),
        "x".to_string(),
        vec![
            step(&[1], 0.0, 0.0, 1.0, 0.0),
            step(&[2], 0.0, 0.0, f64::NAN, 0.0),
            step(&[3], 0.0, 0.0, 3.0, 0.0),
            step(&[4], 0.0, 0.0, 2.0, 0.0),
        ],
    );
    t.sort_by_extrinsic_percentage();
    let got = percentages(&t);
    assert_eq!(got.len(), 4);
    for w in got.windows(2) {
        if !w[0].is_nan() && !w[1].is_nan() {
            assert!(w[0] >= w[1]);
        }
    }
}
