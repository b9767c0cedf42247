use nnnoiseless::buffers::{concat_frames, decimate2, gather, shift_in, zip3};

#[test]
fn zip3_stops_at_shortest() {
    let xs: Vec<f32> = vec![1.0, 2.0, 3.0];
    let ys: Vec<u8> = vec![10, 20];
    let zs: Vec<i32> = vec![5, 6, 7, 8];
    let r = zip3(&xs, &ys, &zs);
    assert_eq!(r, vec![(1.0, 10, 5), (2.0, 20, 6)]);
}

#[test]
fn zip3_empty_when_one_input_is_empty() {
    let xs: Vec<u8> = vec![];
    let ys: Vec<u8> = vec![1, 2];
    let zs: Vec<u8> = vec![3];
    assert_eq!(zip3(&xs, &ys, &zs), vec![]);
}

#[test]
fn concat_joins_saved_and_current_frame() {
    let first: Vec<f32> = vec![1.0, 2.0];
    let second: Vec<f32> = vec![3.0];
    assert_eq!(concat_frames(&first, &second), vec![1.0, 2.0, 3.0]);
}

#[test]
fn shift_in_keeps_most_recent_samples() {
    let mut buf: Vec<f32> = vec![1.0, 2.0, 3.0, 4.0, 5.0];
    let input: Vec<f32> = vec![9.0, 8.0];
    shift_in(&mut buf, &input);
    assert_eq!(buf, vec![3.0, 4.0, 5.0, 9.0, 8.0]);
}

#[test]
fn shift_in_with_full_length_input_replaces_all() {
    let mut buf: Vec<u32> = vec![1, 2, 3];
    let input: Vec<u32> = vec![7, 8, 9];
    shift_in(&mut buf, &input);
    assert_eq!(buf, vec![7, 8, 9]);
}

#[test]
fn gather_copies_a_window() {
    let xs: Vec<u32> = (0..10).collect();
    assert_eq!(gather(&xs, 3, 4), vec![3, 4, 5, 6]);
    assert_eq!(gather(&xs, 0, 0), vec![]);
}

#[test]
fn decimate2_keeps_even_indices() {
    let xs: Vec<u32> = (0..9).collect();
    assert_eq!(decimate2(&xs, 4), vec![0, 2, 4, 6]);
    assert_eq!(decimate2(&xs, 5), vec![0, 2, 4, 6, 8]);
    assert_eq!(decimate2(&xs, 0), vec![]);
}
