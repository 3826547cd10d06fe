use rustracer::Raytracer;

#[test]
fn configuration_is_kept() {
    let r = Raytracer::with_threads(64, 32, 16, 3);
    assert_eq!(r.image_width(), 64);
    assert_eq!(r.image_height(), 32);
    assert_eq!(r.sample_num(), 16);
    assert_eq!(r.thread_num(), 3);
    assert_eq!(r.pixel_count(), 2048);
}

#[test]
fn one_worker_per_core() {
    let r = Raytracer::new(8, 8, 4);
    assert!(r.thread_num() >= 1);
    assert_eq!(r.pixel_count(), 64);
}

#[test]
fn pixel_index_is_row_major() {
    let r = Raytracer::with_threads(4, 3, 1, 1);
    assert_eq!(r.pixel_index(0, 0), 0);
    assert_eq!(r.pixel_index(3, 0), 3);
    assert_eq!(r.pixel_index(1, 2), 9);
    assert_eq!(r.pixel_index(3, 2), 11);
}

#[test]
fn samples_split_among_workers() {
    let r = Raytracer::with_threads(2, 2, 10, 4);
    let shares: Vec<usize> = (0..4).map(|k| r.worker_samples(k)).collect();
    assert_eq!(shares, vec![3, 3, 2, 2]);
    assert_eq!(shares.iter().sum::<usize>(), 10);
}

#[test]
fn fewer_samples_than_workers() {
    let r = Raytracer::with_threads(2, 2, 2, 5);
    let shares: Vec<usize> = (0..5).map(|k| r.worker_samples(k)).collect();
    assert_eq!(shares, vec![1, 1, 0, 0, 0]);
}

#[test]
fn even_split() {
    let r = Raytracer::with_threads(64, 64, 1024, 8);
    for k in 0..8 {
        assert_eq!(r.worker_samples(k), 128);
    }
}
