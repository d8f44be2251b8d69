use raytracer::schedule::{assemble, row_worker, worker_rows, Rgb};

fn px(v: u8) -> Rgb {
    Rgb { r: v, g: v, b: v }
}

#[test]
fn scanlines_go_to_workers_by_remainder() {
    // Five rows, two workers: scanline j = 4 - row goes to worker j % 2.
    assert_eq!(row_worker(5, 2, 0), 0);
    assert_eq!(row_worker(5, 2, 1), 1);
    assert_eq!(row_worker(5, 2, 2), 0);
    assert_eq!(row_worker(5, 2, 4), 0);
    assert_eq!(row_worker(4, 3, 0), 0);
    assert_eq!(row_worker(4, 3, 1), 2);
}

#[test]
fn each_worker_renders_top_down() {
    assert_eq!(worker_rows(5, 2, 0), vec![0, 2, 4]);
    assert_eq!(worker_rows(5, 2, 1), vec![1, 3]);
    assert_eq!(worker_rows(4, 3, 0), vec![0, 3]);
    assert_eq!(worker_rows(4, 3, 1), vec![2]);
    assert_eq!(worker_rows(4, 3, 2), vec![1]);
}

#[test]
fn more_workers_than_rows() {
    assert_eq!(worker_rows(2, 4, 0), vec![1]);
    assert_eq!(worker_rows(2, 4, 1), vec![0]);
    assert_eq!(worker_rows(2, 4, 3), Vec::<usize>::new());
}

#[test]
fn empty_image() {
    assert_eq!(assemble(0, 3, 2, &vec![vec![], vec![]]), vec![]);
}

#[test]
fn rows_come_back_in_image_order() {
    // Three rows of two pixels, two workers. Worker 0 renders rows 0 and 2,
    // worker 1 renders row 1; each pixel holds 10 * row + column.
    let streams = vec![
        vec![px(0), px(1), px(20), px(21)],
        vec![px(10), px(11)],
    ];
    let image = assemble(3, 2, 2, &streams);
    assert_eq!(image, vec![px(0), px(1), px(10), px(11), px(20), px(21)]);
}

#[test]
fn worker_streams_match_their_row_lists() {
    let (height, width, workers) = (7usize, 3usize, 3usize);
    let streams: Vec<Vec<Rgb>> = (0..workers)
        .map(|w| {
            worker_rows(height, workers, w)
                .iter()
                .flat_map(|&row| (0..width).map(move |i| px((row * width + i) as u8)))
                .collect()
        })
        .collect();
    let image = assemble(height, width, workers, &streams);
    let expected: Vec<Rgb> = (0..height * width).map(|q| px(q as u8)).collect();
    assert_eq!(image, expected);
    // The same streams always give the same image.
    assert_eq!(assemble(height, width, workers, &streams), image);
}

#[test]
fn single_worker_keeps_the_stream() {
    let stream = vec![px(1), px(2), px(3), px(4)];
    assert_eq!(assemble(2, 2, 1, &vec![stream.clone()]), stream);
}

#[test]
fn collector_reads_rows_from_their_workers() {
    // Three rows of two pixels, two workers: worker 0 renders rows 0 and 2.
    let streams = vec![
        vec![px(0), px(1), px(20), px(21)],
        vec![px(10), px(11)],
    ];
    let mut taken = vec![0usize, 0];
    let mut c = raytracer::schedule::Collector::new(3, 2, 2);
    let mut order = Vec::new();
    assert!(!c.is_complete());
    while let Some(w) = c.next_worker() {
        order.push(w);
        let row: Vec<Rgb> = streams[w][taken[w]..taken[w] + 2].to_vec();
        taken[w] += 2;
        c.accept_row(&row);
    }
    assert!(c.is_complete());
    assert_eq!(order, vec![0, 1, 0]);
    assert_eq!(c.into_image(), assemble(3, 2, 2, &streams));
}

#[test]
fn collector_of_empty_image_is_complete() {
    let c = raytracer::schedule::Collector::new(0, 4, 3);
    assert!(c.is_complete());
    assert_eq!(c.next_worker(), None);
    assert_eq!(c.into_image(), vec![]);
}
