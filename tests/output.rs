use raytracer::ppm::{to_ppm, write_decimal};
use raytracer::scene::{scene_source, SceneSource};
use raytracer::schedule::Rgb;

fn decimal(n: usize) -> String {
    let mut out = Vec::new();
    write_decimal(&mut out, n);
    String::from_utf8(out).unwrap()
}

#[test]
fn decimals() {
    assert_eq!(decimal(0), "0");
    assert_eq!(decimal(7), "7");
    assert_eq!(decimal(10), "10");
    assert_eq!(decimal(255), "255");
    assert_eq!(decimal(400), "400");
    assert_eq!(decimal(1000007), "1000007");
}

#[test]
fn decimal_appends() {
    let mut out = b"x=".to_vec();
    write_decimal(&mut out, 42);
    assert_eq!(out, b"x=42".to_vec());
}

#[test]
fn plain_text_image() {
    let pixels = vec![
        Rgb { r: 255, g: 0, b: 7 },
        Rgb { r: 12, g: 128, b: 99 },
    ];
    let text = String::from_utf8(to_ppm(2, 1, &pixels)).unwrap();
    assert_eq!(text, "P3\n2 1\n255\n255 0 7\n12 128 99\n");
}

#[test]
fn plain_text_empty_image() {
    let text = String::from_utf8(to_ppm(0, 0, &vec![])).unwrap();
    assert_eq!(text, "P3\n0 0\n255\n");
}

#[test]
fn dash_reads_stdin() {
    assert!(matches!(scene_source("-"), SceneSource::Stdin));
}

#[test]
fn other_paths_are_files() {
    match scene_source("scenes/book.yml") {
        SceneSource::File(f) => assert_eq!(f, "scenes/book.yml"),
        SceneSource::Stdin => panic!("a path is not stdin"),
    }
    assert!(matches!(scene_source("--"), SceneSource::File(_)));
    assert!(matches!(scene_source(""), SceneSource::File(_)));
}
