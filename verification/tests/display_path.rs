use gol_lib::display_path::{get_display_path, shorten_display_path};

#[test]
/// A path shorter than forty characters is displayed in full.
fn short_path_unchanged() {
    let path = "/home/user/saves";
    assert_eq!(get_display_path(path), path);
    let thirty_nine = "a".repeat(39);
    assert_eq!(get_display_path(&thirty_nine), thirty_nine);
}

#[test]
/// A path of exactly forty characters gets the dots too.
fn forty_characters_get_dots() {
    let forty = "a".repeat(40);
    assert_eq!(get_display_path(&forty), format!("...{forty}"));
}

#[test]
/// A longer path keeps its last forty characters after three dots.
fn long_path_shortened() {
    let path = format!("/x{}", "b".repeat(40));
    assert_eq!(get_display_path(&path), format!("...{}", "b".repeat(40)));
}

#[test]
/// Characters are counted as grapheme clusters: an accented letter made of two code points counts once.
fn graphemes_counted_once() {
    let accented = "e\u{301}";
    let path = format!("z{}", accented.repeat(40));
    assert_eq!(get_display_path(&path), format!("...{}", accented.repeat(40)));
}

#[test]
/// Shortening takes the last forty of the given clusters.
fn shorten_given_clusters() {
    let clusters: Vec<String> = (0..41).map(|i| format!("{}", i % 10)).collect();
    let display: String = clusters.concat();
    let expected = format!("...{}", clusters[1..].concat());
    assert_eq!(shorten_display_path(display, &clusters), expected);
}
