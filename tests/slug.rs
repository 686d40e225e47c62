use blog_backend::generate_slug;
use blog_backend::slug::slug_from_classified;

#[test]
fn slug_of_punctuated_title() {
    assert_eq!(generate_slug("Hello, World!"), "hello-world");
}

#[test]
fn slug_lowercases_and_hyphenates() {
    assert_eq!(generate_slug("Rust And Verus"), "rust-and-verus");
}

#[test]
fn slug_trims_edge_hyphens() {
    assert_eq!(generate_slug("  -Spaced out-  "), "spaced-out");
}

#[test]
fn slug_keeps_inner_hyphens_and_digits() {
    assert_eq!(generate_slug("Part 2 - the-end"), "part-2---the-end");
}

#[test]
fn slug_of_empty_and_symbol_only_titles() {
    assert_eq!(generate_slug(""), "");
    assert_eq!(generate_slug("?!,."), "");
}

#[test]
fn slug_keeps_unicode_letters_lowercased() {
    assert_eq!(generate_slug("Ünïcödé Title"), "ünïcödé-title");
}

#[test]
fn slug_is_idempotent() {
    for title in ["Hello, World!", "  A  B  ", "Already-a-slug", "x", "Ça va? Oui!"] {
        let once = generate_slug(title);
        assert_eq!(generate_slug(&once), once);
    }
}

#[test]
fn slug_from_given_classification() {
    let flags = vec![true, false, true, false];
    assert_eq!(slug_from_classified("a b-", &flags), "a-b");
    let none = vec![false, false, false];
    assert_eq!(slug_from_classified("abc", &none), "");
}
