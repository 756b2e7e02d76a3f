use slug_intl::{slugify, slugify_with_options, SlugOptions};

#[test]
fn lowercases_a_word() {
    assert_eq!("hello", slugify("Hello"));
}

#[test]
fn joins_words_with_a_hyphen() {
    assert_eq!("hello-world", slugify("Hello World"));
}

#[test]
fn drops_punctuation_at_the_end() {
    assert_eq!("hello-world", slugify("Hello World!"));
}

#[test]
fn collapses_runs_of_punctuation_and_space() {
    assert_eq!("hello-world", slugify("/?&#Hello\n\r\n\r   --World!!!"));
}

#[test]
fn empty_text_gives_empty_slug() {
    assert_eq!("", slugify(""));
}

#[test]
fn punctuation_alone_gives_empty_slug() {
    assert_eq!("", slugify("!!!"));
}

#[test]
fn separators_and_controls_alone_give_empty_slug() {
    assert_eq!("", slugify(" \t\r\n\u{0}\u{7f}\u{a0}\u{2028}\u{2029}"));
    assert_eq!("", slugify("-"));
    assert_eq!("", slugify("---"));
}

#[test]
fn space_then_punctuation_is_one_hyphen() {
    assert_eq!("a-b", slugify("a !b"));
    assert_eq!("a-b", slugify("a! b"));
    assert_eq!("a-b", slugify("a\t-_.,;:b"));
}

#[test]
fn composed_and_decomposed_accent_agree() {
    assert_eq!(slugify("\u{e9}"), slugify("e\u{301}"));
    assert_eq!("\u{e9}", slugify("e\u{301}"));
    assert_eq!("\u{e9}", slugify("E\u{301}"));
}

#[test]
fn normalizes_inside_a_word() {
    assert_eq!("am\u{e9}lie", slugify("ame\u{301}lie"));
}

#[test]
fn keeps_hiragana() {
    let ohayou = "\u{304a}\u{306f}\u{3088}\u{3046}";
    assert_eq!(ohayou, slugify(ohayou));
    assert_eq!(4, slugify(ohayou).chars().count());
}

#[test]
fn hyphenates_ideographic_punctuation() {
    assert_eq!(
        "\u{304a}\u{306f}\u{3088}\u{3046}-\u{4e16}\u{754c}",
        slugify("\u{304a}\u{306f}\u{3088}\u{3046}\u{3001}\u{4e16}\u{754c}\u{ff01}\u{ff01}")
    );
}

#[test]
fn keeps_a_pictograph() {
    assert_eq!(
        "\u{304a}\u{306f}\u{3088}\u{3046}\u{1f420}",
        slugify("\u{304a}\u{306f}\u{3088}\u{3046}\u{1f420}")
    );
    assert_eq!("hello-\u{1f420}", slugify("Hello \u{1f420}"));
}

#[test]
fn keeps_symbols_and_numbers_and_hyphenates_punctuation() {
    assert_eq!(
        "1\u{2248}3\u{221e}5=-\u{a3}9",
        slugify("\u{a1}\u{a1}1\u{2248}3\u{221e}5=\u{b6}\u{a3}9!!")
    );
    assert_eq!("c++", slugify("C++"));
    assert_eq!("$100", slugify("$100"));
    assert_eq!("100", slugify("100%"));
    assert_eq!("x-y", slugify("x_y"));
    assert_eq!("it-s", slugify("it's"));
    assert_eq!("a^b~c|d", slugify("a^b~c|d"));
}

#[test]
fn keeps_a_mark_that_stands_alone() {
    assert_eq!("\u{301}", slugify("\u{301}"));
    assert_eq!("\u{301}a", slugify("!\u{301}a"));
    assert_eq!("a-\u{301}", slugify("a!\u{301}"));
}

#[test]
fn hyphenates_format_and_private_use_characters() {
    assert_eq!("a-b", slugify("a\u{ad}b"));
    assert_eq!("a-b", slugify("a\u{200d}b"));
    assert_eq!("a-b", slugify("a\u{e000}b"));
    assert_eq!("a-b", slugify("\u{0}a\u{0}b\u{0}"));
}

#[test]
fn lowercases_beyond_ascii() {
    assert_eq!("\u{3bf}\u{3b4}\u{3bf}\u{3c3}", slugify("\u{39f}\u{394}\u{39f}\u{3a3}"));
    assert_eq!("\u{43f}\u{440}\u{438}\u{432}\u{435}\u{442}", slugify("\u{41f}\u{420}\u{418}\u{412}\u{415}\u{422}"));
    assert_eq!("\u{df}", slugify("\u{1e9e}"));
    assert_eq!("\u{1c6}", slugify("\u{1c5}"));
}

#[test]
fn lowercase_mapping_of_several_characters_is_kept_whole() {
    assert_eq!("i\u{307}stanbul", slugify("\u{130}stanbul"));
    assert_eq!("a-i\u{307}-b", slugify("A \u{130} B"));
}

#[test]
fn classifies_after_normalizing() {
    assert_eq!("k", slugify("\u{212a}"));
    assert_eq!("\u{e5}", slugify("\u{212b}"));
    assert_eq!("\u{3c9}", slugify("\u{2126}"));
    assert_eq!("a-b", slugify("a\u{37e}b"));
}

#[test]
fn case_does_not_matter_for_basic_latin_letters() {
    let lower = "abcdefghijklmnopqrstuvwxyz";
    let upper = "ABCDEFGHIJKLMNOPQRSTUVWXYZ";
    assert_eq!(slugify(lower), slugify(upper));
    assert_eq!(lower, slugify(upper));
    assert_eq!(slugify("hello"), slugify(&"hello".to_uppercase()));
    assert_eq!(slugify("MiXeD"), slugify(&"MiXeD".to_uppercase()));
}

#[test]
fn slug_of_a_slug_is_the_slug() {
    let texts = [
        "Hello",
        "Hello World!",
        "/?&#Hello\n\r\n\r   --World!!!",
        "",
        "!!!",
        "ame\u{301}lie",
        "\u{304a}\u{306f}\u{3088}\u{3046}\u{3001}\u{4e16}\u{754c}\u{ff01}",
        "\u{a1}\u{a1}1\u{2248}3\u{221e}5=\u{b6}\u{a3}9!!",
        "\u{130}stanbul",
        "Hello \u{1f420}",
    ];
    for text in texts {
        let once = slugify(text);
        assert_eq!(once, slugify(&once));
    }
}

#[test]
fn lowercasing_can_unsettle_a_normal_form() {
    // No capital J with caron is encoded, but the small one is.
    assert_eq!("j\u{30c}", slugify("J\u{30c}"));
    assert_eq!("\u{1f0}", slugify("j\u{30c}"));
    assert_eq!("\u{1f0}", slugify("\u{1f0}"));
}

#[test]
fn no_hyphen_at_either_end_and_none_repeated() {
    let texts = [
        "-a-",
        "--a--b--",
        "  leading and trailing  ",
        "a - b",
        "a--b",
        "\u{2014}dash\u{2013}dash\u{2010}",
        "(a) [b] {c}",
        "...a...b...",
        "\u{130}--\u{130}",
    ];
    for text in texts {
        let slug = slugify(text);
        assert!(!slug.starts_with('-'));
        assert!(!slug.ends_with('-'));
        assert!(!slug.contains("--"));
    }
    assert_eq!("a-b", slugify("--a--b--"));
    assert_eq!("leading-and-trailing", slugify("  leading and trailing  "));
}

#[test]
fn default_options_are_3_and_30() {
    let options = SlugOptions::default();
    assert_eq!(3, options.minimum_length);
    assert_eq!(30, options.maximum_length);
}

#[test]
fn options_change_nothing() {
    let tight = SlugOptions { minimum_length: 10, maximum_length: 1 };
    let none = SlugOptions { minimum_length: 0, maximum_length: 0 };
    let long = "This title is a good deal longer than thirty characters";
    for text in ["", "a", "Hello World!", long, "\u{304a}\u{306f}\u{3088}\u{3046}"] {
        assert_eq!(slugify(text), slugify_with_options(text, &SlugOptions::default()));
        assert_eq!(slugify(text), slugify_with_options(text, &tight));
        assert_eq!(slugify(text), slugify_with_options(text, &none));
    }
    assert_eq!(
        "this-title-is-a-good-deal-longer-than-thirty-characters",
        slugify_with_options(long, &SlugOptions::default())
    );
    assert_eq!("a", slugify_with_options("a", &SlugOptions::default()));
}
