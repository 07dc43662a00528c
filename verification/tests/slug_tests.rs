use quick_entry::slug::slugify;

#[test]
fn test_slugify() {
    assert_eq!(slugify("Hello World"), "hello-world");
    assert_eq!(slugify("Test-With_Underscores"), "test-with-underscores");
    assert_eq!(slugify("Special!@#$%Characters"), "special-characters");
    assert_eq!(slugify("Multiple   Spaces"), "multiple-spaces");
}

#[test]
fn slugify_is_idempotent_on_samples() {
    let samples = [
        "Hello World",
        "  --- odd --- input ---  ",
        "ALL CAPS AND 123",
        "",
        "no#hash##here",
        "tabs\tand\nnewlines",
    ];
    for s in samples {
        let once = slugify(s);
        let twice = slugify(&once);
        assert_eq!(once, twice);
    }
}

#[test]
fn slugify_output_shape() {
    let samples = ["Hello, World!", "--x--", "a", "9 lives", "___", "MiXeD CaSe 42"];
    for s in samples {
        let out = slugify(s);
        if !out.is_empty() {
            assert!(!out.starts_with('-'));
            assert!(!out.ends_with('-'));
            assert!(!out.contains("--"));
            for c in out.chars() {
                assert!(c.is_ascii_lowercase() || c.is_ascii_digit() || c == '-');
            }
        }
    }
}

#[test]
fn slugify_empty_only_without_alphanumerics() {
    assert_eq!(slugify("!@#$%^&*()"), "");
    assert_eq!(slugify("   "), "");
    assert_eq!(slugify(""), "");
    assert!(!slugify("!a!").is_empty());
}
