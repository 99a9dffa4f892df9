use metrics_lib::{Format, UnrecognizedFormat};

#[test]
fn three_selectors_name_each_format() {
    for selector in ["t", "toml", "TOML"] {
        assert_eq!(Format::from_str(selector), Ok(Format::TOML), "{}", selector);
    }
    for selector in ["y", "yaml", "YAML"] {
        assert_eq!(Format::from_str(selector), Ok(Format::YAML), "{}", selector);
    }
}

#[test]
fn other_selectors_name_no_format() {
    for selector in ["", "T", "Toml", "tom", "tomls", " toml", "yml", "Y", "Yaml", "json", "toml\n"] {
        assert_eq!(Format::from_str(selector), Err(UnrecognizedFormat), "{:?}", selector);
    }
}
