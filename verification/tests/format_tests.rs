use rust_code_analysis::text::{same_text, starts_with};
use rust_code_analysis::{Dump, DumpError, Encoding, Format};

#[test]
fn all_names_the_four_formats() {
    assert_eq!(Format::all(), &["cbor", "json", "toml", "yaml"]);
}

#[test]
fn from_str_knows_every_name_of_all() {
    assert_eq!(Format::from_str("cbor"), Ok(Format::Cbor));
    assert_eq!(Format::from_str("json"), Ok(Format::Json));
    assert_eq!(Format::from_str("toml"), Ok(Format::Toml));
    assert_eq!(Format::from_str("yaml"), Ok(Format::Yaml));
    for name in Format::all() {
        assert!(Format::from_str(name).is_ok());
    }
}

#[test]
fn from_str_says_which_name_it_does_not_know() {
    assert_eq!(Format::from_str("xml"), Err("\"xml\" is not a supported format".to_string()));
    assert_eq!(Format::from_str(""), Err("\"\" is not a supported format".to_string()));
    assert_eq!(Format::from_str("JSON"), Err("\"JSON\" is not a supported format".to_string()));
    assert_eq!(Format::from_str("yml"), Err("\"yml\" is not a supported format".to_string()));
    assert_eq!(Format::from_str("json "), Err("\"json \" is not a supported format".to_string()));
    assert_eq!(
        Format::from_str("a\"b\n"),
        Err("\"a\\\"b\\n\" is not a supported format".to_string())
    );
}

#[test]
fn not_supported_follows_the_quoted_name() {
    assert_eq!(Format::not_supported("\"x\"".to_string()), "\"x\" is not a supported format");
    assert_eq!(Format::not_supported(String::new()), " is not a supported format");
}

#[test]
fn formats_parse_from_their_names() {
    assert_eq!("toml".parse::<Format>(), Ok(Format::Toml));
    assert_eq!("ini".parse::<Format>(), Err("\"ini\" is not a supported format".to_string()));
}

#[test]
fn extension_of_each_format() {
    assert_eq!(Format::Cbor.extension(), ".cbor");
    assert_eq!(Format::Json.extension(), ".json");
    assert_eq!(Format::Toml.extension(), ".toml");
    assert_eq!(Format::Yaml.extension(), ".yml");
}

#[test]
fn encoding_is_pretty_where_the_format_has_a_pretty_form() {
    assert_eq!(Format::Cbor.encoding(false), Encoding::Cbor);
    assert_eq!(Format::Cbor.encoding(true), Encoding::Cbor);
    assert_eq!(Format::Json.encoding(false), Encoding::Json);
    assert_eq!(Format::Json.encoding(true), Encoding::JsonPretty);
    assert_eq!(Format::Toml.encoding(false), Encoding::Toml);
    assert_eq!(Format::Toml.encoding(true), Encoding::TomlPretty);
    assert_eq!(Format::Yaml.encoding(false), Encoding::Yaml);
    assert_eq!(Format::Yaml.encoding(true), Encoding::Yaml);
}

#[test]
fn output_name_joins_the_steps_of_the_path() {
    assert_eq!(Format::Json.output_name("./a/../b/c.rs"), "a___b_c.rs.json");
    assert_eq!(Format::Json.output_name("a/b/c.rs"), "a_b_c.rs.json");
    assert_eq!(Format::Yaml.output_name("src/lib.rs"), "src_lib.rs.yml");
    assert_eq!(Format::Toml.output_name("lib.rs"), "lib.rs.toml");
    assert_eq!(Format::Cbor.output_name("x"), "x.cbor");
}

#[test]
fn output_name_drops_the_root_and_the_current_directory() {
    assert_eq!(Format::Json.output_name("/a/b.c"), "a_b.c.json");
    assert_eq!(Format::Json.output_name("./a/b.c"), "a_b.c.json");
    assert_eq!(Format::Json.output_name("/./a/b.c"), "a_b.c.json");
    assert_eq!(Format::Json.output_name("//a/b.c"), "a_b.c.json");
    assert_eq!(Format::Json.output_name("././a/b.c"), "a_b.c.json");
    assert_eq!(Format::Json.output_name("a/./b.c"), "a_b.c.json");
    assert_eq!(Format::Json.output_name("a//b.c"), "a_b.c.json");
    assert_eq!(Format::Json.output_name("a/b.c/"), "a_b.c.json");
    assert_eq!(Format::Json.output_name("a/b.c/."), "a_b.c.json");
}

#[test]
fn output_name_writes_a_step_back_as_an_underscore() {
    assert_eq!(Format::Json.output_name("../a"), "__a.json");
    assert_eq!(Format::Json.output_name("../../a"), "____a.json");
    assert_eq!(Format::Json.output_name("a/.."), "a__.json");
    assert_eq!(Format::Json.output_name(".."), "_.json");
    assert_eq!(Format::Json.output_name("/.."), "_.json");
    assert_eq!(Format::Json.output_name("..."), "....json");
    assert_eq!(Format::Json.output_name("a/..b/c"), "a_..b_c.json");
    assert_eq!(Format::Json.output_name("a/.b/c"), "a_.b_c.json");
}

#[test]
fn output_name_of_a_path_without_steps_is_the_extension() {
    assert_eq!(Format::Json.output_name(""), ".json");
    assert_eq!(Format::Json.output_name("/"), ".json");
    assert_eq!(Format::Json.output_name("."), ".json");
    assert_eq!(Format::Json.output_name("./"), ".json");
    assert_eq!(Format::Json.output_name("/./."), ".json");
}

#[test]
fn output_name_keeps_what_is_no_separator() {
    assert_eq!(Format::Json.output_name("a b/c_d/é.rs"), "a b_c_d_é.rs.json");
    assert_eq!(Format::Json.output_name("a\\b/c"), "a\\b_c.json");
    assert_eq!(Format::Json.output_name("_/_"), "___.json");
}

#[test]
fn dump_prints_where_there_is_no_directory() {
    assert!(matches!(
        Format::Json.dump(None, false),
        Ok(Dump::Print { encoding: Encoding::Json })
    ));
    assert!(matches!(
        Format::Json.dump(None, true),
        Ok(Dump::Print { encoding: Encoding::JsonPretty })
    ));
    assert!(matches!(
        Format::Toml.dump(None, false),
        Ok(Dump::Print { encoding: Encoding::Toml })
    ));
    assert!(matches!(
        Format::Toml.dump(None, true),
        Ok(Dump::Print { encoding: Encoding::TomlPretty })
    ));
    assert!(matches!(
        Format::Yaml.dump(None, true),
        Ok(Dump::Print { encoding: Encoding::Yaml })
    ));
}

#[test]
fn dump_does_not_print_cbor() {
    assert!(matches!(Format::Cbor.dump(None, false), Err(DumpError::CborToStdout)));
    assert!(matches!(Format::Cbor.dump(None, true), Err(DumpError::CborToStdout)));
    assert_eq!(DumpError::CborToStdout.message(), "Cbor format cannot be printed to stdout");
}

#[test]
fn dump_writes_into_the_directory() {
    match Format::Cbor.dump(Some("./a/../b/c.rs"), true) {
        Ok(Dump::Write { file_name, encoding }) => {
            assert_eq!(file_name, "a___b_c.rs.cbor");
            assert_eq!(encoding, Encoding::Cbor);
        },
        _ => panic!("cbor is written to files"),
    }
    match Format::Json.dump(Some("/src/main.rs"), true) {
        Ok(Dump::Write { file_name, encoding }) => {
            assert_eq!(file_name, "src_main.rs.json");
            assert_eq!(encoding, Encoding::JsonPretty);
        },
        _ => panic!("json is written to files"),
    }
    match Format::Toml.dump(Some("main.rs"), false) {
        Ok(Dump::Write { file_name, encoding }) => {
            assert_eq!(file_name, "main.rs.toml");
            assert_eq!(encoding, Encoding::Toml);
        },
        _ => panic!("toml is written to files"),
    }
    match Format::Yaml.dump(Some("main.rs"), false) {
        Ok(Dump::Write { file_name, encoding }) => {
            assert_eq!(file_name, "main.rs.yml");
            assert_eq!(encoding, Encoding::Yaml);
        },
        _ => panic!("yaml is written to files"),
    }
}

#[test]
fn same_text_compares_character_by_character() {
    assert!(same_text("", ""));
    assert!(same_text("json", "json"));
    assert!(!same_text("json", "jsom"));
    assert!(!same_text("json", "jso"));
    assert!(!same_text("jso", "json"));
    assert!(!same_text("", "x"));
    assert!(same_text("é", "é"));
    assert!(!same_text("é", "e"));
}

#[test]
fn starts_with_compares_the_beginning() {
    assert!(starts_with(b"abc", b""));
    assert!(starts_with(b"", b""));
    assert!(starts_with(b"abc", b"a"));
    assert!(starts_with(b"abc", b"abc"));
    assert!(!starts_with(b"abc", b"abcd"));
    assert!(!starts_with(b"abc", b"b"));
    assert!(!starts_with(b"abc", b"abd"));
    assert!(!starts_with(b"", b"a"));
}
