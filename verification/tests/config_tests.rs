use lead_core::config::{
    eq_ignore_ascii_case, is_shallow, MAX_OPENERS, ConfigKey, ConfigSource, ConfigWarning, Field, WindowConfig, WindowFields,
};
use lead_core::window::UpdateCap;

fn missing() -> WindowFields {
    WindowFields {
        width: Field::Missing,
        height: Field::Missing,
        title: Field::Missing,
        cap: Field::Missing,
        min_width: Field::Missing,
        min_height: Field::Missing,
        max_width: Field::Missing,
        max_height: Field::Missing,
    }
}

fn all_bad() -> Vec<ConfigWarning> {
    vec![
        ConfigWarning::BadField(ConfigKey::Width),
        ConfigWarning::BadField(ConfigKey::Height),
        ConfigWarning::BadField(ConfigKey::Title),
        ConfigWarning::BadField(ConfigKey::Cap),
        ConfigWarning::BadField(ConfigKey::MinWidth),
        ConfigWarning::BadField(ConfigKey::MinHeight),
        ConfigWarning::BadField(ConfigKey::MaxWidth),
        ConfigWarning::BadField(ConfigKey::MaxHeight),
    ]
}

fn assert_defaults(config: &WindowConfig) {
    assert_eq!(config.width, 800);
    assert_eq!(config.height, 600);
    assert_eq!(config.title, "Title");
    assert_eq!(config.update_cap, UpdateCap::Vsync);
    assert_eq!(config.min_width, None);
    assert_eq!(config.min_height, None);
    assert_eq!(config.max_width, None);
    assert_eq!(config.max_height, None);
}

#[test]
fn default_configuration() {
    assert_defaults(&WindowConfig::default());
}

#[test]
fn full_document_is_read() {
    let text = "[window]\nwidth = 1280\nheight = 720\ntitle = \"Game\"\ncap = 30\n\
                min-width = 100\nmin-height = \"unset\"\nmax-width = 1920\nmax-height = 1080\n";
    let r = WindowConfig::parse(text);
    assert_eq!(r.warnings, vec![]);
    assert_eq!(r.config.width, 1280);
    assert_eq!(r.config.height, 720);
    assert_eq!(r.config.title, "Game");
    assert_eq!(r.config.update_cap, UpdateCap::Cap(30));
    assert_eq!(r.config.min_width, Some(100));
    assert_eq!(r.config.min_height, None);
    assert_eq!(r.config.max_width, Some(1920));
    assert_eq!(r.config.max_height, Some(1080));
}

#[test]
fn unparsable_text_gives_every_default() {
    let r = WindowConfig::parse("this is [not toml");
    assert_eq!(r.warnings, vec![ConfigWarning::Unparsable]);
    assert_defaults(&r.config);
}

#[test]
fn document_without_window_gives_every_default() {
    let r = WindowConfig::parse("[other]\nwidth = 5\n");
    assert_eq!(r.warnings, vec![ConfigWarning::MissingSection]);
    assert_defaults(&r.config);
    let r = WindowConfig::parse("");
    assert_eq!(r.warnings, vec![ConfigWarning::MissingSection]);
    assert_defaults(&r.config);
}

#[test]
fn empty_window_table_warns_for_each_field() {
    let r = WindowConfig::parse("[window]\n");
    assert_eq!(r.warnings, all_bad());
    assert_defaults(&r.config);
}

#[test]
fn window_that_is_no_table_warns_for_each_field() {
    let r = WindowConfig::parse("window = 3\n");
    assert_eq!(r.warnings, all_bad());
    assert_defaults(&r.config);
}

#[test]
fn fields_fall_back_one_by_one() {
    let text = "[window]\nwidth = \"wide\"\nheight = 720\ntitle = 5\ncap = \"VSync\"\n\
                min-width = 1.5\nmin-height = 10\nmax-width = true\nmax-height = \"UNSET\"\n";
    let r = WindowConfig::parse(text);
    assert_eq!(
        r.warnings,
        vec![
            ConfigWarning::BadField(ConfigKey::Width),
            ConfigWarning::BadField(ConfigKey::Title),
            ConfigWarning::BadField(ConfigKey::MinWidth),
            ConfigWarning::BadField(ConfigKey::MaxWidth),
        ]
    );
    assert_eq!(r.config.width, 800);
    assert_eq!(r.config.height, 720);
    assert_eq!(r.config.title, "Title");
    assert_eq!(r.config.update_cap, UpdateCap::Vsync);
    assert_eq!(r.config.min_width, None);
    assert_eq!(r.config.min_height, Some(10));
    assert_eq!(r.config.max_width, None);
    assert_eq!(r.config.max_height, None);
}

#[test]
fn cap_keywords_in_any_case() {
    for (text, cap) in [
        ("vsync", UpdateCap::Vsync),
        ("VSYNC", UpdateCap::Vsync),
        ("unlimited", UpdateCap::Unlimited),
        ("UnLimited", UpdateCap::Unlimited),
    ] {
        let r = WindowConfig::parse(&format!("[window]\ncap = \"{}\"\n", text));
        assert_eq!(r.config.update_cap, cap);
        assert!(!r.warnings.contains(&ConfigWarning::BadField(ConfigKey::Cap)));
    }
}

#[test]
fn cap_must_be_a_keyword_or_positive() {
    for text in ["cap = 0", "cap = -30", "cap = \"fast\"", "cap = 2.5", "cap = \"unset\""] {
        let r = WindowConfig::parse(&format!("[window]\n{}\n", text));
        assert_eq!(r.config.update_cap, UpdateCap::Vsync);
        assert!(r.warnings.contains(&ConfigWarning::BadField(ConfigKey::Cap)));
    }
    let r = WindowConfig::parse("[window]\ncap = 1\n");
    assert_eq!(r.config.update_cap, UpdateCap::Cap(1));
    let r = WindowConfig::parse("[window]\ncap = 4294967295\n");
    assert_eq!(r.config.update_cap, UpdateCap::Cap(4294967295));
    let r = WindowConfig::parse("[window]\ncap = 4294967296\n");
    assert_eq!(r.config.update_cap, UpdateCap::Vsync);
    assert!(r.warnings.contains(&ConfigWarning::BadField(ConfigKey::Cap)));
}

#[test]
fn limits_take_unset_or_a_non_negative_integer() {
    let r = WindowConfig::parse(
        "[window]\nmin-width = 0\nmin-height = -1\nmax-width = 0\nmax-height = \"none\"\n",
    );
    assert_eq!(r.config.min_width, Some(0));
    assert_eq!(r.config.min_height, None);
    assert_eq!(r.config.max_width, Some(0));
    assert_eq!(r.config.max_height, None);
    assert!(!r.warnings.contains(&ConfigWarning::BadField(ConfigKey::MinWidth)));
    assert!(r.warnings.contains(&ConfigWarning::BadField(ConfigKey::MinHeight)));
    assert!(!r.warnings.contains(&ConfigWarning::BadField(ConfigKey::MaxWidth)));
    assert!(r.warnings.contains(&ConfigWarning::BadField(ConfigKey::MaxHeight)));
}

#[test]
fn sizes_are_reduced_to_32_bits() {
    let r = WindowConfig::parse("[window]\nwidth = -1\nheight = 4294967297\n");
    assert_eq!(r.config.width, 4294967295);
    assert_eq!(r.config.height, 1);
    let mut fields = missing();
    fields.min_width = Field::Integer(4294967296 + 7);
    let r = WindowConfig::from_source(ConfigSource::Section(fields));
    assert_eq!(r.config.min_width, Some(7));
}

#[test]
fn from_source_without_a_document() {
    let r = WindowConfig::from_source(ConfigSource::Unparsable("why".to_string()));
    assert_eq!(r.warnings, vec![ConfigWarning::Unparsable]);
    assert_eq!(r.detail, Some("why".to_string()));
    assert_defaults(&r.config);
    let r = WindowConfig::from_source(ConfigSource::NoSection);
    assert_eq!(r.warnings, vec![ConfigWarning::MissingSection]);
    assert_defaults(&r.config);
}

#[test]
fn from_source_reads_each_field() {
    let fields = WindowFields {
        width: Field::Integer(320),
        height: Field::Other,
        title: Field::Text("Hello".to_string()),
        cap: Field::Text("Unlimited".to_string()),
        min_width: Field::Text("unset".to_string()),
        min_height: Field::Integer(5),
        max_width: Field::Missing,
        max_height: Field::Integer(-5),
    };
    let r = WindowConfig::from_source(ConfigSource::Section(fields));
    assert_eq!(
        r.warnings,
        vec![
            ConfigWarning::BadField(ConfigKey::Height),
            ConfigWarning::BadField(ConfigKey::MaxWidth),
            ConfigWarning::BadField(ConfigKey::MaxHeight),
        ]
    );
    assert_eq!(r.config.width, 320);
    assert_eq!(r.config.height, 600);
    assert_eq!(r.config.title, "Hello");
    assert_eq!(r.config.update_cap, UpdateCap::Unlimited);
    assert_eq!(r.config.min_width, None);
    assert_eq!(r.config.min_height, Some(5));
    assert_eq!(r.config.max_width, None);
    assert_eq!(r.config.max_height, None);
}

#[test]
fn read_source_tells_the_shapes_apart() {
    let source = WindowConfig::read_source(
        "[window]\nwidth = 7\ntitle = \"T\"\ncap = [1]\nmin-width = 2.0\n",
    );
    match source {
        ConfigSource::Section(fields) => {
            assert!(matches!(fields.width, Field::Integer(7)));
            assert!(matches!(fields.height, Field::Missing));
            assert!(matches!(&fields.title, Field::Text(t) if t == "T"));
            assert!(matches!(fields.cap, Field::Other));
            assert!(matches!(fields.min_width, Field::Other));
            assert!(matches!(fields.max_height, Field::Missing));
        }
        _ => panic!("a window table was expected"),
    }
    assert!(matches!(WindowConfig::read_source("= broken"), ConfigSource::Unparsable(_)));
    assert!(matches!(WindowConfig::read_source("a = 1"), ConfigSource::NoSection));
}

#[test]
fn comparison_ignores_ascii_case_only() {
    for (a, b) in [
        ("vsync", "VSYNC"),
        ("", ""),
        ("Unset", "unSET"),
        ("a-b_c", "A-B_C"),
        ("vsync", "vsynk"),
        ("vsync", "vsyn"),
        ("[", "{"),
        ("@", "`"),
        ("é", "É"),
        ("é", "é"),
        ("straße", "STRASSE"),
        ("k", "\u{212A}"),
        ("az", "AZ"),
    ] {
        assert_eq!(eq_ignore_ascii_case(a, b), a.eq_ignore_ascii_case(b));
        assert_eq!(eq_ignore_ascii_case(b, a), b.eq_ignore_ascii_case(a));
    }
    assert!(eq_ignore_ascii_case("vsync", "VsYnC"));
    assert!(!eq_ignore_ascii_case("vsync", "vsync "));
}

#[test]
fn unreadable_file_gives_every_default() {
    let r = WindowConfig::load(None);
    assert_eq!(r.warnings, vec![ConfigWarning::Unreadable]);
    assert_defaults(&r.config);
    let r = WindowConfig::from_source(ConfigSource::Unreadable);
    assert_eq!(r.warnings, vec![ConfigWarning::Unreadable]);
    assert_defaults(&r.config);
}

#[test]
fn load_reads_the_text_it_is_given() {
    let r = WindowConfig::load(Some("[window]\nwidth = 64\nheight = 48\ntitle = \"x\"\ncap = \"unlimited\"\nmin-width = \"unset\"\nmin-height = \"unset\"\nmax-width = \"unset\"\nmax-height = \"unset\"\n"));
    assert_eq!(r.warnings, vec![]);
    assert_eq!(r.config.width, 64);
    assert_eq!(r.config.height, 48);
    assert_eq!(r.config.title, "x");
    assert_eq!(r.config.update_cap, UpdateCap::Unlimited);
}

#[test]
fn warning_messages() {
    assert_eq!(ConfigWarning::Unreadable.message(), "Failed to read config file");
    assert_eq!(ConfigWarning::Unparsable.message(), "Failed to parse config file");
    assert_eq!(
        ConfigWarning::MissingSection.message(),
        "Failed to read structure 'window' from config file"
    );
    for (key, name) in [
        (ConfigKey::Width, "width"),
        (ConfigKey::Height, "height"),
        (ConfigKey::Title, "title"),
        (ConfigKey::Cap, "cap"),
        (ConfigKey::MinWidth, "min-width"),
        (ConfigKey::MinHeight, "min-height"),
        (ConfigKey::MaxWidth, "max-width"),
        (ConfigKey::MaxHeight, "max-height"),
    ] {
        assert_eq!(key.as_str(), name);
        assert_eq!(
            ConfigWarning::BadField(key).message(),
            format!("Failed to read property '{}' in 'window' from config file", name)
        );
    }
}

#[test]
fn unparsable_text_carries_the_message_of_the_parser() {
    let text = "this is [not toml";
    let expected = text.parse::<toml::Value>().unwrap_err().to_string();
    assert!(!expected.is_empty());
    let r = WindowConfig::parse(text);
    assert_eq!(r.warnings, vec![ConfigWarning::Unparsable]);
    assert_eq!(r.detail, Some(expected.clone()));
    match WindowConfig::read_source(text) {
        ConfigSource::Unparsable(why) => assert_eq!(why, expected),
        _ => panic!("the text is no document"),
    }
    assert_eq!(WindowConfig::parse("[window]\n").detail, None);
    assert_eq!(WindowConfig::parse("a = 1").detail, None);
    assert_eq!(WindowConfig::load(None).detail, None);
}

#[test]
fn shallow_counts_the_characters_that_open_a_level() {
    assert_eq!(MAX_OPENERS, 128);
    assert!(is_shallow(""));
    assert!(is_shallow("[window]\nwidth = 1\n"));
    assert!(is_shallow(&"[".repeat(128)));
    assert!(!is_shallow(&"[".repeat(129)));
    assert!(is_shallow(&"{".repeat(128)));
    assert!(!is_shallow(&"{".repeat(129)));
    assert!(is_shallow(&".".repeat(128)));
    assert!(!is_shallow(&".".repeat(129)));
    assert!(!is_shallow(&format!("{}{}{}", "[".repeat(43), "{".repeat(43), ".".repeat(43))));
    assert!(is_shallow(&format!("{}{}", "]}é= \"x\"\n".repeat(5000), "[".repeat(128))));
}

#[test]
fn deeply_nested_text_is_not_handed_to_the_parser() {
    let text = format!("[window]\nwidth = 3\ndeep = {}{}\n", "[".repeat(100000), "]".repeat(100000));
    let r = WindowConfig::parse(&text);
    assert_eq!(r.warnings, vec![ConfigWarning::Unparsable]);
    assert_eq!(r.detail, Some("the text is nested too deep".to_string()));
    assert_defaults(&r.config);
    assert!(matches!(WindowConfig::read_source(&text), ConfigSource::Unparsable(_)));
}

#[test]
fn nesting_within_the_bound_is_parsed() {
    let text = format!(
        "[window]\nwidth = 3\ndeep = {}{}\n",
        "[".repeat(MAX_OPENERS - 1),
        "]".repeat(MAX_OPENERS - 1)
    );
    assert!(is_shallow(&text));
    let r = WindowConfig::parse(&text);
    assert_eq!(r.detail, None);
    assert_eq!(r.config.width, 3);
    let dotted = format!("[window]\nwidth = 4\n{} = 1\n", vec!["k"; MAX_OPENERS].join("."));
    assert!(is_shallow(&dotted));
    let r = WindowConfig::parse(&dotted);
    assert_eq!(r.detail, None);
    assert_eq!(r.config.width, 4);
}
