use automata::conversionutil::convert;
use automata::conversionutil::Conversion;
use automata::conversionutil::LengthUnit;
use automata::providers::b64_suggestions_from;
use automata::providers::conversion_query_from;
use automata::providers::expand_home;
use automata::providers::get_brave_search_url;
use automata::providers::listing_root;
use automata::providers::math_suggestions_from;
use automata::providers::names_faulting;
use automata::providers::parse_conversion;
use automata::providers::unit_conversion_suggestions_from;
use automata::providers::ConversionQuery;
use automata::providers::ConvertedAmount;
use automata::providers::Facts;
use automata::providers::FolderEntry;
use automata::suggestions::Action;
use automata::suggestions::Suggestion;
use automata::suggestions::SuggestionMgr;
use automata::sysinfo::DefaultApplicationType;

fn no_facts() -> Facts {
    Facts { home: "/home/u".to_string(), is_dir: false, children: Vec::new(), converted: None }
}

fn dir(path: &str) -> FolderEntry {
    FolderEntry { path: path.to_string(), is_dir: true }
}

fn file(path: &str) -> FolderEntry {
    FolderEntry { path: path.to_string(), is_dir: false }
}

fn converted(amount: &str, result: &str) -> Option<ConvertedAmount> {
    Some(ConvertedAmount { amount: amount.to_string(), result: result.to_string() })
}

fn six_digits(value: f64) -> String {
    let rounded = (value * 100000.0).round() / 100000.0;
    format!("{}", rounded)
}

#[test]
fn calculator_evaluates_a_sum() {
    let list = SuggestionMgr::get_math_suggestions("2+2");
    assert_eq!(list.len(), 1);
    assert_eq!(list[0].id, "evaluation.calc");
    assert_eq!(list[0].title, "Result: '4'");
    assert_eq!(list[0].description, "");
    assert_eq!(list[0].icon_path, None);
    assert_eq!(list[0].action, Action::CopyToClipboard("4".to_string()));
    assert_eq!(list[0].completion, None);
}

#[test]
fn calculator_follows_precedence() {
    let list = SuggestionMgr::get_math_suggestions("2 + 3 * 4");
    assert_eq!(list.len(), 1);
    assert_eq!(list[0].title, "Result: '14'");
}

#[test]
fn calculator_gives_nothing_for_words() {
    assert!(SuggestionMgr::get_math_suggestions("not math").is_empty());
    assert!(SuggestionMgr::get_math_suggestions("2 +").is_empty());
}

#[test]
fn calculator_leaves_out_functions_that_can_stop_the_program() {
    assert!(SuggestionMgr::get_math_suggestions("str::substring(\"\u{e9}\", 1)").is_empty());
    assert!(SuggestionMgr::get_math_suggestions("shl(1, 64)").is_empty());
    assert!(SuggestionMgr::get_math_suggestions("shr(1, 64)").is_empty());
    assert!(SuggestionMgr::get_math_suggestions("math::abs(-1)").is_empty());
    assert!(names_faulting("1 + shl(1, 2)"));
    assert!(!names_faulting("math::sqrt(16)"));
}

#[test]
fn calculator_follows_deep_nesting() {
    let deep = format!("{}1{}", "(".repeat(511), ")".repeat(511));
    let list = SuggestionMgr::get_math_suggestions(&deep);
    assert_eq!(list.len(), 1);
    assert_eq!(list[0].title, "Result: '1'");
}

#[test]
fn calculator_leaves_out_long_expressions() {
    let long = format!("1{}", "+1".repeat(512));
    assert_eq!(long.chars().count(), 1025);
    assert!(SuggestionMgr::get_math_suggestions(&long).is_empty());
    let fits = format!("11{}", "+1".repeat(511));
    assert_eq!(fits.chars().count(), 1024);
    let list = SuggestionMgr::get_math_suggestions(&fits);
    assert_eq!(list.len(), 1);
    assert_eq!(list[0].title, "Result: '522'");
}

#[test]
fn calculator_knows_functions() {
    let list = SuggestionMgr::get_math_suggestions("max(1, 7, 3)");
    assert_eq!(list.len(), 1);
    assert_eq!(list[0].title, "Result: '7'");
}

#[test]
fn calculator_on_empty_input() {
    let list = SuggestionMgr::get_math_suggestions("");
    assert_eq!(list.len(), 1);
    assert_eq!(list[0].title, "Result: '()'");
}

#[test]
fn math_suggestions_from_a_value() {
    let list = math_suggestions_from(Some("42".to_string()));
    assert_eq!(list.len(), 1);
    assert_eq!(list[0].title, "Result: '42'");
    assert_eq!(list[0].action, Action::CopyToClipboard("42".to_string()));
    assert!(math_suggestions_from(None).is_empty());
}

#[test]
fn base64_decodes_text() {
    let list = SuggestionMgr::get_b64_conversion_suggestions("aGVsbG8=");
    assert_eq!(list.len(), 1);
    assert_eq!(list[0].id, "evaluation.b64");
    assert_eq!(list[0].title, "Base64 converted text: 'hello'");
    assert_eq!(list[0].action, Action::CopyToClipboard("hello".to_string()));
    assert_eq!(list[0].completion, None);
}

#[test]
fn base64_gives_nothing_for_other_text() {
    assert!(SuggestionMgr::get_b64_conversion_suggestions("not-base64!!").is_empty());
    assert!(SuggestionMgr::get_b64_conversion_suggestions("aGVsbG8").is_empty());
}

#[test]
fn base64_gives_nothing_for_bytes_that_are_no_text() {
    // "/w==" decodes to the single byte 0xff
    assert!(SuggestionMgr::get_b64_conversion_suggestions("/w==").is_empty());
    assert!(b64_suggestions_from(Some(vec![0xff, 0xfe])).is_empty());
    assert!(b64_suggestions_from(None).is_empty());
}

#[test]
fn b64_suggestions_from_valid_bytes() {
    let list = b64_suggestions_from(Some(vec![0xc3, 0xa9]));
    assert_eq!(list.len(), 1);
    assert_eq!(list[0].title, "Base64 converted text: 'é'");
}

#[test]
fn parse_conversion_reads_amount_unit_and_target() {
    assert_eq!(
        parse_conversion("5 km to mi"),
        Some(ConversionQuery {
            amount: "5".to_string(),
            unit: "km".to_string(),
            target: "mi".to_string(),
        })
    );
    assert_eq!(
        parse_conversion("-2.5kg to   lb  "),
        Some(ConversionQuery {
            amount: "-2.5".to_string(),
            unit: "kg".to_string(),
            target: "lb".to_string(),
        })
    );
    assert_eq!(
        parse_conversion("about 12.50 Miles to km"),
        Some(ConversionQuery {
            amount: "12.50".to_string(),
            unit: "about".to_string(),
            target: "km".to_string(),
        })
    );
    assert_eq!(
        parse_conversion("1E+3 m to km"),
        Some(ConversionQuery {
            amount: "1E+3".to_string(),
            unit: "E".to_string(),
            target: "km".to_string(),
        })
    );
}

#[test]
fn parse_conversion_takes_the_second_part_only() {
    assert_eq!(
        parse_conversion("1 m to cm to mm"),
        Some(ConversionQuery {
            amount: "1".to_string(),
            unit: "m".to_string(),
            target: "cm".to_string(),
        })
    );
}

#[test]
fn parse_conversion_needs_amount_unit_and_separator() {
    assert_eq!(parse_conversion("nofield"), None);
    assert_eq!(parse_conversion("km to mi"), None);
    assert_eq!(parse_conversion("5 to mi"), None);
    assert_eq!(parse_conversion(""), None);
}

#[test]
fn conversion_query_from_needs_both() {
    assert_eq!(
        conversion_query_from(Some("1".to_string()), Some("m".to_string()), "cm".to_string()),
        Some(ConversionQuery {
            amount: "1".to_string(),
            unit: "m".to_string(),
            target: "cm".to_string(),
        })
    );
    assert_eq!(conversion_query_from(None, Some("m".to_string()), "cm".to_string()), None);
    assert_eq!(conversion_query_from(Some("1".to_string()), None, "cm".to_string()), None);
}

#[test]
fn unit_conversion_of_five_kilometres() {
    let query = parse_conversion("5 km to mi").unwrap();
    assert_eq!(
        convert(&query.unit, &query.target),
        Ok(Conversion::Length(LengthUnit::Kilometre, LengthUnit::Mile))
    );
    let amount: f64 = query.amount.parse().unwrap();
    let metres = unit_conversions::length::kilometres::to_metres(amount);
    let miles = unit_conversions::length::metres::to_miles(metres);
    let facts = converted(&format!("{}", amount), &six_digits(miles));
    let list = SuggestionMgr::get_unit_conversion_suggestions("5 km to mi", &facts);
    assert_eq!(list.len(), 1);
    assert_eq!(list[0].id, "evaluation.unit-conversion");
    assert_eq!(list[0].title, "5km = 3.10686mi");
    assert_eq!(list[0].action, Action::NoOp);
    assert_eq!(list[0].completion, None);
}

#[test]
fn unit_conversion_gives_nothing_for_unknown_units() {
    assert!(SuggestionMgr::get_unit_conversion_suggestions("foo to bar", &None).is_empty());
    assert!(
        SuggestionMgr::get_unit_conversion_suggestions("foo to bar", &converted("1", "2"))
            .is_empty()
    );
    assert!(
        SuggestionMgr::get_unit_conversion_suggestions("5 km to kg", &converted("5", "2"))
            .is_empty()
    );
}

#[test]
fn unit_conversion_gives_nothing_without_separator() {
    assert!(SuggestionMgr::get_unit_conversion_suggestions("nofield", &None).is_empty());
    assert!(
        SuggestionMgr::get_unit_conversion_suggestions("nofield", &converted("1", "2")).is_empty()
    );
}

#[test]
fn unit_conversion_gives_nothing_without_converted_amount() {
    assert!(SuggestionMgr::get_unit_conversion_suggestions("5 km to mi", &None).is_empty());
}

#[test]
fn unit_conversion_suggestions_from_a_query() {
    let query = ConversionQuery {
        amount: "100".to_string(),
        unit: "C".to_string(),
        target: "F".to_string(),
    };
    let list = unit_conversion_suggestions_from(&query, &converted("100", "212"));
    assert_eq!(list.len(), 1);
    assert_eq!(list[0].title, "100C = 212F");
}

#[test]
fn search_url_replaces_spaces() {
    assert_eq!(
        get_brave_search_url("rust book"),
        "search.brave.com/search?source=desktop&q=rust+book"
    );
    assert_eq!(get_brave_search_url(""), "search.brave.com/search?source=desktop&q=");
}

#[test]
fn expand_home_replaces_a_leading_tilde() {
    assert_eq!(expand_home("~/docs", "/home/u"), "/home/u/docs");
    assert_eq!(expand_home("~", "/home/u"), "/home/u");
    assert_eq!(expand_home("/tmp/~", "/home/u"), "/tmp/~");
    assert_eq!(expand_home("", "/home/u"), "");
}

#[test]
fn listing_root_is_the_path_or_its_parent() {
    assert_eq!(listing_root("/tmp/"), Some("/tmp/".to_string()));
    assert_eq!(listing_root("/tmp/ab"), Some("/tmp".to_string()));
    assert_eq!(listing_root("/home/u/do"), Some("/home/u".to_string()));
    assert_eq!(listing_root("docs"), Some(String::new()));
    assert_eq!(listing_root(""), None);
}

#[test]
fn folder_provider_opens_an_existing_directory() {
    let facts = Facts {
        home: "/home/u".to_string(),
        is_dir: true,
        children: vec![dir("/home/u/docs"), dir("/home/u/music")],
        converted: None,
    };
    let list = SuggestionMgr::get_folder_suggestions("/home/u/docs", &facts);
    assert_eq!(list.len(), 1);
    assert_eq!(list[0].id, "system.folder.open /home/u/docs");
    assert_eq!(list[0].title, "Open folder: '/home/u/docs'");
    assert_eq!(
        list[0].action,
        Action::Open(DefaultApplicationType::FileExplorer, "/home/u/docs".to_string())
    );
    assert_eq!(list[0].completion, None);
}

#[test]
fn folder_provider_expands_the_home_directory() {
    let facts = Facts {
        home: "/home/u".to_string(),
        is_dir: true,
        children: vec![dir("/home/u/docs"), file("/home/u/notes.txt"), dir("/home/u/Music")],
        converted: None,
    };
    let list = SuggestionMgr::get_folder_suggestions("~/", &facts);
    assert_eq!(list.len(), 3);
    assert_eq!(list[0].id, "system.folder.open ~/");
    assert_eq!(list[0].title, "Open folder: '~/'");
    assert_eq!(
        list[0].action,
        Action::Open(DefaultApplicationType::FileExplorer, "/home/u/".to_string())
    );
    assert_eq!(list[1].id, "system.folder.open /home/u/docs");
    assert_eq!(list[1].completion, Some("/home/u/docs/".to_string()));
    assert_eq!(list[2].id, "system.folder.open /home/u/Music");
    assert_eq!(list[2].completion, Some("/home/u/Music/".to_string()));
}

#[test]
fn folder_provider_completes_a_partial_name() {
    let facts = Facts {
        home: "/home/u".to_string(),
        is_dir: false,
        children: vec![
            dir("/home/u/Documents"),
            dir("/home/u/Downloads"),
            dir("/home/u/Music"),
            file("/home/u/do.txt"),
        ],
        converted: None,
    };
    let list = SuggestionMgr::get_folder_suggestions("/home/u/do", &facts);
    assert_eq!(list.len(), 2);
    assert_eq!(list[0].title, "Open folder: '/home/u/Documents'");
    assert_eq!(
        list[0].action,
        Action::Open(DefaultApplicationType::FileExplorer, "/home/u/Documents".to_string())
    );
    assert_eq!(list[1].title, "Open folder: '/home/u/Downloads'");
    for suggestion in &list {
        assert!(suggestion.completion.as_ref().unwrap().ends_with('/'));
    }
}

#[test]
fn folder_provider_gives_nothing_without_listing() {
    assert!(SuggestionMgr::get_folder_suggestions("/nowhere/x", &no_facts()).is_empty());
    let facts = Facts {
        home: "/home/u".to_string(),
        is_dir: false,
        children: vec![dir("/home/u/docs")],
        converted: None,
    };
    // the empty path has no listing root, so the listing is not looked at
    assert!(SuggestionMgr::get_folder_suggestions("", &facts).is_empty());
}

#[test]
fn dynamic_items_end_with_search_and_command() {
    for input in ["", "firefox", "ls -l /tmp", "2+2"] {
        let list = SuggestionMgr::load_dynamic_items(input, &no_facts());
        let n = list.len();
        assert!(n >= 2);
        assert_eq!(list[n - 2].id, "action.search");
        assert_eq!(list[n - 2].title, format!("Search: '{}'", input));
        assert_eq!(list[n - 1].id, "system.command");
        assert_eq!(list[n - 1].title, format!("Run command: '{}'", input));
        assert_eq!(list.iter().filter(|s| s.id == "action.search").count(), 1);
        assert_eq!(list.iter().filter(|s| s.id == "system.command").count(), 1);
    }
}

#[test]
fn dynamic_items_for_a_command_line() {
    let list = SuggestionMgr::load_dynamic_items("ls -l /tmp", &no_facts());
    let n = list.len();
    assert_eq!(
        list[n - 2].action,
        Action::Open(
            DefaultApplicationType::Browser,
            "search.brave.com/search?source=desktop&q=ls+-l+/tmp".to_string()
        )
    );
    assert_eq!(
        list[n - 1].action,
        Action::Command(vec!["ls".to_string(), "-l".to_string(), "/tmp".to_string()])
    );
    assert_eq!(list[n - 1].completion, None);
    assert_eq!(list[n - 2].completion, None);
}

#[test]
fn dynamic_items_keep_the_provider_order() {
    let facts = Facts {
        home: "/home/u".to_string(),
        is_dir: true,
        children: Vec::new(),
        converted: None,
    };
    let list = SuggestionMgr::load_dynamic_items("1+1", &facts);
    let ids: Vec<&str> = list.iter().map(|s: &Suggestion| s.id.as_str()).collect();
    assert_eq!(
        ids,
        vec!["system.folder.open 1+1", "evaluation.calc", "action.search", "system.command"]
    );
}
