use dota_annotation::text::tokenize;
use dota_annotation::zero_one_bool::{deserialize, serialize};
use dota_annotation::{
    assemble_annotation, parse_annotation, parse_annotation_lines, Annotation, Category, Coordinate, LineError,
    ParseError,
};

const ALIASES: [(&str, Category); 18] = [
    ("plane", Category::Plane),
    ("ship", Category::Ship),
    ("storage-tank", Category::StorageTank),
    ("baseball-diamond", Category::BaseballDiamond),
    ("tennis-court", Category::TennisCourt),
    ("basketball-court", Category::BasketballCourt),
    ("ground-track-field", Category::GroundTrackField),
    ("harbor", Category::Harbor),
    ("bridge", Category::Bridge),
    ("large-vehicle", Category::LargeVehicle),
    ("small-vehicle", Category::SmallVehicle),
    ("helicopter", Category::Helicopter),
    ("roundabout", Category::Roundabout),
    ("soccer-ball-field", Category::SoccerBallField),
    ("swimming-pool", Category::SwimmingPool),
    ("container-crane", Category::ContainerCrane),
    ("airport", Category::Airport),
    ("helipad", Category::Helipad),
];

fn coord(v: f64) -> Coordinate {
    Coordinate::from_bits(v.to_bits()).unwrap()
}

fn value(c: Coordinate) -> f64 {
    f64::from_bits(c.to_bits())
}

fn lines(text: &[&str]) -> Vec<String> {
    text.iter().map(|l| l.to_string()).collect()
}

#[test]
fn category_aliases_round_trip() {
    for (alias, category) in ALIASES {
        assert_eq!(category.alias(), alias);
        assert_eq!(Category::from_alias(alias), Some(category));
        assert_eq!(Category::from_alias(category.alias()), Some(category));
    }
}

#[test]
fn category_unknown_alias_is_rejected() {
    assert_eq!(Category::from_alias("unknown-thing"), None);
    assert_eq!(Category::from_alias("Plane"), None);
    assert_eq!(Category::from_alias("storage_tank"), None);
    assert_eq!(Category::from_alias(""), None);
}

#[test]
fn flag_codec() {
    assert_eq!(serialize(true), "1");
    assert_eq!(serialize(false), "0");
    assert_eq!(deserialize("1"), Ok(true));
    assert_eq!(deserialize("0"), Ok(false));
    assert_eq!(deserialize(serialize(true)), Ok(true));
    assert_eq!(deserialize(serialize(false)), Ok(false));
}

#[test]
fn flag_codec_rejects_other_text() {
    for text in ["2", "true", "false", "01", "", " 1"] {
        assert_eq!(
            deserialize(text),
            Err(ParseError::MalformedFlag { token: text.to_string() })
        );
    }
}

#[test]
fn tokenize_irregular_whitespace() {
    let toks = tokenize("  1.0\t2.0   plane \r\n");
    assert_eq!(toks, vec!["1.0".to_string(), "2.0".to_string(), "plane".to_string()]);
    assert!(tokenize("").is_empty());
    assert!(tokenize(" \t ").is_empty());
}

#[test]
fn parse_example_line() {
    let a = parse_annotation("100.0 200.0 150.0 200.0 150.0 250.0 100.0 250.0 plane 0").unwrap();
    assert_eq!(value(a.x1), 100.0);
    assert_eq!(value(a.y1), 200.0);
    assert_eq!(value(a.x2), 150.0);
    assert_eq!(value(a.y2), 200.0);
    assert_eq!(value(a.x3), 150.0);
    assert_eq!(value(a.y3), 250.0);
    assert_eq!(value(a.x4), 100.0);
    assert_eq!(value(a.y4), 250.0);
    assert_eq!(a.category, Category::Plane);
    assert!(!a.difficult);
}

#[test]
fn parse_tolerates_irregular_spacing() {
    let a = parse_annotation("  1   2\t3 4 5 6 7 8.25   harbor   1  ").unwrap();
    assert_eq!(value(a.x1), 1.0);
    assert_eq!(value(a.y4), 8.25);
    assert_eq!(a.category, Category::Harbor);
    assert!(a.difficult);
}

#[test]
fn parse_every_alias() {
    for (alias, category) in ALIASES {
        let line = format!("0 0 1 0 1 1 0 1 {} 1", alias);
        let a = parse_annotation(&line).unwrap();
        assert_eq!(a.category, category);
    }
}

#[test]
fn parse_nine_tokens_is_token_count_error() {
    let line = "1 2 3 4 5 6 7 8 plane";
    assert_eq!(
        parse_annotation(line),
        Err(ParseError::TokenCount { expected: 10, found: 9, line: line.to_string() })
    );
}

#[test]
fn parse_eleven_tokens_is_token_count_error() {
    let line = "1 2 3 4 5 6 7 8 plane 0 extra";
    assert_eq!(
        parse_annotation(line),
        Err(ParseError::TokenCount { expected: 10, found: 11, line: line.to_string() })
    );
}

#[test]
fn parse_blank_line_is_token_count_error() {
    assert_eq!(
        parse_annotation(""),
        Err(ParseError::TokenCount { expected: 10, found: 0, line: String::new() })
    );
}

#[test]
fn parse_unknown_category() {
    assert_eq!(
        parse_annotation("1 2 3 4 5 6 7 8 unknown-thing 0"),
        Err(ParseError::UnknownCategory { token: "unknown-thing".to_string() })
    );
}

#[test]
fn parse_malformed_flag() {
    assert_eq!(
        parse_annotation("1 2 3 4 5 6 7 8 ship yes"),
        Err(ParseError::MalformedFlag { token: "yes".to_string() })
    );
}

#[test]
fn parse_non_numeric_coordinate() {
    assert_eq!(
        parse_annotation("1 2 3 x 5 6 7 8 ship 0"),
        Err(ParseError::Coordinate { index: 3, token: "x".to_string() })
    );
}

#[test]
fn parse_non_finite_coordinates() {
    assert_eq!(
        parse_annotation("NaN 2 3 4 5 6 7 8 ship 0"),
        Err(ParseError::Coordinate { index: 0, token: "NaN".to_string() })
    );
    assert_eq!(
        parse_annotation("1 2 3 4 5 6 7 inf ship 0"),
        Err(ParseError::Coordinate { index: 7, token: "inf".to_string() })
    );
}

#[test]
fn parse_reports_first_failure() {
    assert_eq!(
        parse_annotation("1 a 3 b 5 6 7 8 nothing 9"),
        Err(ParseError::Coordinate { index: 1, token: "a".to_string() })
    );
    assert_eq!(
        parse_annotation("1 2 3 4 5 6 7 8 nothing 9"),
        Err(ParseError::UnknownCategory { token: "nothing".to_string() })
    );
}

#[test]
fn coordinate_from_bits_rejects_non_finite() {
    assert_eq!(Coordinate::from_bits(f64::INFINITY.to_bits()), None);
    assert_eq!(Coordinate::from_bits(f64::NEG_INFINITY.to_bits()), None);
    assert_eq!(Coordinate::from_bits(f64::NAN.to_bits()), None);
    assert_eq!(coord(-3.5).to_bits(), (-3.5f64).to_bits());
}

#[test]
fn load_end_to_end_example() {
    let file = lines(&[
        "10.0 10.0 20.0 10.0 20.0 20.0 10.0 20.0 ship 0",
        "5.5 5.5 6.5 5.5 6.5 6.5 5.5 6.5 helipad 1",
    ]);
    let anns = parse_annotation_lines(&file).unwrap();
    assert_eq!(anns.len(), 2);
    assert_eq!(
        anns[0],
        Annotation {
            x1: coord(10.0),
            y1: coord(10.0),
            x2: coord(20.0),
            y2: coord(10.0),
            x3: coord(20.0),
            y3: coord(20.0),
            x4: coord(10.0),
            y4: coord(20.0),
            category: Category::Ship,
            difficult: false,
        }
    );
    assert_eq!(
        anns[1],
        Annotation {
            x1: coord(5.5),
            y1: coord(5.5),
            x2: coord(6.5),
            y2: coord(5.5),
            x3: coord(6.5),
            y3: coord(6.5),
            x4: coord(5.5),
            y4: coord(6.5),
            category: Category::Helipad,
            difficult: true,
        }
    );
}

#[test]
fn load_preserves_order_and_duplicates() {
    let text = [
        "1 1 2 1 2 2 1 2 bridge 0",
        "3 3 4 3 4 4 3 4 airport 1",
        "1 1 2 1 2 2 1 2 bridge 0",
        "7 7 8 7 8 8 7 8 roundabout 0",
    ];
    let anns = parse_annotation_lines(&lines(&text)).unwrap();
    assert_eq!(anns.len(), text.len());
    for (i, line) in text.iter().enumerate() {
        assert_eq!(Ok(anns[i]), parse_annotation(line));
    }
    assert_eq!(anns[0], anns[2]);
}

#[test]
fn load_empty_file() {
    assert_eq!(parse_annotation_lines(&Vec::new()), Ok(Vec::new()));
}

#[test]
fn load_fails_fast_on_malformed_line() {
    let file = lines(&[
        "1 1 2 1 2 2 1 2 bridge 0",
        "3 3 4 3 4 4 3 4 airport 1",
        "3 3 4 3 4 4 3 4 airport",
        "5 5 6 5 6 6 5 6 ship 0",
        "7 7 8 7 8 8 7 8 roundabout 0",
    ]);
    assert_eq!(
        parse_annotation_lines(&file),
        Err(LineError {
            index: 2,
            error: ParseError::TokenCount {
                expected: 10,
                found: 9,
                line: "3 3 4 3 4 4 3 4 airport".to_string(),
            },
        })
    );
}

#[test]
fn load_reports_first_of_several_failures() {
    let file = lines(&["1 1 2 1 2 2 1 2 bridge 0", "", "1 1 2 1 2 2 1 2 castle 0"]);
    assert_eq!(
        parse_annotation_lines(&file),
        Err(LineError {
            index: 1,
            error: ParseError::TokenCount { expected: 10, found: 0, line: String::new() },
        })
    );
}

fn token_list(line: &str) -> Vec<String> {
    line.split(' ').map(|t| t.to_string()).collect()
}

#[test]
fn assemble_from_scanned_values() {
    let toks = token_list("a b c d e f g h small-vehicle 1");
    let coords: Vec<Option<u64>> = (1..=8).map(|k| Some((k as f64).to_bits())).collect();
    let a = assemble_annotation(&toks, &coords).unwrap();
    assert_eq!(value(a.x1), 1.0);
    assert_eq!(value(a.y2), 4.0);
    assert_eq!(value(a.y4), 8.0);
    assert_eq!(a.category, Category::SmallVehicle);
    assert!(a.difficult);
}

#[test]
fn assemble_reports_first_missing_coordinate() {
    let toks = token_list("a b c d e f g h plane 0");
    let mut coords: Vec<Option<u64>> = vec![Some(0); 8];
    coords[5] = None;
    coords[6] = None;
    assert_eq!(
        assemble_annotation(&toks, &coords),
        Err(ParseError::Coordinate { index: 5, token: "f".to_string() })
    );
}

#[test]
fn assemble_checks_category_before_flag() {
    let toks = token_list("a b c d e f g h boat 7");
    let coords: Vec<Option<u64>> = vec![Some(0); 8];
    assert_eq!(
        assemble_annotation(&toks, &coords),
        Err(ParseError::UnknownCategory { token: "boat".to_string() })
    );
    let toks = token_list("a b c d e f g h airport 7");
    assert_eq!(
        assemble_annotation(&toks, &coords),
        Err(ParseError::MalformedFlag { token: "7".to_string() })
    );
}
