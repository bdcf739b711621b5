use tcconv::{convert, convert_text, ColorScheme, ColorSchemes, SchemeError, SchemeFormat};

fn sample(name: &str, seed: u32) -> ColorScheme {
    ColorScheme {
        name: name.to_string(),
        black: seed,
        red: seed + 1,
        green: seed + 2,
        yellow: seed + 3,
        blue: seed + 4,
        magenta: seed + 5,
        cyan: seed + 6,
        white: seed + 7,
        bright_black: seed + 8,
        bright_red: seed + 9,
        bright_green: seed + 10,
        bright_yellow: seed + 11,
        bright_blue: seed + 12,
        bright_magenta: seed + 13,
        bright_cyan: seed + 14,
        bright_white: seed + 15,
        background: seed + 16,
        foreground: seed + 17,
    }
}

fn colours(s: &ColorScheme) -> [u32; 18] {
    [
        s.black,
        s.red,
        s.green,
        s.yellow,
        s.blue,
        s.magenta,
        s.cyan,
        s.white,
        s.bright_black,
        s.bright_red,
        s.bright_green,
        s.bright_yellow,
        s.bright_blue,
        s.bright_magenta,
        s.bright_cyan,
        s.bright_white,
        s.background,
        s.foreground,
    ]
}

fn assert_same(a: &ColorSchemes, b: &ColorSchemes) {
    assert_eq!(a.len(), b.len());
    for i in 0..a.len() {
        let x = a.get(i).unwrap();
        let y = b.get(i).unwrap();
        assert_eq!(x.name, y.name);
        assert_eq!(colours(x), colours(y));
    }
}

const WT_ONE: &str = r##"{"schemes":[{"name":"X","black":"#000000","red":"#010101","green":"#020202","yellow":"#030303","blue":"#040404","purple":"#050505","cyan":"#060606","white":"#070707","brightBlack":"#080808","brightRed":"#090909","brightGreen":"#0a0a0a","brightYellow":"#0B0B0B","brightBlue":"#0c0c0c","brightPurple":"#0D0D0D","brightCyan":"#0e0e0e","brightWhite":"#0F0F0F","background":"#101010","foreground":"#FFFFFF"}]}"##;

const ALACRITTY_ONE: &str = "colors:
  primary:
    background: '#101010'
    foreground: '#ffffff'
  normal:
    black: '#000000'
    red: '#010101'
    green: '#020202'
    yellow: '#030303'
    blue: '#040404'
    magenta: '#050505'
    cyan: '#060606'
    white: '#070707'
  bright:
    black: '#080808'
    red: '#090909'
    green: '#0A0A0A'
    yellow: '#0b0b0b'
    blue: '#0C0C0C'
    magenta: '#0d0d0d'
    cyan: '#0E0E0E'
    white: '#0f0f0f'
";

#[test]
fn wt_document_decodes_to_its_scheme() {
    let schemes = ColorSchemes::from_wt(WT_ONE).unwrap();
    assert_eq!(schemes.len(), 1);
    let s = schemes.get(0).unwrap();
    assert_eq!(s.name, "X");
    assert_eq!(s.black, 0x000000);
    assert_eq!(s.foreground, 0xFFFFFF);
    assert_eq!(
        colours(s),
        [
            0x000000, 0x010101, 0x020202, 0x030303, 0x040404, 0x050505, 0x060606, 0x070707,
            0x080808, 0x090909, 0x0a0a0a, 0x0b0b0b, 0x0c0c0c, 0x0d0d0d, 0x0e0e0e, 0x0f0f0f,
            0x101010, 0xffffff
        ]
    );
    assert!(s.is_well_formed());
}

#[test]
fn wt_keeps_the_order_of_the_array() {
    let text = ColorSchemes::new(vec![sample("one", 0x10), sample("two", 0x20), sample("three", 0x30)])
        .to_wt();
    let back = ColorSchemes::from_wt(&text).unwrap();
    assert_eq!(back.len(), 3);
    assert_eq!(back.get(0).unwrap().name, "one");
    assert_eq!(back.get(1).unwrap().name, "two");
    assert_eq!(back.get(2).unwrap().name, "three");
}

#[test]
fn wt_without_schemes_is_invalid() {
    assert!(matches!(ColorSchemes::from_wt("{}"), Err(SchemeError::Invalid)));
    assert!(matches!(ColorSchemes::from_wt(r#"{"profiles":[]}"#), Err(SchemeError::Invalid)));
}

#[test]
fn wt_that_is_no_object_is_invalid() {
    assert!(matches!(ColorSchemes::from_wt(""), Err(SchemeError::Invalid)));
    assert!(matches!(ColorSchemes::from_wt("not json"), Err(SchemeError::Invalid)));
    assert!(matches!(ColorSchemes::from_wt("[1, 2]"), Err(SchemeError::Invalid)));
    assert!(matches!(ColorSchemes::from_wt("\"schemes\""), Err(SchemeError::Invalid)));
    assert!(matches!(ColorSchemes::from_wt("{\"schemes\":[]"), Err(SchemeError::Invalid)));
}

#[test]
fn wt_schemes_must_be_an_array() {
    assert!(matches!(ColorSchemes::from_wt(r#"{"schemes":{}}"#), Err(SchemeError::Invalid)));
    assert!(matches!(ColorSchemes::from_wt(r#"{"schemes":"x"}"#), Err(SchemeError::Invalid)));
    assert!(matches!(ColorSchemes::from_wt(r#"{"schemes":null}"#), Err(SchemeError::Invalid)));
}

#[test]
fn wt_empty_array_is_an_empty_collection() {
    let schemes = ColorSchemes::from_wt(r#"{"schemes":[]}"#).unwrap();
    assert_eq!(schemes.len(), 0);
    assert!(schemes.get(0).is_none());
}

#[test]
fn wt_missing_or_malformed_field_is_invalid() {
    let without_red = WT_ONE.replace(r##""red":"#010101","##, "");
    assert!(matches!(ColorSchemes::from_wt(&without_red), Err(SchemeError::Invalid)));
    let without_name = WT_ONE.replace(r##""name":"X","##, "");
    assert!(matches!(ColorSchemes::from_wt(&without_name), Err(SchemeError::Invalid)));
    let number = WT_ONE.replace(r##""red":"#010101""##, r##""red":65793"##);
    assert!(matches!(ColorSchemes::from_wt(&number), Err(SchemeError::Invalid)));
    let short = WT_ONE.replace(r##""red":"#010101""##, r##""red":"#0101""##);
    assert!(matches!(ColorSchemes::from_wt(&short), Err(SchemeError::Invalid)));
    let no_hash = WT_ONE.replace(r##""red":"#010101""##, r##""red":"0010101""##);
    assert!(matches!(ColorSchemes::from_wt(&no_hash), Err(SchemeError::Invalid)));
    let no_hex = WT_ONE.replace(r##""red":"#010101""##, r##""red":"#01010g""##);
    assert!(matches!(ColorSchemes::from_wt(&no_hex), Err(SchemeError::Invalid)));
    let not_an_object = r#"{"schemes":["X"]}"#;
    assert!(matches!(ColorSchemes::from_wt(not_an_object), Err(SchemeError::Invalid)));
}

#[test]
fn wt_one_bad_scheme_fails_the_whole() {
    let one = &WT_ONE[r#"{"schemes":["#.len()..WT_ONE.len() - 2];
    let bad = one.replace(r##""red":"#010101","##, "");
    let text = format!("{{\"schemes\":[{},{}]}}", one, bad);
    assert!(matches!(ColorSchemes::from_wt(&text), Err(SchemeError::Invalid)));
    let good = format!("{{\"schemes\":[{},{}]}}", one, one);
    assert_eq!(ColorSchemes::from_wt(&good).unwrap().len(), 2);
}

#[test]
fn wt_text_has_schema_and_upper_case_colours() {
    let text = ColorSchemes::new(vec![sample("S", 0xabcd00)]).to_wt();
    let doc: serde_json::Value = serde_json::from_str(&text).unwrap();
    assert_eq!(
        doc.get("$schema").unwrap().as_str().unwrap(),
        "https://aka.ms/terminal-profiles-schema"
    );
    let list = doc.get("schemes").unwrap().as_array().unwrap();
    assert_eq!(list.len(), 1);
    let entry = list[0].as_object().unwrap();
    assert_eq!(entry.len(), 21);
    assert_eq!(entry["name"].as_str().unwrap(), "S");
    assert_eq!(entry["black"].as_str().unwrap(), "#ABCD00");
    assert_eq!(entry["red"].as_str().unwrap(), "#ABCD01");
    assert_eq!(entry["purple"].as_str().unwrap(), "#ABCD05");
    assert_eq!(entry["brightPurple"].as_str().unwrap(), "#ABCD0D");
    assert_eq!(entry["brightWhite"].as_str().unwrap(), "#ABCD0F");
    assert_eq!(entry["background"].as_str().unwrap(), "#ABCD10");
    assert_eq!(entry["foreground"].as_str().unwrap(), "#ABCD11");
    assert_eq!(entry["cursorColor"].as_str().unwrap(), "#ABCD11");
    assert_eq!(entry["selectionBackground"].as_str().unwrap(), "#ABCD11");
    assert!(text.contains('\n'));
    assert!(text.starts_with("{\n  \"$schema\": \"https://aka.ms/terminal-profiles-schema\",\n"));
}

#[test]
fn wt_text_of_nothing_has_an_empty_array() {
    let text = ColorSchemes::new(Vec::new()).to_wt();
    assert_eq!(
        *text,
        "{\n  \"$schema\": \"https://aka.ms/terminal-profiles-schema\",\n  \"schemes\": []\n}"
    );
}

#[test]
fn wt_round_trip() {
    let schemes = ColorSchemes::new(vec![
        sample("Campbell", 0x102030),
        sample("One \"Half\" Dark\\", 0),
        sample("", 0xffffee),
        sample("日本語 ü", 0x7f0000),
    ]);
    let back = ColorSchemes::from_wt(&schemes.to_wt()).unwrap();
    assert_same(&back, &schemes);
}

#[test]
fn wt_value_is_decoded_like_its_text() {
    let doc: serde_json::Value = serde_json::from_str(WT_ONE).unwrap();
    let a = ColorSchemes::from_wt_value(&doc).unwrap();
    let b = ColorSchemes::from_wt(WT_ONE).unwrap();
    assert_same(&a, &b);
    let mut top = serde_json::Map::new();
    top.insert("schemes".to_string(), serde_json::Value::Array(Vec::new()));
    assert_eq!(ColorSchemes::from_wt_value(&serde_json::Value::Object(top)).unwrap().len(), 0);
    assert!(matches!(
        ColorSchemes::from_wt_value(&serde_json::Value::Null),
        Err(SchemeError::Invalid)
    ));
}

#[test]
fn alacritty_decodes_to_one_scheme_called_default() {
    let schemes = ColorSchemes::from_alacritty(ALACRITTY_ONE).unwrap();
    assert_eq!(schemes.len(), 1);
    let s = schemes.get(0).unwrap();
    assert_eq!(s.name, "default");
    assert_eq!(
        colours(s),
        [
            0x000000, 0x010101, 0x020202, 0x030303, 0x040404, 0x050505, 0x060606, 0x070707,
            0x080808, 0x090909, 0x0a0a0a, 0x0b0b0b, 0x0c0c0c, 0x0d0d0d, 0x0e0e0e, 0x0f0f0f,
            0x101010, 0xffffff
        ]
    );
}

#[test]
fn alacritty_ignores_what_else_the_document_holds() {
    let text = format!("font:\n  size: 11\nschemes: [a, b]\n{}window:\n  opacity: 1\n", ALACRITTY_ONE);
    let schemes = ColorSchemes::from_alacritty(&text).unwrap();
    assert_eq!(schemes.len(), 1);
    assert_eq!(schemes.get(0).unwrap().name, "default");
}

#[test]
fn alacritty_without_colors_is_invalid() {
    assert!(matches!(ColorSchemes::from_alacritty("font:\n  size: 11\n"), Err(SchemeError::Invalid)));
    assert!(matches!(ColorSchemes::from_alacritty("- a\n- b\n"), Err(SchemeError::Invalid)));
    assert!(matches!(ColorSchemes::from_alacritty("colors: [unclosed"), Err(SchemeError::Invalid)));
    assert!(matches!(ColorSchemes::from_alacritty("colors: 3\n"), Err(SchemeError::Invalid)));
    let renamed = ALACRITTY_ONE.replace("colors:", "color:");
    assert!(matches!(ColorSchemes::from_alacritty(&renamed), Err(SchemeError::Invalid)));
}

#[test]
fn alacritty_missing_or_malformed_colour_is_invalid() {
    let without_group = ALACRITTY_ONE.replace("  bright:\n", "  shiny:\n");
    assert!(matches!(ColorSchemes::from_alacritty(&without_group), Err(SchemeError::Invalid)));
    let without_key = ALACRITTY_ONE.replace("    foreground: '#ffffff'\n", "");
    assert!(matches!(ColorSchemes::from_alacritty(&without_key), Err(SchemeError::Invalid)));
    let short = ALACRITTY_ONE.replace("'#ffffff'", "'#fff'");
    assert!(matches!(ColorSchemes::from_alacritty(&short), Err(SchemeError::Invalid)));
    let prefixed = ALACRITTY_ONE.replace("'#ffffff'", "'0xffffff'");
    assert!(matches!(ColorSchemes::from_alacritty(&prefixed), Err(SchemeError::Invalid)));
    let number = ALACRITTY_ONE.replace("'#ffffff'", "1234567");
    assert!(matches!(ColorSchemes::from_alacritty(&number), Err(SchemeError::Invalid)));
}

#[test]
fn alacritty_entries_are_decoded_like_their_text() {
    let top: serde_yaml::Mapping = serde_yaml::from_str(ALACRITTY_ONE).unwrap();
    let a = ColorSchemes::from_alacritty_entries(&top).unwrap();
    let b = ColorSchemes::from_alacritty(ALACRITTY_ONE).unwrap();
    assert_same(&a, &b);
    assert!(matches!(
        ColorSchemes::from_alacritty_entries(&serde_yaml::Mapping::new()),
        Err(SchemeError::Invalid)
    ));
}

#[test]
fn alacritty_text_holds_the_three_groups() {
    let text = ColorSchemes::new(vec![sample("S", 0xabcd00)]).to_alacritty();
    let doc: serde_yaml::Value = serde_yaml::from_str(&text).unwrap();
    let root = doc.as_mapping().unwrap();
    assert_eq!(root.len(), 1);
    let color = doc.get("color").unwrap().as_mapping().unwrap();
    let groups: Vec<&str> = color.keys().map(|k| k.as_str().unwrap()).collect();
    assert_eq!(groups, vec!["primary", "normal", "bright"]);
    let primary = color.get("primary").unwrap().as_mapping().unwrap();
    let keys: Vec<&str> = primary.keys().map(|k| k.as_str().unwrap()).collect();
    assert_eq!(keys, vec!["foreground", "background"]);
    assert_eq!(primary.get("foreground").unwrap().as_str().unwrap(), "#ABCD11");
    assert_eq!(primary.get("background").unwrap().as_str().unwrap(), "#ABCD10");
    let names = vec!["black", "red", "green", "yellow", "blue", "magenta", "cyan", "white"];
    let normal = color.get("normal").unwrap().as_mapping().unwrap();
    let keys: Vec<&str> = normal.keys().map(|k| k.as_str().unwrap()).collect();
    assert_eq!(keys, names);
    assert_eq!(normal.get("black").unwrap().as_str().unwrap(), "#ABCD00");
    assert_eq!(normal.get("magenta").unwrap().as_str().unwrap(), "#ABCD05");
    assert_eq!(normal.get("white").unwrap().as_str().unwrap(), "#ABCD07");
    let bright = color.get("bright").unwrap().as_mapping().unwrap();
    let keys: Vec<&str> = bright.keys().map(|k| k.as_str().unwrap()).collect();
    assert_eq!(keys, names);
    assert_eq!(bright.get("black").unwrap().as_str().unwrap(), "#ABCD08");
    assert_eq!(bright.get("magenta").unwrap().as_str().unwrap(), "#ABCD0D");
    assert_eq!(bright.get("white").unwrap().as_str().unwrap(), "#ABCD0F");
}

#[test]
fn alacritty_documents_follow_each_other() {
    let first = ColorSchemes::new(vec![sample("a", 1)]).to_alacritty();
    let second = ColorSchemes::new(vec![sample("b", 0x50)]).to_alacritty();
    let both = ColorSchemes::new(vec![sample("a", 1), sample("b", 0x50)]).to_alacritty();
    assert!(!first.is_empty());
    assert_eq!(*both, format!("{}{}", first, second));
    assert_eq!(*ColorSchemes::new(Vec::new()).to_alacritty(), "");
}

#[test]
fn alacritty_text_is_no_alacritty_input() {
    let text = ColorSchemes::new(vec![sample("a", 1)]).to_alacritty();
    assert!(matches!(ColorSchemes::from_alacritty(&text), Err(SchemeError::Invalid)));
}

#[test]
fn xshell_text_of_one_scheme() {
    let text = ColorSchemes::new(vec![sample("Solar", 0xa0)]).to_xshell();
    let expected = "[Solar]
text=0000b1
cyan(bold)=0000ae
text(bold)=0000b1
magenta=0000a5
green=0000a2
green(bold)=0000aa
background=0000b0
cyan=0000a6
red(bold)=0000a9
yellow=0000a3
magenta(bold)=0000ad
yellow(bold)=0000ab
red=0000a1
white=0000a7
blue(bold)=0000ac
white(bold)=0000af
black=0000a0
blue=0000a4
black(bold)=0000a8
[Names]
name1=Solar
count=1";
    assert_eq!(*text, expected);
}

#[test]
fn xshell_numbers_the_names_downwards() {
    let text = ColorSchemes::new(vec![sample("A", 0), sample("B", 0x100), sample("C", 0x200)])
        .to_xshell();
    let tail = "\n[Names]\nname3=A\nname2=B\nname1=C\ncount=3";
    assert!(text.ends_with(tail));
    let a = text.find("[A]\n").unwrap();
    let b = text.find("\n[B]\n").unwrap();
    let c = text.find("\n[C]\n").unwrap();
    assert_eq!(a, 0);
    assert!(a < b && b < c && c < text.find("\n[Names]\n").unwrap());
    assert_eq!(text.lines().count(), 3 * 20 + 5);
}

#[test]
fn xshell_text_of_nothing_is_the_names_section() {
    assert_eq!(*ColorSchemes::new(Vec::new()).to_xshell(), "\n[Names]\ncount=0");
}

#[test]
fn xshell_counts_beyond_nine() {
    let mut v = Vec::new();
    for i in 0..12u32 {
        v.push(sample(&format!("s{}", i), i));
    }
    let text = ColorSchemes::new(v).to_xshell();
    assert!(text.contains("\nname12=s0\nname11=s1\nname10=s2\nname9=s3\n"));
    assert!(text.ends_with("\nname1=s11\ncount=12"));
}

#[test]
fn xshell_round_trip() {
    let schemes = ColorSchemes::new(vec![
        sample("A", 0x102030),
        sample("B", 0),
        sample("C", 0xffffee),
        sample("New Black", 0x7f0000),
    ]);
    let back = ColorSchemes::from_xshell(&schemes.to_xshell()).unwrap();
    assert_same(&back, &schemes);
}

#[test]
fn xshell_round_trip_of_nothing() {
    let text = ColorSchemes::new(Vec::new()).to_xshell();
    assert_eq!(ColorSchemes::from_xshell(&text).unwrap().len(), 0);
}

#[test]
fn xshell_missing_fields_are_zero() {
    let text = "[Sparse]\nred=FF0000\ntext=00ff00\nblack(bold)=1\n[Empty]\n";
    let schemes = ColorSchemes::from_xshell(text).unwrap();
    assert_eq!(schemes.len(), 2);
    let s = schemes.get(0).unwrap();
    assert_eq!(s.name, "Sparse");
    assert_eq!(s.red, 0xff0000);
    assert_eq!(s.foreground, 0x00ff00);
    assert_eq!(s.bright_black, 1);
    assert_eq!(s.black, 0);
    assert_eq!(s.background, 0);
    assert_eq!(s.bright_white, 0);
    let e = schemes.get(1).unwrap();
    assert_eq!(e.name, "Empty");
    assert_eq!(colours(e), [0u32; 18]);
}

#[test]
fn xshell_skips_names_in_any_case() {
    let text = "[names]\nname1=A\ncount=1\n[A]\nred=010203\n[NAMES]\ncount=1\n";
    let schemes = ColorSchemes::from_xshell(text).unwrap();
    assert_eq!(schemes.len(), 1);
    assert_eq!(schemes.get(0).unwrap().name, "A");
    assert_eq!(schemes.get(0).unwrap().red, 0x010203);
}

#[test]
fn xshell_skips_what_stands_before_the_first_section() {
    let text = "red=ffffff\n[A]\nred=010203\n";
    let schemes = ColorSchemes::from_xshell(text).unwrap();
    assert_eq!(schemes.len(), 1);
    assert_eq!(schemes.get(0).unwrap().red, 0x010203);
    assert_eq!(ColorSchemes::from_xshell("").unwrap().len(), 0);
}

#[test]
fn xshell_malformed_colour_is_invalid() {
    assert!(matches!(ColorSchemes::from_xshell("[A]\nred=xyz\n"), Err(SchemeError::Invalid)));
    assert!(matches!(ColorSchemes::from_xshell("[A]\nred=1000000\n"), Err(SchemeError::Invalid)));
    assert!(matches!(ColorSchemes::from_xshell("[A]\nred=\n"), Err(SchemeError::Invalid)));
    assert!(matches!(
        ColorSchemes::from_xshell("[A]\nred=010203\n[B]\ntext=+ff\n"),
        Err(SchemeError::Invalid)
    ));
}

#[test]
fn xshell_that_is_no_ini_is_invalid() {
    assert!(matches!(ColorSchemes::from_xshell("[A]\n=ffffff\n"), Err(SchemeError::Invalid)));
    assert!(matches!(ColorSchemes::from_xshell("[A\nred=ffffff"), Err(SchemeError::Invalid)));
}

#[test]
fn xshell_ini_is_decoded_like_its_text() {
    let text = "[A]\nred=010203\n[B]\nblue=0000ff\n";
    let conf = ini::Ini::load_from_str(text).unwrap();
    let a = ColorSchemes::from_xshell_ini(&conf).unwrap();
    let b = ColorSchemes::from_xshell(text).unwrap();
    assert_eq!(a.len(), 2);
    assert_same(&a, &b);
}

#[test]
fn xshell_repeated_section_counts_once() {
    let text = "[A]\nred=010203\n[B]\nred=000001\n[A]\nred=040506\n";
    let schemes = ColorSchemes::from_xshell(text).unwrap();
    assert_eq!(schemes.len(), 2);
    assert_eq!(schemes.get(0).unwrap().name, "A");
    assert_eq!(schemes.get(0).unwrap().red, 0x010203);
    assert_eq!(schemes.get(1).unwrap().name, "B");
}

#[test]
fn literal_picks_the_decoder() {
    let a = ColorSchemes::from_literal(WT_ONE, SchemeFormat::WindowsTerminal).unwrap();
    assert_eq!(a.get(0).unwrap().name, "X");
    let b = ColorSchemes::from_literal(ALACRITTY_ONE, SchemeFormat::Alacritty).unwrap();
    assert_eq!(b.get(0).unwrap().name, "default");
    let c = ColorSchemes::from_literal("[Z]\nred=1\n", SchemeFormat::XShell).unwrap();
    assert_eq!(c.get(0).unwrap().name, "Z");
    assert!(matches!(
        ColorSchemes::from_literal(WT_ONE, SchemeFormat::Alacritty),
        Err(SchemeError::Invalid)
    ));
}

#[test]
fn literal_without_decoder_is_unsupported() {
    assert!(matches!(
        ColorSchemes::from_literal(WT_ONE, SchemeFormat::SecureCRT),
        Err(SchemeError::Unsupported)
    ));
    assert!(matches!(
        ColorSchemes::from_literal("", SchemeFormat::MobaXTerm),
        Err(SchemeError::Unsupported)
    ));
}

#[test]
fn literal_picks_the_encoder() {
    let schemes = ColorSchemes::new(vec![sample("a", 1), sample("b", 2)]);
    assert_eq!(schemes.to_literal(SchemeFormat::WindowsTerminal), schemes.to_wt());
    assert_eq!(schemes.to_literal(SchemeFormat::XShell), schemes.to_xshell());
    assert_eq!(schemes.to_literal(SchemeFormat::Alacritty), schemes.to_alacritty());
    assert_ne!(schemes.to_wt(), schemes.to_xshell());
}

#[test]
fn formats_know_what_they_can_do() {
    assert!(SchemeFormat::WindowsTerminal.has_decoder() && SchemeFormat::WindowsTerminal.has_encoder());
    assert!(SchemeFormat::XShell.has_decoder() && SchemeFormat::XShell.has_encoder());
    assert!(SchemeFormat::Alacritty.has_decoder() && SchemeFormat::Alacritty.has_encoder());
    assert!(!SchemeFormat::SecureCRT.has_decoder() && !SchemeFormat::SecureCRT.has_encoder());
    assert!(!SchemeFormat::MobaXTerm.has_decoder() && !SchemeFormat::MobaXTerm.has_encoder());
}

#[test]
fn words_name_formats() {
    assert_eq!(SchemeFormat::from_str("alacritty"), Ok(SchemeFormat::Alacritty));
    assert_eq!(SchemeFormat::from_str("xshell"), Ok(SchemeFormat::XShell));
    assert_eq!(SchemeFormat::from_str("xcs"), Ok(SchemeFormat::XShell));
    assert_eq!(SchemeFormat::from_str("windowsterminal"), Ok(SchemeFormat::WindowsTerminal));
    assert_eq!(SchemeFormat::from_str("wt"), Ok(SchemeFormat::WindowsTerminal));
    assert_eq!(SchemeFormat::from_str("  WT\n"), Ok(SchemeFormat::WindowsTerminal));
    assert_eq!(SchemeFormat::from_str("Alacritty"), Ok(SchemeFormat::Alacritty));
    assert_eq!(SchemeFormat::from_str("\u{a0}XShell\t"), Ok(SchemeFormat::XShell));
}

#[test]
fn other_words_are_unsupported() {
    assert_eq!(SchemeFormat::from_str(""), Err(SchemeError::Unsupported));
    assert_eq!(SchemeFormat::from_str("mobaxterm"), Err(SchemeError::Unsupported));
    assert_eq!(SchemeFormat::from_str("securecrt"), Err(SchemeError::Unsupported));
    assert_eq!(SchemeFormat::from_str("windows terminal"), Err(SchemeError::Unsupported));
    assert_eq!(SchemeFormat::from_str("w t"), Err(SchemeError::Unsupported));
    assert_eq!(SchemeFormat::from_tag("WT"), Err(SchemeError::Unsupported));
    assert_eq!(SchemeFormat::from_tag(" wt"), Err(SchemeError::Unsupported));
    assert_eq!(SchemeFormat::from_tag("wt"), Ok(SchemeFormat::WindowsTerminal));
}

#[test]
fn conversion_decodes_then_encodes() {
    let expected = ColorSchemes::from_wt(WT_ONE).unwrap().to_xshell();
    let out = convert(WT_ONE.as_bytes(), SchemeFormat::WindowsTerminal, SchemeFormat::XShell).unwrap();
    assert_eq!(out, expected);
    assert!(out.starts_with("[X]\ntext=ffffff\n"));
    let same = convert_text(WT_ONE, false, SchemeFormat::WindowsTerminal, SchemeFormat::XShell).unwrap();
    assert_eq!(same, expected);
}

#[test]
fn conversion_reads_other_encodings() {
    let text = "[Caf\u{e9} au lait, tr\u{e8}s fran\u{e7}ais]\nred=010203\n";
    let mut utf16: Vec<u8> = vec![0xff, 0xfe];
    for unit in text.encode_utf16() {
        utf16.extend_from_slice(&unit.to_le_bytes());
    }
    let out = convert(&utf16, SchemeFormat::XShell, SchemeFormat::WindowsTerminal).unwrap();
    let back = ColorSchemes::from_wt(&out).unwrap();
    assert_eq!(back.get(0).unwrap().name, "Caf\u{e9} au lait, tr\u{e8}s fran\u{e7}ais");
    assert_eq!(back.get(0).unwrap().red, 0x010203);
}

#[test]
fn conversion_reports_each_failure() {
    assert!(matches!(
        convert_text(WT_ONE, true, SchemeFormat::WindowsTerminal, SchemeFormat::XShell),
        Err(SchemeError::Encoding)
    ));
    assert!(matches!(
        convert(b"{}", SchemeFormat::WindowsTerminal, SchemeFormat::XShell),
        Err(SchemeError::Invalid)
    ));
    assert!(matches!(
        convert(WT_ONE.as_bytes(), SchemeFormat::SecureCRT, SchemeFormat::XShell),
        Err(SchemeError::Unsupported)
    ));
    assert!(matches!(
        convert(WT_ONE.as_bytes(), SchemeFormat::WindowsTerminal, SchemeFormat::MobaXTerm),
        Err(SchemeError::Unsupported)
    ));
    assert!(matches!(
        convert(b"{}", SchemeFormat::WindowsTerminal, SchemeFormat::MobaXTerm),
        Err(SchemeError::Invalid)
    ));
}

#[test]
fn well_formed_means_24_bits() {
    assert!(sample("a", 0).is_well_formed());
    assert!(sample("a", 0xffffff - 17).is_well_formed());
    assert!(!sample("a", 0xffffff - 16).is_well_formed());
    let mut s = sample("a", 0);
    s.cyan = 0x1000000;
    assert!(!s.is_well_formed());
}

#[test]
fn collection_keeps_its_order() {
    let schemes = ColorSchemes::new(vec![sample("x", 1), sample("y", 2)]);
    assert_eq!(schemes.len(), 2);
    assert_eq!(schemes.get(0).unwrap().name, "x");
    assert_eq!(schemes.get(1).unwrap().name, "y");
    assert!(schemes.get(2).is_none());
    assert_eq!(schemes.0[1].black, 2);
}
