use configparser::ini::Ini;
use itag2mqttd::config::{split_adapters, Config, MAX_TEXT_LEN};

fn document(text: &str) -> Ini {
    let mut ini = Ini::new();
    ini.read(String::from(text)).unwrap();
    ini
}

fn parse(text: &str) -> Result<Config, String> {
    match Config::read(text) {
        Ok(config) => Ok(config),
        Err(reason) => match reason.strip_suffix(HINT) {
            Some(reason) => Err(reason.to_string()),
            None => panic!("no hint after {:?}", reason),
        },
    }
}

fn names(list: &str) -> Vec<String> {
    split_adapters(list)
}

const HINT: &str =
    ".\nHint: Format must be:\n[mqtt]\nhost=xxx\nport=xxx\n[bluetooth]\nadapters=hci1,xxx\n";

#[test]
fn parses_a_complete_document() {
    let ini = "[mqtt]\nhost=broker.example\nport=1883\n[bluetooth]\nadapters=hci0,hci1\n";
    let config = parse(ini).unwrap();
    assert_eq!(config.mqtt_host, "broker.example");
    assert_eq!(config.mqtt_port, 1883);
    assert_eq!(config.bt_adapters, vec!["hci0".to_string(), "hci1".to_string()]);
}

#[test]
fn read_gives_the_same_configuration() {
    let config =
        Config::read("[mqtt]\nhost=10.0.0.2\nport=8883\n[bluetooth]\nadapters=\n").unwrap();
    assert_eq!(config.mqtt_host, "10.0.0.2");
    assert_eq!(config.mqtt_port, 8883);
    assert!(config.bt_adapters.is_empty());
}

#[test]
fn section_and_key_names_are_not_case_sensitive() {
    let ini = "[MQTT]\nHost=broker\nPORT=1\n[Bluetooth]\nAdapters=hci0\n";
    let config = parse(ini).unwrap();
    assert_eq!(config.mqtt_host, "broker");
    assert_eq!(config.mqtt_port, 1);
    assert_eq!(config.bt_adapters, vec!["hci0".to_string()]);
}

#[test]
fn missing_host_is_reported() {
    let ini = "[mqtt]\nport=1883\n[bluetooth]\nadapters=hci0\n";
    assert_eq!(parse(ini).unwrap_err(), "Missing 'host' in [mqtt] block");
}

#[test]
fn missing_port_is_reported() {
    let ini = "[mqtt]\nhost=broker\n[bluetooth]\nadapters=hci0\n";
    assert_eq!(parse(ini).unwrap_err(), "Missing 'port' in [mqtt] block");
}

#[test]
fn a_document_without_adapters_admits_every_adapter() {
    let no_key = "[mqtt]\nhost=broker\nport=1883\n[bluetooth]\n";
    let config = parse(no_key).unwrap();
    assert!(config.bt_adapters.is_empty());
    assert!(config.is_adapter_allowed("hci0"));
    let config = Config::read("[mqtt]\nhost=broker\nport=1883\n").unwrap();
    assert_eq!(config.mqtt_host, "broker");
    assert_eq!(config.mqtt_port, 1883);
    assert!(config.bt_adapters.is_empty());
    assert!(config.is_adapter_allowed("hci7"));
    let no_value = "[mqtt]\nhost=broker\nport=1883\n[bluetooth]\nadapters\n";
    assert!(parse(no_value).unwrap().bt_adapters.is_empty());
    let empty = "[mqtt]\nhost=broker\nport=1883\n[bluetooth]\nadapters=\n";
    assert!(parse(empty).unwrap().bt_adapters.is_empty());
}

#[test]
fn a_port_that_is_no_number_is_reported_in_the_parsers_words() {
    let ini = "[mqtt]\nhost=broker\nport=abc\n[bluetooth]\nadapters=hci0\n";
    let expected = "abc".parse::<i64>().unwrap_err().to_string();
    assert_eq!(parse(ini).unwrap_err(), expected);
}

#[test]
fn a_port_out_of_range_is_invalid() {
    let high = "[mqtt]\nhost=broker\nport=65536\n[bluetooth]\nadapters=hci0\n";
    assert_eq!(parse(high).unwrap_err(), "Invalid mqtt port");
    let negative = "[mqtt]\nhost=broker\nport=-1\n[bluetooth]\nadapters=hci0\n";
    assert_eq!(parse(negative).unwrap_err(), "Invalid mqtt port");
}

#[test]
fn the_ends_of_the_port_range_are_valid() {
    let low = "[mqtt]\nhost=broker\nport=0\n[bluetooth]\nadapters=hci0\n";
    assert_eq!(parse(low).unwrap().mqtt_port, 0);
    let high = "[mqtt]\nhost=broker\nport=65535\n[bluetooth]\nadapters=hci0\n";
    assert_eq!(parse(high).unwrap().mqtt_port, 65535);
}

#[test]
fn the_first_missing_value_is_the_one_reported() {
    let nothing = "[other]\nkey=value\n";
    assert_eq!(parse(nothing).unwrap_err(), "Missing 'host' in [mqtt] block");
    let no_host_bad_port = "[mqtt]\nport=x1\n";
    assert_eq!(
        parse(no_host_bad_port).unwrap_err(),
        "Missing 'host' in [mqtt] block"
    );
    let bad_port = "[mqtt]\nhost=broker\nport=x1\n";
    let expected = "x1".parse::<i64>().unwrap_err().to_string();
    assert_eq!(parse(bad_port).unwrap_err(), expected);
    let port_out_of_range = "[mqtt]\nhost=broker\nport=70000\n";
    assert_eq!(parse(port_out_of_range).unwrap_err(), "Invalid mqtt port");
}

#[test]
fn read_adds_the_hint_to_the_reason() {
    assert_eq!(
        Config::read("[mqtt]\nport=1883\n[bluetooth]\nadapters=hci0\n").unwrap_err(),
        format!("Missing 'host' in [mqtt] block{}", HINT)
    );
    assert_eq!(
        Config::read("[mqtt]\nhost=h\nport=99999\n[bluetooth]\nadapters=hci0\n").unwrap_err(),
        format!("Invalid mqtt port{}", HINT)
    );
    assert_eq!(
        Config::read("[mqtt]\nhost=h\n").unwrap_err(),
        format!("Missing 'port' in [mqtt] block{}", HINT)
    );
    let expected = "12x".parse::<i64>().unwrap_err().to_string();
    assert_eq!(
        Config::read("[mqtt]\nhost=h\nport=12x\n").unwrap_err(),
        format!("{}{}", expected, HINT)
    );
}

#[test]
fn read_takes_the_text_of_a_document() {
    let text = "; the broker\n[mqtt]\nhost = broker.example\nport = 1883\n\n# the radios\n\
                [bluetooth]\nadapters = hci0, hci1 ,,hci2\n";
    let config = Config::read(text).unwrap();
    assert_eq!(config.mqtt_host, "broker.example");
    assert_eq!(config.mqtt_port, 1883);
    assert_eq!(config.bt_adapters, vec!["hci0", "hci1", "hci2"]);
    assert!(config.is_adapter_allowed("hci1"));
    assert!(!config.is_adapter_allowed("hci3"));
}

#[test]
fn read_agrees_with_a_document_read_by_hand() {
    for text in [
        "[mqtt]\nhost=a\nport=1\n[bluetooth]\nadapters=x\n",
        "[MQTT]\nHOST=a\nPort=65535\n",
        "[mqtt]\nhost=a\nport=1\n[bluetooth]\nadapters= hci0 , hci1\n",
    ] {
        let by_text = Config::read(text).unwrap();
        let by_hand = document(text);
        assert_eq!(Some(by_text.mqtt_host), by_hand.get("mqtt", "host"));
        assert_eq!(Ok(Some(i64::from(by_text.mqtt_port))), by_hand.getint("mqtt", "port"));
        let list = by_hand.get("bluetooth", "adapters").unwrap_or_default();
        assert_eq!(by_text.bt_adapters, names(&list));
    }
}

#[test]
fn read_does_not_look_into_a_default_section() {
    let text = "[default]\nhost=fallback\nport=1\n[mqtt]\nhost=broker\n";
    assert_eq!(
        Config::read(text).unwrap_err(),
        format!("Missing 'port' in [mqtt] block{}", HINT)
    );
    let text = "host=fallback\nport=1\n[mqtt]\nport=2\n";
    assert_eq!(
        Config::read(text).unwrap_err(),
        format!("Missing 'host' in [mqtt] block{}", HINT)
    );
}

#[test]
fn a_text_that_is_no_document_is_reported_in_the_parsers_words() {
    let mut ini = Ini::new();
    let expected = ini.read(String::from("[mqtt\nhost=broker\nport=1\n")).unwrap_err();
    assert_eq!(Config::read("[mqtt\nhost=broker\nport=1\n").unwrap_err(), expected);
    let expected = ini.read(String::from("[mqtt]\n=broker\n")).unwrap_err();
    assert_eq!(Config::read("[mqtt]\n=broker\n").unwrap_err(), expected);
}

#[test]
fn an_empty_text_holds_no_host() {
    assert_eq!(Config::read("").unwrap_err(), format!("Missing 'host' in [mqtt] block{}", HINT));
}

#[test]
fn the_longest_text_is_longer_than_any_configuration() {
    assert_eq!(MAX_TEXT_LEN, 0x7FFF_0000);
    assert_eq!(MAX_TEXT_LEN, 2_147_418_112);
}

#[test]
fn build_config_takes_the_three_values() {
    let config = Config::build_config(
        Some("broker".to_string()),
        Ok(Some(1883)),
        Some(" hci0 , hci1 ".to_string()),
    )
    .unwrap();
    assert_eq!(config.mqtt_host, "broker");
    assert_eq!(config.mqtt_port, 1883);
    assert_eq!(config.bt_adapters, vec!["hci0".to_string(), "hci1".to_string()]);
}

#[test]
fn build_config_gives_each_reason() {
    assert_eq!(
        Config::build_config(None, Ok(Some(1)), Some(String::new())).unwrap_err(),
        "Missing 'host' in [mqtt] block"
    );
    assert_eq!(
        Config::build_config(None, Err("no number".into()), None).unwrap_err(),
        "Missing 'host' in [mqtt] block"
    );
    assert_eq!(
        Config::build_config(Some("h".into()), Err("no number".into()), Some(String::new()))
            .unwrap_err(),
        "no number"
    );
    assert_eq!(
        Config::build_config(Some("h".into()), Ok(None), Some(String::new())).unwrap_err(),
        "Missing 'port' in [mqtt] block"
    );
    assert_eq!(
        Config::build_config(Some("h".into()), Ok(Some(i64::MAX)), Some(String::new()))
            .unwrap_err(),
        "Invalid mqtt port"
    );
    assert_eq!(
        Config::build_config(Some("h".into()), Ok(Some(i64::MIN)), None).unwrap_err(),
        "Invalid mqtt port"
    );
}

#[test]
fn build_config_takes_a_missing_list_as_an_empty_one() {
    let config = Config::build_config(Some("h".into()), Ok(Some(65535)), None).unwrap();
    assert_eq!(config.mqtt_host, "h");
    assert_eq!(config.mqtt_port, 65535);
    assert!(config.bt_adapters.is_empty());
}

#[test]
fn adapters_are_split_at_commas_and_trimmed() {
    assert_eq!(names("hci0,hci1"), vec!["hci0", "hci1"]);
    assert_eq!(names(" hci0 ,\thci1\n"), vec!["hci0", "hci1"]);
    assert_eq!(names("hci0"), vec!["hci0"]);
    assert_eq!(names("a b,c"), vec!["a b", "c"]);
}

#[test]
fn empty_adapter_names_are_left_out() {
    assert!(names("").is_empty());
    assert!(names(",").is_empty());
    assert!(names(" , ,, ").is_empty());
    assert_eq!(names(",hci0,,hci1,"), vec!["hci0", "hci1"]);
    assert_eq!(names("hci0, ,hci1,"), vec!["hci0", "hci1"]);
}

#[test]
fn adapter_names_are_bare() {
    for list in ["hci0,hci1", " a , b ,, c ", ",,", "x", "", " \t", "a,b,", "\u{3000}é ,\u{a0}ü\n"] {
        for name in names(list) {
            assert!(!name.is_empty(), "for {:?}", list);
            assert!(!name.contains(','), "for {:?}", list);
            assert_eq!(name.trim(), name, "for {:?}", list);
            assert!(list.contains(name.as_str()), "for {:?}", list);
        }
    }
}

#[test]
fn adapters_are_trimmed_of_any_unicode_white_space() {
    assert_eq!(names("\u{a0}hci0\u{2003},\u{3000}hci1"), vec!["hci0", "hci1"]);
    assert_eq!(names("häci0 , ħci1"), vec!["häci0", "ħci1"]);
    assert_eq!(names("_hci0_"), vec!["_hci0_"]);
}

#[test]
fn splitting_agrees_with_the_standard_library() {
    for list in ["hci0,hci1", " a , b ,, c ", ",,", "x", "", " \t", "a,b,", "é , ü"] {
        let expected: Vec<String> = list
            .split(",")
            .map(|part| part.trim().to_string())
            .filter(|name| !name.is_empty())
            .collect();
        assert_eq!(names(list), expected, "for {:?}", list);
    }
}

#[test]
fn an_empty_allow_list_admits_every_adapter() {
    let config = Config { mqtt_host: String::new(), mqtt_port: 0, bt_adapters: Vec::new() };
    assert!(config.is_adapter_allowed("hci0"));
    assert!(config.is_adapter_allowed(""));
    assert!(config.is_adapter_allowed("anything at all"));
}

#[test]
fn an_allow_list_admits_only_its_names() {
    let config = Config {
        mqtt_host: String::new(),
        mqtt_port: 0,
        bt_adapters: vec!["hci0".to_string(), "hci2".to_string()],
    };
    assert!(config.is_adapter_allowed("hci0"));
    assert!(config.is_adapter_allowed("hci2"));
    assert!(!config.is_adapter_allowed("hci1"));
    assert!(!config.is_adapter_allowed("HCI0"));
    assert!(!config.is_adapter_allowed("hci"));
    assert!(!config.is_adapter_allowed("hci00"));
    assert!(!config.is_adapter_allowed(""));
}
