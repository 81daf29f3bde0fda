use shsqlite::endpoint::Endpoint;

#[test]
fn endpoint_urls() {
    let default = Endpoint::default();
    let jp = Endpoint::Japan;
    let g = Endpoint::from("global");

    assert_eq!(default.to_string(), "https://g.api.soracom.io");
    assert_eq!(jp.to_string(), "https://api.soracom.io");
    assert_eq!(g.to_string(), "https://g.api.soracom.io");
    assert_eq!(Endpoint::Global.as_str(), "https://g.api.soracom.io");
    assert_eq!(Endpoint::Japan.as_str(), "https://api.soracom.io");
}

#[test]
fn endpoint_default_is_global() {
    assert_eq!(Endpoint::default(), Endpoint::Global);
}

#[test]
fn endpoint_from_names() {
    for name in ["jp", "japan", "JP", "Japan", "JAPAN", "jApAn", "Jp"] {
        assert_eq!(Endpoint::from(name), Endpoint::Japan, "name {:?}", name);
    }
    for name in ["g", "global", "G", "GLOBAL", "Global", "", "j", "jpn", "japan ", " japan", "nippon", "us", "\u{ff4a}\u{ff50}"] {
        assert_eq!(Endpoint::from(name), Endpoint::Global, "name {:?}", name);
    }
}

#[test]
fn endpoint_from_names_as_lower_casing_would() {
    for name in ["jp", "JP", "japan", "JaPaN", "g", "GLOBAL", "x", "", "J\u{0041}PAN", "\u{212a}", "ja\u{0130}pan"] {
        let expected = match name.to_lowercase().as_str() {
            "g" | "global" => Endpoint::Global,
            "jp" | "japan" => Endpoint::Japan,
            _ => Endpoint::Global,
        };
        assert_eq!(Endpoint::from(name), expected, "name {:?}", name);
    }
}

#[test]
fn endpoint_from_owned_string() {
    assert_eq!(Endpoint::from("japan".to_string()), Endpoint::Japan);
    assert_eq!(Endpoint::from("global".to_string()), Endpoint::Global);
}

#[test]
fn endpoint_clone_is_equal() {
    assert_eq!(Endpoint::Japan.clone(), Endpoint::Japan);
    assert_eq!(Endpoint::Global.clone(), Endpoint::Global);
}
