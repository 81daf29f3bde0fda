use regex::Regex;
use shsqlite::endpoint::Endpoint;
use shsqlite::error::ArgumentError;
use shsqlite::module_arguments_parser::{
    collect_options_from_args, parse_option, resolve_options, scan_options, ModuleArgument,
};
use std::time::{SystemTime, UNIX_EPOCH};

fn args(list: &[&str]) -> Vec<String> {
    list.iter().map(|s| s.to_string()).collect()
}

fn clock() -> i64 {
    SystemTime::now().duration_since(UNIX_EPOCH).unwrap().as_millis() as i64
}

#[test]
fn test_collect_options_from_args() {
    let out = args(&[
        "IMSI '441200000050000'",
        "COVERAGE 'japan'",
        "FROM '1668003111681'",
        "TO '1668604289406'",
        "LIMIT '1000'",
    ]);

    assert_eq!(
        ("441200000050000".to_string(), Endpoint::Japan, 1668003111681, 1668604289406, 1000),
        collect_options_from_args(&out).unwrap()
    )
}

#[test]
fn test_collect_options_from_args_with_optional() {
    let out = args(&["IMSI '441200000050000'", "FROM '1668003111681'", "TO '1668604289406'"]);

    assert_eq!(
        ("441200000050000".to_string(), Endpoint::Global, 1668003111681, 1668604289406, 100),
        collect_options_from_args(&out).unwrap()
    )
}

#[test]
fn lone_imsi_gets_every_default() {
    let before = clock();
    let (imsi, endpoint, from, to, limit) = collect_options_from_args(&args(&["IMSI 'X'"])).unwrap();
    let after = clock();
    assert_eq!(imsi, "X");
    assert_eq!(endpoint, Endpoint::Global);
    assert_eq!(limit, 100);
    assert!(before - 86_400_000 <= from && from <= after - 86_400_000);
    assert!(before <= to && to <= after);
}

#[test]
fn lone_imsi_resolves_to_the_given_times() {
    assert_eq!(
        resolve_options(&args(&["IMSI 'X'"]), 1_000, 86_401_000),
        Ok(("X".to_string(), Endpoint::Global, 1_000, 86_401_000, 100))
    );
}

#[test]
fn missing_imsi_is_an_error_whatever_else_is_given() {
    let lists: [&[&str]; 6] = [
        &[],
        &["COVERAGE 'japan'"],
        &["FROM '1'", "TO '2'", "LIMIT '3'"],
        &["COVERAGE 'japan'", "FROM '1668003111681'", "TO '1668604289406'", "LIMIT '1000'"],
        &["IMSI ''"],
        &["IMSI 441200000050000", "IMSI='1'", "imsi: '1'"],
    ];
    for list in lists {
        assert_eq!(collect_options_from_args(&args(list)), Err(ArgumentError::NoImsi));
        assert_eq!(resolve_options(&args(list), 5, 6), Err(ArgumentError::NoImsi));
    }
}

#[test]
fn engine_arguments_are_passed_over() {
    let out = args(&["shsqlite", "main", "harvest_data", "IMSI '441200000050000'", "COVERAGE 'jp'"]);
    assert_eq!(
        resolve_options(&out, 10, 20),
        Ok(("441200000050000".to_string(), Endpoint::Japan, 10, 20, 100))
    );
}

#[test]
fn arguments_come_in_any_order_and_the_last_value_stands() {
    let out = args(&["LIMIT '5'", "TO '9'", "IMSI 'a'", "FROM '3'", "IMSI 'b'", "LIMIT '7'"]);
    assert_eq!(resolve_options(&out, 1, 2), Ok(("b".to_string(), Endpoint::Global, 3, 9, 7)));
}

#[test]
fn values_that_cannot_be_read_are_passed_over() {
    let out = args(&["IMSI 'a'", "FROM 'soon'", "TO '1.5'", "LIMIT '-3'", "COLOR 'red'", "nonsense"]);
    assert_eq!(resolve_options(&out, 1, 2), Ok(("a".to_string(), Endpoint::Global, 1, 2, 100)));
    let out = args(&["IMSI 'a'", "FROM '5'", "FROM 'later'", "LIMIT '9'", "LIMIT 'many'"]);
    assert_eq!(resolve_options(&out, 1, 2), Ok(("a".to_string(), Endpoint::Global, 5, 2, 9)));
}

#[test]
fn zero_times_count_as_unset() {
    let out = args(&["IMSI 'a'", "FROM '0'", "TO '0'"]);
    assert_eq!(resolve_options(&out, 11, 22), Ok(("a".to_string(), Endpoint::Global, 11, 22, 100)));
}

#[test]
fn no_limit_is_turned_down() {
    for (text, limit) in [("0", 0u32), ("1", 1), ("1000", 1000), ("1001", 1001), ("5000", 5000), ("4294967295", u32::MAX)] {
        let out = args(&["IMSI 'a'", &format!("LIMIT '{}'", text)]);
        assert_eq!(resolve_options(&out, 1, 2), Ok(("a".to_string(), Endpoint::Global, 1, 2, limit)));
        assert_eq!(scan_options(&out).4, limit);
    }
}

#[test]
fn scan_keeps_what_is_set() {
    assert_eq!(scan_options(&args(&[])), (String::new(), Endpoint::Global, 0, 0, 100));
    assert_eq!(
        scan_options(&args(&["To \"-5\"", "coverage \"JP\""])),
        (String::new(), Endpoint::Japan, 0, -5, 100)
    );
}

#[test]
fn parse_option_reads_each_key() {
    assert_eq!(parse_option("IMSI '441200000050000'"), Ok(ModuleArgument::Imsi("441200000050000".to_string())));
    assert_eq!(parse_option("COVERAGE 'japan'"), Ok(ModuleArgument::Coverage(Endpoint::Japan)));
    assert_eq!(parse_option("COVERAGE 'global'"), Ok(ModuleArgument::Coverage(Endpoint::Global)));
    assert_eq!(parse_option("COVERAGE 'mars'"), Ok(ModuleArgument::Coverage(Endpoint::Global)));
    assert_eq!(parse_option("FROM '1668003111681'"), Ok(ModuleArgument::From(1668003111681)));
    assert_eq!(parse_option("TO '-1'"), Ok(ModuleArgument::To(-1)));
    assert_eq!(parse_option("LIMIT '1000'"), Ok(ModuleArgument::Limit(1000)));
}

#[test]
fn parse_option_takes_any_case_either_quote_and_any_white_space() {
    assert_eq!(parse_option("imsi 'a'"), Ok(ModuleArgument::Imsi("a".to_string())));
    assert_eq!(parse_option("ImSi \"a\""), Ok(ModuleArgument::Imsi("a".to_string())));
    assert_eq!(parse_option("IMSI 'a\""), Ok(ModuleArgument::Imsi("a".to_string())));
    assert_eq!(parse_option("IMSI \"a'"), Ok(ModuleArgument::Imsi("a".to_string())));
    assert_eq!(parse_option("IMSI \t\n  'a b'"), Ok(ModuleArgument::Imsi("a b".to_string())));
    assert_eq!(parse_option("IMSI\u{3000}'a'"), Ok(ModuleArgument::Imsi("a".to_string())));
    assert_eq!(parse_option("IMSI\u{a0}\u{2003}'\u{3042}'"), Ok(ModuleArgument::Imsi("\u{3042}".to_string())));
    assert_eq!(parse_option("IMSI ' a '"), Ok(ModuleArgument::Imsi(" a ".to_string())));
    assert_eq!(parse_option("IMSI 'a\nb'"), Ok(ModuleArgument::Imsi("a\nb".to_string())));
    assert_eq!(parse_option("limit '+7'"), Ok(ModuleArgument::Limit(7)));
}

#[test]
fn parse_option_errors() {
    assert_eq!(parse_option("FROM 'yesterday'"), Err(ArgumentError::InvalidFrom));
    assert_eq!(parse_option("FROM '9223372036854775808'"), Err(ArgumentError::InvalidFrom));
    assert_eq!(parse_option("TO 'now'"), Err(ArgumentError::InvalidTo));
    assert_eq!(parse_option("TO ' 1'"), Err(ArgumentError::InvalidTo));
    assert_eq!(parse_option("LIMIT '-1'"), Err(ArgumentError::InvalidLimit));
    assert_eq!(parse_option("LIMIT '4294967296'"), Err(ArgumentError::InvalidLimit));
    assert_eq!(parse_option("LIMIT 'ten'"), Err(ArgumentError::InvalidLimit));
    for text in [
        "",
        "IMSI",
        "IMSI ",
        "IMSI ''",
        "IMSI'a'",
        "IMSI 'a",
        "IMSI a'",
        "IMSI a",
        "IMSI 'a' ",
        " IMSI 'a'",
        "IMSI 'a'b'",
        "IMSI 'a\"b'",
        "IMSI = 'a'",
        "IMSIS 'a'",
        "IMS 'a'",
        "COLOR 'red'",
        "FROM",
        "TOO '1'",
        "IM\u{17f}I 'a'",
        "harvest_data",
    ] {
        assert_eq!(parse_option(text), Err(ArgumentError::UnknownOption), "text {:?}", text);
    }
}

#[test]
fn parse_option_follows_the_pattern_of_the_grammar() {
    let pattern = Regex::new(r#"(?i)^(IMSI|COVERAGE|FROM|TO|LIMIT)\s+['"]([^'"]+)['"]$"#).unwrap();
    let keys = [
        "IMSI",
        "imsi",
        "Coverage",
        "FROM",
        "to",
        "LIMIT",
        "IMS",
        "IMSIX",
        "",
        "IM\u{17f}I",
        "\u{131}MSI",
        "\u{130}MSI",
        "L\u{130}MIT",
        "T\u{4f}",
        "\nTO",
        " TO",
        "KEY",
    ];
    let gaps = ["", " ", "  ", "\t", "\n", "\u{a0}", "\u{85}", "\u{1680}", "\u{2028}", "\u{200b}", "=", "\u{b}\u{c}\r"];
    let opens = ["'", "\"", "", "`"];
    let values = ["", "a", "12", "-5", "a b", "a'b", "a\"b", "japan", "\u{3042}", "a\n"];
    let closes = ["'", "\"", "", "' ", "''", "'\n", "'\r\n"];
    for key in keys {
        for gap in gaps {
            for open in opens {
                for value in values {
                    for close in closes {
                        let text = format!("{}{}{}{}{}", key, gap, open, value, close);
                        let expected = match pattern.captures(&text) {
                            Some(cap) => match cap[1].to_lowercase().as_str() {
                                "imsi" => Ok(ModuleArgument::Imsi(cap[2].to_string())),
                                "coverage" => Ok(ModuleArgument::Coverage(Endpoint::from(&cap[2]))),
                                "from" => match cap[2].parse::<i64>() {
                                    Ok(i) => Ok(ModuleArgument::From(i)),
                                    Err(_) => Err(ArgumentError::InvalidFrom),
                                },
                                "to" => match cap[2].parse::<i64>() {
                                    Ok(i) => Ok(ModuleArgument::To(i)),
                                    Err(_) => Err(ArgumentError::InvalidTo),
                                },
                                "limit" => match cap[2].parse::<u32>() {
                                    Ok(u) => Ok(ModuleArgument::Limit(u)),
                                    Err(_) => Err(ArgumentError::InvalidLimit),
                                },
                                _ => Err(ArgumentError::UnknownOption),
                            },
                            None => Err(ArgumentError::UnknownOption),
                        };
                        assert_eq!(parse_option(&text), expected, "text {:?}", text);
                    }
                }
            }
        }
    }
}

#[test]
fn argument_error_messages() {
    assert_eq!(ArgumentError::NoImsi.to_string(), "No IMSI is provided");
    assert_eq!(ArgumentError::InvalidFrom.to_string(), "Invalid 'from' is provided");
    assert_eq!(ArgumentError::InvalidTo.to_string(), "Invalid 'to' is provided");
    assert_eq!(
        ArgumentError::InvalidLimit.to_string(),
        "Invalid 'limit' is provided. It should be from 1 to 1000"
    );
    assert_eq!(ArgumentError::UnknownOption.to_string(), "Unknown option is provided");
}
