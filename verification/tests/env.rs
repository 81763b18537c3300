use azalia_config::env::list::{contains, entries, pair, split_at_each, split_at_first};
use azalia_config::env::{
    parse, try_parse, try_parse_optional, try_parse_or, try_parse_or_else, FromEnvValue,
    MapTryFromEnvError, TryFromEnv, TryFromEnvValue, TryParseError, VarError,
};
use std::collections::{BTreeMap, BTreeSet, HashMap, HashSet};

/// A number that has to be written in decimal digits.
#[derive(Debug, Clone, Copy, PartialEq, Eq, Hash, PartialOrd, Ord)]
struct Number(u32);

#[derive(Debug, PartialEq, Eq)]
struct NotANumber(String);

impl TryFromEnvValue for Number {
    type Error = NotANumber;

    fn try_from_env_value(value: String) -> Result<Self, Self::Error> {
        match value.parse() {
            Ok(number) => Ok(Number(number)),
            Err(_) => Err(NotANumber(value)),
        }
    }
}

fn text(value: &str) -> String {
    value.to_string()
}

fn strings(values: &[&str]) -> Vec<String> {
    values.iter().map(|value| value.to_string()).collect()
}

#[test]
fn a_string_is_taken_as_it_is() {
    assert_eq!(String::from_env_value(text("hello world")), "hello world");
    assert_eq!(String::from_env_value(String::new()), "");
}

#[test]
fn what_cannot_fail_can_be_tried() {
    assert_eq!(String::try_from_env_value(text("a=b,c")), Ok(text("a=b,c")));
}

#[test]
fn map_try_from_env_value() {
    assert!(<HashMap<String, String> as TryFromEnvValue>::try_from_env_value("hello=world".into()).is_ok());
    assert!(<HashMap<String, String> as TryFromEnvValue>::try_from_env_value("helloworld".into()).is_ok());
    assert!(<HashMap<String, String> as TryFromEnvValue>::try_from_env_value("".into()).is_ok());
    assert!(<HashMap<String, String> as TryFromEnvValue>::try_from_env_value(
        "hello=world,weow=fluff;wwww,s=true".into()
    )
    .is_ok());

    assert!(<BTreeMap<String, String> as TryFromEnvValue>::try_from_env_value("hello=world".into()).is_ok());
    assert!(<BTreeMap<String, String> as TryFromEnvValue>::try_from_env_value("helloworld".into()).is_ok());
    assert!(<BTreeMap<String, String> as TryFromEnvValue>::try_from_env_value("".into()).is_ok());
    assert!(<BTreeMap<String, String> as TryFromEnvValue>::try_from_env_value(
        "hello=world,weow=fluff;wwww,s=true".into()
    )
    .is_ok());
}

#[test]
fn set_try_from_env_value() {
    assert!(<HashSet<String> as TryFromEnvValue>::try_from_env_value("hello,world".into()).is_ok());
    assert!(<HashSet<String> as TryFromEnvValue>::try_from_env_value("helloworld".into()).is_ok());
    assert!(<HashSet<String> as TryFromEnvValue>::try_from_env_value("".into()).is_ok());
    assert!(<HashSet<String> as TryFromEnvValue>::try_from_env_value("hello,world,weow,fluff".into()).is_ok());

    assert!(<BTreeSet<String> as TryFromEnvValue>::try_from_env_value("hello,world".into()).is_ok());
    assert!(<BTreeSet<String> as TryFromEnvValue>::try_from_env_value("helloworld".into()).is_ok());
    assert!(<BTreeSet<String> as TryFromEnvValue>::try_from_env_value("".into()).is_ok());
    assert!(<BTreeSet<String> as TryFromEnvValue>::try_from_env_value("hello,world,weow,fluff".into()).is_ok());
}

#[test]
fn a_map_holds_the_entries_of_the_list() {
    let map = BTreeMap::<String, String>::try_from_env_value(text(
        "hello=world,weow=fluff;wwww,s=true",
    ));
    let Ok(map) = map else { panic!("a map of strings cannot be turned down") };
    assert_eq!(
        map.into_iter().collect::<Vec<_>>(),
        vec![
            (text("hello"), text("world")),
            (text("s"), text("true")),
            (text("weow"), text("fluff;wwww")),
        ]
    );

    let Ok(map) = HashMap::<String, Number>::try_from_env_value(text("a=1,b=2,a=3,,c,d=4=5,=6"))
    else {
        panic!("every value is a number")
    };
    assert_eq!(map.len(), 3);
    assert_eq!(map.get("a"), Some(&Number(3)));
    assert_eq!(map.get("b"), Some(&Number(2)));
    assert_eq!(map.get(""), Some(&Number(6)));

    let Ok(map) = HashMap::<String, String>::try_from_env_value(text("helloworld")) else {
        panic!("a map of strings cannot be turned down")
    };
    assert!(map.is_empty());
}

#[test]
fn a_map_is_turned_down_for_its_first_bad_key_or_value() {
    let res = BTreeMap::<Number, Number>::try_from_env_value(text("1=2,x=y,3=z"));
    assert!(matches!(res, Err(MapTryFromEnvError::Key(NotANumber(ref key))) if key == "x"));
    let res = BTreeMap::<Number, Number>::try_from_env_value(text("1=2,3=z,x=y"));
    assert!(matches!(res, Err(MapTryFromEnvError::Value(NotANumber(ref value))) if value == "z"));
    let res = HashMap::<Number, String>::try_from_env_value(text("k=v"));
    assert!(matches!(res, Err(MapTryFromEnvError::Key(NotANumber(ref key))) if key == "k"));
    let res = HashMap::<String, Number>::try_from_env_value(text("k=v"));
    assert!(matches!(res, Err(MapTryFromEnvError::Value(NotANumber(ref value))) if value == "v"));
    // What is no entry is passed over, whatever it holds.
    let res = BTreeMap::<Number, Number>::try_from_env_value(text("x,1=2,y=1=2"));
    assert!(matches!(res, Ok(ref map) if map.len() == 1 && map[&Number(1)] == Number(2)));
}

#[test]
fn a_set_holds_the_pieces_of_the_list() {
    let Ok(set) = BTreeSet::<String>::try_from_env_value(text("hello,world,weow,hello")) else {
        panic!("a set of strings cannot be turned down")
    };
    assert_eq!(set.into_iter().collect::<Vec<_>>(), strings(&["hello", "weow", "world"]));

    let Ok(set) = HashSet::<String>::try_from_env_value(String::new()) else {
        panic!("a set of strings cannot be turned down")
    };
    assert_eq!(set.len(), 1);
    assert!(set.contains(""));

    assert_eq!(
        BTreeSet::<Number>::try_from_env_value(text("3,1,2,1")),
        Ok([Number(1), Number(2), Number(3)].into_iter().collect())
    );
    assert_eq!(
        HashSet::<Number>::try_from_env_value(text("7")),
        Ok([Number(7)].into_iter().collect())
    );
}

#[test]
fn a_set_is_turned_down_for_its_first_bad_piece() {
    assert_eq!(
        BTreeSet::<Number>::try_from_env_value(text("1,two,3,four")),
        Err(NotANumber(text("two")))
    );
    assert_eq!(HashSet::<Number>::try_from_env_value(text("1,,3")), Err(NotANumber(String::new())));
    assert_eq!(HashSet::<Number>::try_from_env_value(String::new()), Err(NotANumber(String::new())));
}

#[test]
fn a_text_is_cut_at_every_separator() {
    assert_eq!(split_at_each("a,b,c", ','), strings(&["a", "b", "c"]));
    assert_eq!(split_at_each("", ','), strings(&[""]));
    assert_eq!(split_at_each(",", ','), strings(&["", ""]));
    assert_eq!(split_at_each("a,,b,", ','), strings(&["a", "", "b", ""]));
    assert_eq!(split_at_each("no comma", ','), strings(&["no comma"]));
    assert_eq!(split_at_each("ä,ö;ü", ','), strings(&["ä", "ö;ü"]));
    assert_eq!(split_at_each("a=b=c", '='), strings(&["a", "b", "c"]));
    for sample in ["", ",", "a,b", ",a,,b,", "hello=world,weow=fluff;wwww,s=true", "ä,ö,ü"] {
        let std: Vec<String> = sample.split(',').map(str::to_string).collect();
        assert_eq!(split_at_each(sample, ','), std);
    }
}

#[test]
fn a_text_is_cut_at_the_first_separator() {
    assert_eq!(split_at_first("key=value", '='), Some((text("key"), text("value"))));
    assert_eq!(split_at_first("a=b=c", '='), Some((text("a"), text("b=c"))));
    assert_eq!(split_at_first("=", '='), Some((String::new(), String::new())));
    assert_eq!(split_at_first("a=", '='), Some((text("a"), String::new())));
    assert_eq!(split_at_first("=b", '='), Some((String::new(), text("b"))));
    assert_eq!(split_at_first("ä=ö", '='), Some((text("ä"), text("ö"))));
    assert_eq!(split_at_first("none", '='), None);
    assert_eq!(split_at_first("", '='), None);
}

#[test]
fn a_separator_is_found_where_it_stands() {
    assert!(contains("a=b", '='));
    assert!(contains("=", '='));
    assert!(contains("äöü=", '='));
    assert!(!contains("a,b", '='));
    assert!(!contains("", '='));
}

#[test]
fn an_entry_has_exactly_one_equals_sign() {
    assert_eq!(pair("k=v"), Some((text("k"), text("v"))));
    assert_eq!(pair("="), Some((String::new(), String::new())));
    assert_eq!(pair("k"), None);
    assert_eq!(pair(""), None);
    assert_eq!(pair("k=v=w"), None);
    assert_eq!(pair("k=="), None);
    assert_eq!(
        entries("a=1,b,c=2=3,d=4,,=5"),
        vec![(text("a"), text("1")), (text("d"), text("4")), (String::new(), text("5"))]
    );
    assert_eq!(entries(""), Vec::<(String, String)>::new());
}

#[test]
fn a_variable_that_was_read_is_parsed() {
    assert_eq!(parse::<String>(Ok(text("value"))), Ok(text("value")));
    assert_eq!(parse::<String>(Err(VarError::NotPresent)), Err(VarError::NotPresent));
    assert_eq!(parse::<String>(Err(VarError::NotUnicode)), Err(VarError::NotUnicode));

    assert!(matches!(try_parse::<Number>(Ok(text("42"))), Ok(Number(42))));
    assert!(matches!(
        try_parse::<Number>(Ok(text("forty-two"))),
        Err(TryParseError::Parse(NotANumber(ref value))) if value == "forty-two"
    ));
    assert!(matches!(
        try_parse::<Number>(Err(VarError::NotPresent)),
        Err(TryParseError::System(VarError::NotPresent))
    ));
    assert!(matches!(
        try_parse::<Number>(Err(VarError::NotUnicode)),
        Err(TryParseError::System(VarError::NotUnicode))
    ));
}

#[test]
fn a_variable_that_is_not_set_gives_the_default() {
    assert!(matches!(try_parse_or(Err(VarError::NotPresent), || Number(7)), Ok(Number(7))));
    assert!(matches!(try_parse_or(Ok(text("8")), || Number(7)), Ok(Number(8))));
    assert!(matches!(
        try_parse_or(Ok(text("x")), || Number(7)),
        Err(TryParseError::Parse(NotANumber(_)))
    ));
    assert!(matches!(
        try_parse_or(Err(VarError::NotUnicode), || Number(7)),
        Err(TryParseError::System(VarError::NotUnicode))
    ));
    let mut called = false;
    let _ = try_parse_or(Ok(text("8")), || {
        called = true;
        Number(7)
    });
    assert!(!called);

    assert!(matches!(try_parse_or_else(Err(VarError::NotPresent), Number(7)), Ok(Number(7))));
    assert!(matches!(try_parse_or_else(Ok(text("8")), Number(7)), Ok(Number(8))));
    assert!(matches!(
        try_parse_or_else(Ok(text("x")), Number(7)),
        Err(TryParseError::Parse(NotANumber(_)))
    ));
    assert!(matches!(
        try_parse_or_else(Err(VarError::NotUnicode), Number(7)),
        Err(TryParseError::System(VarError::NotUnicode))
    ));

    assert!(matches!(try_parse_optional::<Number>(Err(VarError::NotPresent)), Ok(None)));
    assert!(matches!(try_parse_optional::<Number>(Ok(text("8"))), Ok(Some(Number(8)))));
    assert!(matches!(
        try_parse_optional::<Number>(Ok(text("x"))),
        Err(TryParseError::Parse(NotANumber(_)))
    ));
    assert!(matches!(
        try_parse_optional::<Number>(Err(VarError::NotUnicode)),
        Err(TryParseError::System(VarError::NotUnicode))
    ));
}

#[allow(deprecated)]
struct Fixed(u8);

#[allow(deprecated)]
impl azalia_config::env::FromEnv for Fixed {
    fn from_env() -> Self {
        Fixed(9)
    }
}

#[test]
fn what_is_read_without_fail_can_be_tried() {
    let Ok(Fixed(value)) = Fixed::try_from_env();
    assert_eq!(value, 9);
}

#[test]
fn flags_are_read_as_true_or_false() {
    assert_eq!(bool::try_from_env_value(text("true")), Ok(true));
    assert_eq!(bool::try_from_env_value(text("false")), Ok(false));
    for other in ["", "1", "0", "True", "yes", " true", "true ", "falsefalse"] {
        assert!(bool::try_from_env_value(text(other)).is_err());
    }
    assert!(matches!(try_parse::<bool>(Ok(text("true"))), Ok(true)));
    assert!(matches!(try_parse::<bool>(Ok(text("on"))), Err(TryParseError::Parse(_))));
}

#[test]
fn characters_are_read_one_at_a_time() {
    assert_eq!(char::try_from_env_value(text("x")), Ok('x'));
    assert_eq!(char::try_from_env_value(text("ä")), Ok('ä'));
    assert!(char::try_from_env_value(text("")).is_err());
    assert!(char::try_from_env_value(text("xy")).is_err());
}

#[test]
fn numbers_are_read_in_decimal() {
    assert_eq!(u8::try_from_env_value(text("255")), Ok(255));
    assert!(u8::try_from_env_value(text("256")).is_err());
    assert!(u8::try_from_env_value(text("-1")).is_err());
    assert_eq!(u16::try_from_env_value(text("8080")), Ok(8080));
    assert_eq!(u32::try_from_env_value(text("+7")), Ok(7));
    assert_eq!(u64::try_from_env_value(text("18446744073709551615")), Ok(u64::MAX));
    assert_eq!(u128::try_from_env_value(text("0")), Ok(0));
    assert_eq!(usize::try_from_env_value(text("42")), Ok(42));
    assert_eq!(i8::try_from_env_value(text("-128")), Ok(-128));
    assert!(i8::try_from_env_value(text("128")).is_err());
    assert_eq!(i16::try_from_env_value(text("-1")), Ok(-1));
    assert_eq!(i32::try_from_env_value(text("2147483647")), Ok(i32::MAX));
    assert_eq!(i64::try_from_env_value(text("-9")), Ok(-9));
    assert_eq!(i128::try_from_env_value(text("12")), Ok(12));
    assert_eq!(isize::try_from_env_value(text("-42")), Ok(-42));
    for other in ["", " 1", "1 ", "1_000", "0x10", "ten", "1.0"] {
        assert!(u32::try_from_env_value(text(other)).is_err());
        assert!(i64::try_from_env_value(text(other)).is_err());
    }
}

#[test]
fn collections_of_numbers_are_read() {
    assert_eq!(
        BTreeSet::<u16>::try_from_env_value(text("80,443,80")),
        Ok([80, 443].into_iter().collect())
    );
    assert!(BTreeSet::<u16>::try_from_env_value(text("80,https")).is_err());
    let Ok(map) = BTreeMap::<String, bool>::try_from_env_value(text("a=true,b=false")) else {
        panic!("both values are flags")
    };
    assert_eq!(map.into_iter().collect::<Vec<_>>(), vec![(text("a"), true), (text("b"), false)]);
    assert!(matches!(
        HashMap::<u8, u8>::try_from_env_value(text("1=2,300=4")),
        Err(MapTryFromEnvError::Key(_))
    ));
}
