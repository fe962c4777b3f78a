use sandbox::decimal::i32_to_decimal;
use sandbox::request_id::{make_request_id, request_id_from_uuid_bytes};
use sandbox::settings::{AppEnv, Settings};

#[test]
fn decimal_matches_display() {
    for n in [0, 7, 10, 42, 100, -1, -7, -42, 2147483647, -2147483648, 1000000] {
        assert_eq!(i32_to_decimal(n), format!("{}", n));
    }
}

#[test]
fn environment_names_parse_in_any_case() {
    assert_eq!(AppEnv::try_from("Production".to_string()), Ok(AppEnv::Production));
    assert_eq!(AppEnv::try_from("TEST".to_string()), Ok(AppEnv::Test));
    assert_eq!(AppEnv::try_from("development".to_string()), Ok(AppEnv::Development));
}

#[test]
fn unknown_environment_is_refused_with_its_lowered_name() {
    assert_eq!(
        AppEnv::try_from("Staging".to_string()),
        Err("Invalid environment: staging".to_string())
    );
}

#[test]
fn environment_name_round_trips() {
    for env in [AppEnv::Development, AppEnv::Test, AppEnv::Production] {
        assert_eq!(AppEnv::from_lowercase(env.name().to_string()), Ok(env));
    }
}

#[test]
fn environment_defaults_to_development() {
    assert_eq!(Settings::environment(None), Ok(AppEnv::Development));
    assert_eq!(Settings::environment(Some("test".to_string())), Ok(AppEnv::Test));
    assert!(Settings::environment(Some("nowhere".to_string())).is_err());
}

#[test]
fn sources_read_defaults_then_environment_file() {
    let sources = Settings::sources(AppEnv::Production);
    assert_eq!(sources.files.len(), 2);
    assert_eq!(sources.files[0].name, "default.yaml");
    assert!(sources.files[0].required);
    assert_eq!(sources.files[1].name, "production.yaml");
    assert!(!sources.files[1].required);
    assert_eq!(sources.env_prefix, "APP");
    assert_eq!(sources.prefix_separator, "_");
    assert_eq!(sources.separator, "__");
}

#[test]
fn request_ids_are_hyphenated_uuids() {
    let a = make_request_id().expect("an id");
    let b = make_request_id().expect("an id");
    let ta = a.header_value().to_str().unwrap().to_string();
    let tb = b.header_value().to_str().unwrap().to_string();
    assert_eq!(ta.len(), 36);
    assert_ne!(ta, tb);
    for (i, c) in ta.chars().enumerate() {
        if i == 8 || i == 13 || i == 18 || i == 23 {
            assert_eq!(c, '-');
        } else {
            assert!(c.is_ascii_digit() || ('a'..='f').contains(&c));
        }
    }
    assert_eq!(ta.chars().nth(14), Some('4'));
}

#[test]
fn request_id_is_the_text_of_the_given_uuid() {
    let bytes = [
        0x67, 0xe5, 0x50, 0x44, 0x10, 0xb1, 0x42, 0x6f, 0x92, 0x47, 0xbb, 0x68, 0x0e, 0x5f, 0xe0,
        0xc8,
    ];
    let id = request_id_from_uuid_bytes(bytes).expect("an id");
    assert_eq!(
        id.header_value().to_str().unwrap(),
        "67e55044-10b1-426f-9247-bb680e5fe0c8"
    );
}
