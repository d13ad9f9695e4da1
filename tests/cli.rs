use rcli::cli::{
    file_check, key_files, pair_records, parse_base64_format, parse_format, parse_output_format,
    path_buf_check, path_check, split_audience, Base64FormatType, OutputFormat, TextSignFormat,
};
use rcli::RcliError;

// The library decides from the name and from whether the file is there; the
// manifest of the package is there, `not_found` is not, and `-` need not be.
#[test]
fn test_file_check() {
    assert!(file_check("-", false).is_ok());
    assert!(file_check("Cargo.toml", true).is_ok());
    assert!(file_check("not_found", false).is_err());
}

#[test]
fn file_check_reports_the_missing_name() {
    assert_eq!(file_check("nope.txt", false), Err(RcliError::NotFound("nope.txt".to_string())));
    assert_eq!(file_check("here.txt", true), Ok("here.txt".to_string()));
}

#[test]
fn path_checks_follow_existence() {
    assert_eq!(path_check("keys", true), Ok("keys".to_string()));
    assert_eq!(path_check("keys", false), Err(RcliError::NotFound("keys".to_string())));
    assert_eq!(path_buf_check(".", true), Ok(".".to_string()));
    assert!(path_buf_check("-", false).is_err());
}

#[test]
fn text_sign_format_names_in_any_case() {
    assert_eq!(parse_format("blake3"), Ok(TextSignFormat::Blake3));
    assert_eq!(parse_format("ED25519"), Ok(TextSignFormat::Ed25519));
    assert_eq!(parse_format("Base64"), Ok(TextSignFormat::ChaCha20));
    assert_eq!(parse_format("RSA"), Err(RcliError::UnsupportedFormat("rsa".to_string())));
    let parsed: TextSignFormat = "BLAKE3".parse().unwrap();
    assert_eq!(parsed, TextSignFormat::Blake3);
    assert_eq!("Rsa".parse::<TextSignFormat>(), Err(RcliError::UnsupportedFormat("rsa".to_string())));
    assert_eq!(TextSignFormat::ChaCha20.as_str(), "base64");
    assert_eq!(TextSignFormat::Blake3.as_str(), "blake3");
    assert_eq!(TextSignFormat::Ed25519.as_str(), "ed25519");
    for f in [TextSignFormat::Blake3, TextSignFormat::Ed25519, TextSignFormat::ChaCha20] {
        assert_eq!(parse_format(f.as_str()), Ok(f));
    }
}

#[test]
fn base64_format_names_in_any_case() {
    assert_eq!(parse_base64_format("UrlSafe"), Ok(Base64FormatType::UrlSafe));
    assert_eq!(parse_base64_format("standard"), Ok(Base64FormatType::STANDARD));
    assert_eq!(parse_base64_format("hex"), Err(RcliError::UnsupportedFormat("hex".to_string())));
    assert_eq!(Base64FormatType::UrlSafe.as_str(), "urlsafe");
    for f in [Base64FormatType::UrlSafe, Base64FormatType::STANDARD] {
        assert_eq!(f.as_str().parse::<Base64FormatType>(), Ok(f));
    }
    assert!("url".parse::<Base64FormatType>().is_err());
}

#[test]
fn output_format_names_in_any_case() {
    assert_eq!(parse_output_format("JSON"), Ok(OutputFormat::Json));
    assert_eq!(parse_output_format("yaml"), Ok(OutputFormat::Yaml));
    assert_eq!(parse_output_format("Toml"), Ok(OutputFormat::Toml));
    assert_eq!(parse_output_format("xml"), Err(RcliError::UnsupportedFormat("xml".to_string())));
    let name: &'static str = OutputFormat::Yaml.into();
    assert_eq!(name, "yaml");
    for f in [OutputFormat::Json, OutputFormat::Yaml, OutputFormat::Toml] {
        assert_eq!(f.as_str().to_uppercase().parse::<OutputFormat>(), Ok(f));
    }
    assert_eq!("csv".parse::<OutputFormat>(), Err(RcliError::UnsupportedFormat("csv".to_string())));
    assert!(OutputFormat::Json.is_supported_output());
    assert!(!OutputFormat::Toml.is_supported_output());
}

#[test]
fn audiences_split_on_commas() {
    assert_eq!(split_audience("test,test1,test2"), vec!["test", "test1", "test2"]);
    assert_eq!(split_audience("test"), vec!["test"]);
    assert_eq!(split_audience(""), vec![""]);
    assert_eq!(split_audience("a,,b,"), vec!["a", "", "b", ""]);
}

#[test]
fn records_pair_with_headers() {
    let headers = vec!["name".to_string(), "age".to_string()];
    let records = vec![
        vec!["alice".to_string(), "30".to_string()],
        vec!["bob".to_string()],
        vec!["carol".to_string(), "41".to_string(), "extra".to_string()],
    ];
    let rows = pair_records(&headers, &records);
    assert_eq!(rows.len(), 3);
    assert_eq!(rows[0], vec![("name".to_string(), "alice".to_string()), ("age".to_string(), "30".to_string())]);
    assert_eq!(rows[1], vec![("name".to_string(), "bob".to_string())]);
    assert_eq!(rows[2].len(), 2);
    assert_eq!(rows[2][1], ("age".to_string(), "41".to_string()));
}

#[test]
fn key_files_follow_the_scheme_layout() {
    let blake = key_files(TextSignFormat::Blake3, &vec![vec![1u8; 32]]);
    assert_eq!(blake, vec![("blake3.key".to_string(), vec![1u8; 32])]);
    let ed = key_files(TextSignFormat::Ed25519, &vec![vec![1u8; 32], vec![2u8; 32]]);
    assert_eq!(
        ed,
        vec![("ed25519.pub".to_string(), vec![2u8; 32]), ("ed25519.priv".to_string(), vec![1u8; 32])]
    );
    let chacha = key_files(TextSignFormat::ChaCha20, &vec![vec![3u8; 32], vec![4u8; 12]]);
    let mut blob = vec![3u8; 32];
    blob.extend_from_slice(&[4u8; 12]);
    assert_eq!(chacha, vec![("base64.key".to_string(), blob)]);
}
